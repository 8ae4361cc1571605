use vstd::prelude::*;

verus! {

/// A balance in lamports, the smallest unit of SOL.
#[derive(Debug, Clone, Copy, PartialEq, Eq, Structural)]
pub struct SolanaBalance {
    lamports: u64,
}

impl SolanaBalance {
    /// How many lamports make one SOL.
    pub const LAMPORTS_PER_SOL: u64 = 1_000_000_000;

    pub closed spec fn spec_lamports(self) -> u64 {
        self.lamports
    }

    pub fn new(lamports: u64) -> (balance: Self)
        ensures
            balance.spec_lamports() == lamports,
    {
        SolanaBalance { lamports }
    }

    pub fn lamports(&self) -> (lamports: u64)
        ensures
            lamports == self.spec_lamports(),
    {
        self.lamports
    }
}

} // verus!
