use vstd::prelude::*;

use crate::address::Address;
use crate::chain::Chain;
use crate::network::{Network, network_chain};
use crate::text::is_blank_text;

verus! {

/// A public account: a network and a non-blank address on it.
#[derive(Debug, PartialEq, Eq)]
pub struct Account {
    network: Network,
    address: Address,
}

impl Clone for Account {
    fn clone(&self) -> (copy: Self)
        ensures
            copy == *self,
    {
        proof {
            use_type_invariant(self);
        }
        Account { network: self.network, address: self.address.clone() }
    }
}

impl Account {
    #[verifier::type_invariant]
    closed spec fn address_not_blank(self) -> bool {
        !is_blank_text(self.address@)
    }

    pub closed spec fn spec_network(self) -> Network {
        self.network
    }

    pub closed spec fn spec_address(self) -> Seq<char> {
        self.address@
    }

    pub fn chain(&self) -> (chain: Chain)
        ensures
            chain == network_chain(self.spec_network()),
    {
        self.network.chain()
    }

    /// Builds an account; refuses a blank address.
    pub fn new(network: Network, address: Address) -> (account: Option<Self>)
        ensures
            account is None <==> is_blank_text(address@),
            account matches Some(a) ==> a.spec_network() == network && a.spec_address() == address@,
    {
        if address.is_blank() {
            None
        } else {
            Some(Account { network, address })
        }
    }

    pub fn network(&self) -> (network: Network)
        ensures
            network == self.spec_network(),
    {
        self.network
    }

    /// The account's address; it is never blank.
    pub fn address(&self) -> (address: &Address)
        ensures
            address@ == self.spec_address(),
            !is_blank_text(address@),
    {
        proof {
            use_type_invariant(self);
        }
        &self.address
    }
}

} // verus!
