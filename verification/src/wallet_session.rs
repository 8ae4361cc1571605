use vstd::prelude::*;

use crate::solana_wallet::{GeneratedSolanaWallet, SolanaPublicAddress, WalletKeys};
use crate::text::{debug_quote, debug_quoted};
use vstd::string::StringExecFns;

verus! {

/// A generated wallet together with the name the user gave it.
#[derive(PartialEq, Eq)]
pub struct NamedWallet {
    name: String,
    wallet: GeneratedSolanaWallet,
}

pub struct NamedWalletView {
    pub name: Seq<char>,
    pub keys: WalletKeys,
}

impl View for NamedWallet {
    type V = NamedWalletView;

    closed spec fn view(&self) -> NamedWalletView {
        NamedWalletView { name: self.name@, keys: self.wallet@ }
    }
}

impl Clone for NamedWallet {
    fn clone(&self) -> (copy: Self)
        ensures
            copy@ == self@,
    {
        NamedWallet { name: self.name.clone(), wallet: self.wallet.clone() }
    }
}

impl NamedWallet {
    pub fn new(name: String, wallet: GeneratedSolanaWallet) -> (named: Self)
        ensures
            named@.name == name@,
            named@.keys == wallet@,
    {
        NamedWallet { name, wallet }
    }

    pub fn name(&self) -> (name: &str)
        ensures
            name@ == self@.name,
    {
        self.name.as_str()
    }

    pub fn public_address(&self) -> (address: &SolanaPublicAddress)
        ensures
            address@ == self@.keys.address,
    {
        self.wallet.public_address()
    }

    /// The debug form shows the name and the public address, never the key.
    pub fn debug_string(&self) -> (text: String)
        ensures
            text@ == "NamedWallet { name: "@ + debug_quoted(self@.name)
                + ", public_address: SolanaPublicAddress { address: Address("@ + seq!['"']
                + self@.keys.address + seq!['"'] + ") } }"@,
    {
        let mut text = String::from_str("NamedWallet { name: ");
        let name = debug_quote(self.name.as_str());
        text.append(name.as_str());
        text.append(", public_address: SolanaPublicAddress { address: Address(");
        let address = debug_quote(self.wallet.public_address().as_str());
        text.append(address.as_str());
        text.append(") } }");
        text
    }
}

#[derive(Debug, Clone, Copy, PartialEq, Eq, Structural)]
pub enum WalletSessionError {
    WalletNotFound,
}

impl WalletSessionError {
    pub fn message(self) -> (message: &'static str)
        ensures
            message@ == "Wallet not found"@,
    {
        match self {
            WalletSessionError::WalletNotFound => "Wallet not found",
        }
    }
}

/// The wallets created in this session and which one is selected.
///
/// A selection always names an existing wallet, and a session that holds any
/// wallet always has one selected.
#[derive(PartialEq, Eq)]
pub struct WalletSession {
    wallet: Vec<NamedWallet>,
    selected_wallet_index: Option<usize>,
}

impl WalletSession {
    #[verifier::type_invariant]
    closed spec fn selection_is_valid(self) -> bool {
        match self.selected_wallet_index {
            Some(index) => index < self.wallet@.len(),
            None => self.wallet@.len() == 0,
        }
    }

    /// The wallets, in the order they were added.
    pub closed spec fn spec_wallets(self) -> Seq<NamedWallet> {
        self.wallet@
    }

    /// The index of the selected wallet, if any.
    pub closed spec fn spec_selection(self) -> Option<usize> {
        self.selected_wallet_index
    }

    pub fn new_empty() -> (session: Self)
        ensures
            session.spec_wallets() == Seq::<NamedWallet>::empty(),
            session.spec_selection() == None::<usize>,
    {
        WalletSession { wallet: Vec::new(), selected_wallet_index: None }
    }

    pub fn wallet_count(&self) -> (count: usize)
        ensures
            count == self.spec_wallets().len(),
    {
        self.wallet.len()
    }

    /// The selected index; it is present exactly when the session holds a
    /// wallet, and then it is in range.
    pub fn selected_wallet_index(&self) -> (index: Option<usize>)
        ensures
            index == self.spec_selection(),
            index is None <==> self.spec_wallets().len() == 0,
            index matches Some(i) ==> i < self.spec_wallets().len(),
    {
        proof {
            use_type_invariant(self);
        }
        self.selected_wallet_index
    }

    /// Appends a wallet; the first wallet added becomes the selected one, and
    /// an existing selection is kept.
    pub fn add_wallet(&mut self, wallet: NamedWallet)
        ensures
            final(self).spec_wallets() == old(self).spec_wallets().push(wallet),
            final(self).spec_selection() == match old(self).spec_selection() {
                Some(index) => Some(index),
                None => Some(0usize),
            },
    {
        proof {
            use_type_invariant(&*self);
        }
        let mut previous = WalletSession::new_empty();
        std::mem::swap(&mut previous, self);
        let WalletSession { wallet: mut wallets, selected_wallet_index } = previous;
        wallets.push(wallet);
        let selection = match selected_wallet_index {
            Some(index) => Some(index),
            None => Some(0),
        };
        *self = WalletSession { wallet: wallets, selected_wallet_index: selection };
    }

    /// Selects the wallet at `index`; an index out of range is refused and
    /// leaves the session as it was.
    pub fn select_wallet(&mut self, index: usize) -> (result: Result<(), WalletSessionError>)
        ensures
            result is Ok <==> index < old(self).spec_wallets().len(),
            result is Err ==> result == Err::<(), _>(WalletSessionError::WalletNotFound),
            final(self).spec_wallets() == old(self).spec_wallets(),
            final(self).spec_selection() == if index < old(self).spec_wallets().len() {
                Some(index)
            } else {
                old(self).spec_selection()
            },
    {
        if index < self.wallet.len() {
            self.selected_wallet_index = Some(index);
            Ok(())
        } else {
            Err(WalletSessionError::WalletNotFound)
        }
    }

    /// The selected wallet; there is one exactly when the session holds a wallet.
    pub fn selected_wallet(&self) -> (selected: Option<&NamedWallet>)
        ensures
            selected is None <==> self.spec_wallets().len() == 0,
            selected matches Some(w) ==> self.spec_selection() matches Some(i) && *w
                == self.spec_wallets()[i as int],
    {
        proof {
            use_type_invariant(self);
        }
        match self.selected_wallet_index {
            Some(index) => Some(&self.wallet[index]),
            None => None,
        }
    }

    pub fn wallets(&self) -> (wallets: &[NamedWallet])
        ensures
            wallets@ == self.spec_wallets(),
    {
        self.wallet.as_slice()
    }

    pub fn wallet_at(&self, index: usize) -> (wallet: Option<&NamedWallet>)
        ensures
            wallet is Some <==> index < self.spec_wallets().len(),
            wallet matches Some(w) ==> *w == self.spec_wallets()[index as int],
    {
        if index < self.wallet.len() {
            Some(&self.wallet[index])
        } else {
            None
        }
    }

    pub fn selected_public_address(&self) -> (address: Option<&SolanaPublicAddress>)
        ensures
            address is None <==> self.spec_wallets().len() == 0,
            address matches Some(a) ==> self.spec_selection() matches Some(i) && a@
                == self.spec_wallets()[i as int]@.keys.address,
    {
        match self.selected_wallet() {
            Some(wallet) => Some(wallet.public_address()),
            None => None,
        }
    }
}

impl Clone for WalletSession {
    fn clone(&self) -> (copy: Self)
        ensures
            copy.spec_wallets().len() == self.spec_wallets().len(),
            forall|i: int|
                0 <= i < self.spec_wallets().len() ==> #[trigger] copy.spec_wallets()[i]@
                    == self.spec_wallets()[i]@,
            copy.spec_selection() == self.spec_selection(),
    {
        proof {
            use_type_invariant(self);
        }
        WalletSession {
            wallet: self.wallet.clone(),
            selected_wallet_index: self.selected_wallet_index,
        }
    }
}

} // verus!
