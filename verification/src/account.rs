//! Account identities and authorization evidence.

use vstd::prelude::*;

verus! {

/// An opaque account identity: a ledger key with no structure beyond equality.
///
/// The hosting environment owns the real identity format; the engine only ever
/// compares accounts and uses them as lookup keys, so a numeric handle chosen
/// by the host shell is all that is kept here.
#[derive(Clone, Copy, PartialEq, Eq, Structural, Hash, Debug)]
pub struct Account {
    pub id: u64,
}

impl Account {
    pub fn new(id: u64) -> (a: Account)
        ensures
            a.id == id,
    {
        Account { id }
    }
}

/// Host-verified evidence that the current call was sanctioned by `account`.
///
/// The hosting environment proves who sanctioned a call; the engine never
/// infers authorization from data alone. A shell around the engine constructs
/// one `AuthProof` per verified identity and hands it to the gated operations,
/// which compare it against the identity they require.
#[derive(Clone, Copy, PartialEq, Eq, Structural, Debug)]
pub struct AuthProof {
    pub account: Account,
}

impl AuthProof {
    /// Issue authorization evidence for `account`.
    pub fn for_account(account: Account) -> (p: AuthProof)
        ensures
            p.account == account,
    {
        AuthProof { account }
    }

    /// Whether this proof sanctions acting as `account`.
    pub fn authorizes(&self, account: Account) -> (b: bool)
        ensures
            b == (self.account == account),
    {
        self.account == account
    }
}

} // verus!
