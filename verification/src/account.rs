use vstd::prelude::*;

verus! {

/// One ledger account, as the runtime presents it to the instruction for
/// the duration of a single invocation: an address, a balance in the
/// smallest indivisible unit of native value, and the two per-transaction
/// flags the runtime derives from the enclosing message.
#[derive(Clone, Copy, Debug, PartialEq, Eq, Structural)]
pub struct Account {
    /// Stand-in for the ledger address. The runtime binding gives each
    /// distinct address a distinct number for the one invocation, so two
    /// `Account` values alias the same ledger entry exactly when their
    /// `id` fields are equal.
    pub id: u64,
    /// Balance in the smallest indivisible unit.
    pub balance: u64,
    /// Whether this account's authority signed the enclosing transaction.
    pub is_signer: bool,
    /// Whether the enclosing transaction marked this account mutable.
    pub is_writable: bool,
}

/// The two accounts the tip instruction touches: the tipper pays the
/// fixed amount, the recipient receives it. The recipient is accepted
/// opaquely: no ownership or type constraint is imposed on it.
#[derive(Clone, Copy, Debug, PartialEq, Eq, Structural)]
pub struct SendTip {
    pub tipper: Account,
    pub recipient: Account,
}

} // verus!
