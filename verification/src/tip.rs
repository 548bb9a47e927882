use vstd::prelude::*;

use crate::account::Account;
use crate::account::SendTip;

verus! {

/// The fixed tip, in the smallest indivisible unit of native value. It is
/// a compile-time constant by design: the instruction takes no
/// caller-supplied amount, so no caller can move anything else.
pub const TIP_AMOUNT: u64 = 200_000;

/// Why an invocation was rejected. Every failure is terminal for the
/// instruction; the runtime rolls the enclosing transaction back, so a
/// rejected invocation leaves both balances untouched.
#[derive(Clone, Copy, Debug, PartialEq, Eq, Structural)]
pub enum TransferError {
    /// The tipper did not sign the enclosing transaction.
    Unauthorized,
    /// The tipper or the recipient was not marked mutable.
    NotWritable,
    /// The tipper's balance is below the fixed amount.
    InsufficientFunds,
    /// The runtime's transfer primitive refused the operation for another
    /// reason; here, a deposit that would not fit in the recipient's
    /// balance field.
    TransferRejected,
}

/// The tipper authorized the call by signing the transaction.
pub open spec fn authorized(a: SendTip) -> bool {
    a.tipper.is_signer
}

/// Both balances are allowed to change in this transaction.
pub open spec fn writable(a: SendTip) -> bool {
    a.tipper.is_writable && a.recipient.is_writable
}

/// The tipper can cover the fixed amount.
pub open spec fn sufficient(a: SendTip) -> bool {
    a.tipper.balance >= TIP_AMOUNT
}

/// The two handles name the same ledger entry: the debit and the credit
/// land on one account and net to zero.
pub open spec fn self_transfer(a: SendTip) -> bool {
    a.tipper.id == a.recipient.id
}

/// The credited balance still fits in the recipient's balance field.
pub open spec fn deposit_fits(a: SendTip) -> bool {
    self_transfer(a) || a.recipient.balance + TIP_AMOUNT <= u64::MAX
}

/// Exactly the invocations the instruction accepts.
pub open spec fn transfer_allowed(a: SendTip) -> bool {
    authorized(a) && writable(a) && sufficient(a) && deposit_fits(a)
}

/// The two balances once the runtime has applied an accepted transfer:
/// the fixed amount leaves the tipper and reaches the recipient, and when
/// both handles name the same account the debit and the credit cancel.
/// Addresses and flags are not touched.
pub open spec fn transferred(a: SendTip) -> SendTip {
    if self_transfer(a) {
        a
    } else {
        SendTip {
            tipper: Account {
                id: a.tipper.id,
                balance: (a.tipper.balance - TIP_AMOUNT) as u64,
                is_signer: a.tipper.is_signer,
                is_writable: a.tipper.is_writable,
            },
            recipient: Account {
                id: a.recipient.id,
                balance: (a.recipient.balance + TIP_AMOUNT) as u64,
                is_signer: a.recipient.is_signer,
                is_writable: a.recipient.is_writable,
            },
        }
    }
}

/// The instruction's verdict on a snapshot of the two accounts: the
/// post-transfer state when the invocation is accepted, and otherwise the
/// first failure in the order the checks are made — authorization, then
/// writability, then funds, then the deposit itself.
pub open spec fn send_tip_spec(a: SendTip) -> Result<SendTip, TransferError> {
    if !authorized(a) {
        Err(TransferError::Unauthorized)
    } else if !writable(a) {
        Err(TransferError::NotWritable)
    } else if !sufficient(a) {
        Err(TransferError::InsufficientFunds)
    } else if !deposit_fits(a) {
        Err(TransferError::TransferRejected)
    } else {
        Ok(transferred(a))
    }
}

/// The transfer instruction handler. On an accepted invocation the two
/// balances become `transferred(*old(accounts))`; on a rejected one they
/// are exactly as before — either both mutations happen or neither does —
/// and the reported error says why, as `send_tip_spec` lays down.
pub fn send_tip(accounts: &mut SendTip) -> (r: Result<(), TransferError>)
    ensures
        r is Ok <==> transfer_allowed(*old(accounts)),
        r is Ok ==> *final(accounts) == transferred(*old(accounts)),
        r matches Err(e) ==> *final(accounts) == *old(accounts) && send_tip_spec(
            *old(accounts),
        ) == Err::<SendTip, TransferError>(e),
{
    if !accounts.tipper.is_signer {
        return Err(TransferError::Unauthorized);
    }
    if !(accounts.tipper.is_writable && accounts.recipient.is_writable) {
        return Err(TransferError::NotWritable);
    }
    if accounts.tipper.balance < TIP_AMOUNT {
        return Err(TransferError::InsufficientFunds);
    }
    if accounts.tipper.id == accounts.recipient.id {
        return Ok(());
    }
    if accounts.recipient.balance > u64::MAX - TIP_AMOUNT {
        return Err(TransferError::TransferRejected);
    }
    accounts.tipper.balance = accounts.tipper.balance - TIP_AMOUNT;
    accounts.recipient.balance = accounts.recipient.balance + TIP_AMOUNT;
    Ok(())
}

/// Conservation: whenever the tipper signed, both accounts are writable,
/// the tipper covers the fixed amount, the handles name distinct accounts
/// and the deposit fits, the invocation is accepted, exactly the fixed
/// amount moves, and the combined balance of the two accounts is
/// unchanged.
pub proof fn lemma_conservation(a: SendTip)
    requires
        authorized(a),
        writable(a),
        sufficient(a),
        !self_transfer(a),
        deposit_fits(a),
    ensures
        ({
            &&& send_tip_spec(a) matches Ok(b)
            &&& b.tipper.balance == a.tipper.balance - TIP_AMOUNT
            &&& b.recipient.balance == a.recipient.balance + TIP_AMOUNT
            &&& b.tipper.balance + b.recipient.balance == a.tipper.balance + a.recipient.balance
        }),
{
}

/// Authorization: an invocation whose tipper did not sign the transaction
/// is rejected as `Unauthorized`, whatever else holds of the accounts.
/// That no rejection changes a balance is part of `send_tip`'s contract.
pub proof fn lemma_unauthorized(a: SendTip)
    requires
        !authorized(a),
    ensures
        send_tip_spec(a) == Err::<SendTip, TransferError>(TransferError::Unauthorized),
{
}

/// Writability: a signed invocation in which either account is not marked
/// mutable is rejected as `NotWritable`, before any balance question is
/// asked.
pub proof fn lemma_not_writable(a: SendTip)
    requires
        authorized(a),
        !writable(a),
    ensures
        send_tip_spec(a) == Err::<SendTip, TransferError>(TransferError::NotWritable),
{
}

/// Insufficiency: a signed, writable invocation whose tipper holds less
/// than the fixed amount is rejected as `InsufficientFunds`. No partial
/// debit exists: by `send_tip`'s contract a rejection leaves both
/// balances as they were.
pub proof fn lemma_insufficient_funds(a: SendTip)
    requires
        authorized(a),
        writable(a),
        !sufficient(a),
    ensures
        send_tip_spec(a) == Err::<SendTip, TransferError>(TransferError::InsufficientFunds),
{
}

/// Fixed amount under repetition: two consecutive accepted invocations on
/// distinct accounts each move exactly the fixed amount — after both, the
/// tipper is down twice the fixed amount and the recipient up by the
/// same. No caller input can make any single invocation move anything
/// else, since the amount is a constant of the instruction.
pub proof fn lemma_repeated_transfers(a: SendTip)
    requires
        authorized(a),
        writable(a),
        !self_transfer(a),
        a.tipper.balance >= 2 * TIP_AMOUNT,
        a.recipient.balance + 2 * TIP_AMOUNT <= u64::MAX,
    ensures
        ({
            &&& send_tip_spec(a) matches Ok(b)
            &&& send_tip_spec(b) matches Ok(c)
            &&& c.tipper.balance == a.tipper.balance - 2 * TIP_AMOUNT
            &&& c.recipient.balance == a.recipient.balance + 2 * TIP_AMOUNT
        }),
{
}

/// Degenerate self-transfer: when both handles name the same ledger entry
/// and the invocation is otherwise acceptable, it is accepted and the
/// state is exactly as before — the debit and the credit of the one
/// account net to zero, so conservation holds here too.
pub proof fn lemma_self_transfer(a: SendTip)
    requires
        authorized(a),
        writable(a),
        sufficient(a),
        self_transfer(a),
    ensures
        send_tip_spec(a) == Ok::<SendTip, TransferError>(a),
{
}

} // verus!
