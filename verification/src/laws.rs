//! What holds of the ledger whatever is asked of it. Each law is stated over
//! the same descriptions that the contracts of the operations use.
use crate::bank::{
    affordable, balance_after, entry_refusal, gate_refusal, BalanceStep, OpenBankView,
};
use crate::error::LedgerError;
use crate::ob_io::{
    status_name, status_named, PaymentView, RequestDebitStatus, RequestDebitView,
};
use crate::operations::{
    approval_refusal, cancellation_refusal, drawdown_refusal, outgoing_refusal,
};
use crate::registry::index_consistent;
use crate::status_index::index_with;
use vstd::prelude::*;

verus! {

/// The balance after a sequence of steps.
pub open spec fn balance_after_all(balance: int, steps: Seq<BalanceStep>) -> int
    decreases steps.len(),
{
    if steps.len() == 0 {
        balance
    } else {
        balance_after(balance_after_all(balance, steps.drop_last()), steps.last())
    }
}

/// Whatever increases and decreases are asked for and in whatever order, the
/// balance never goes below zero, never exceeds what the ledger can hold,
/// and, once above zero, never comes back to zero.
pub proof fn law_balance_never_negative(balance: u128, steps: Seq<BalanceStep>)
    ensures
        0 <= balance_after_all(balance as int, steps) <= u128::MAX,
        balance > 0 ==> balance_after_all(balance as int, steps) > 0,
    decreases steps.len(),
{
    if steps.len() > 0 {
        law_balance_never_negative(balance, steps.drop_last());
    }
}

/// A decrease by the whole balance or more is refused for want of funds, by
/// every operation that sends funds out, once the caller is past the door.
pub proof fn law_decrease_refused(
    bank: OpenBankView,
    caller: Seq<char>,
    nonce: u64,
    gate: Result<bool, LedgerError>,
    amount: u128,
)
    requires
        amount >= bank.bank_balance,
    ensures
        !affordable(bank.bank_balance, amount),
        balance_after(bank.bank_balance as int, BalanceStep::Decrease(amount))
            == bank.bank_balance,
        entry_refusal(bank, caller, nonce, gate) is None ==> outgoing_refusal(
            bank,
            caller,
            nonce,
            gate,
            amount as nat,
        ) == Some(LedgerError::InsufficientFunds),
{
}

/// Once a caller has used a nonce, the same caller is turned away with the
/// same nonce whatever the role authority says, while for every other caller
/// nothing has changed: one who has not used that nonce may still use it.
pub proof fn law_nonce_used_once(
    before: OpenBankView,
    after: OpenBankView,
    caller: Seq<char>,
    other: Seq<char>,
    nonce: u64,
    gate: Result<bool, LedgerError>,
)
    requires
        after.used_nonces == before.used_nonces.insert((caller, nonce)),
        other != caller,
    ensures
        entry_refusal(after, caller, nonce, gate) == Some(LedgerError::ReplayedNonce),
        after.used_nonces.contains((other, nonce)) == before.used_nonces.contains((other, nonce)),
        !before.used_nonces.contains((other, nonce)) ==> entry_refusal(after, other, nonce, gate)
            == gate_refusal(gate),
{
}

/// The later of two times.
pub open spec fn later(a: i64, b: i64) -> i64 {
    if a >= b {
        a
    } else {
        b
    }
}

/// For a caller who is past the door and a request debit that is known:
/// approval goes through from pending and from no other status; cancellation
/// goes through from every status; a drawdown goes through only from
/// approved, only between start date and end date, and only when the payout
/// interval has passed since the later of start date and last drawdown; with
/// all of that, it goes through if the balance can give the amount.
///
/// The last part is stated for request debits of which the two dates can be
/// compared in this way: one that has been drawn on was last drawn on at or
/// after its start date, and one that has not starts at or after time zero,
/// where the mark for "never drawn on" stands.
pub proof fn law_transition_legality(
    bank: OpenBankView,
    caller: Seq<char>,
    nonce: u64,
    gate: Result<bool, LedgerError>,
    reference: u64,
    now: i64,
)
    requires
        entry_refusal(bank, caller, nonce, gate) is None,
        bank.request_debits.contains_key(reference),
        bank.request_debits[reference].last_paid != 0 ==> bank.request_debits[reference].last_paid
            >= bank.request_debits[reference].start_date,
        bank.request_debits[reference].last_paid == 0 ==> bank.request_debits[reference].start_date
            >= 0,
    ensures
        approval_refusal(bank, caller, nonce, gate, reference) is None
            <==> bank.request_debits[reference].status == RequestDebitStatus::Pending,
        bank.request_debits[reference].status != RequestDebitStatus::Pending ==> approval_refusal(
            bank,
            caller,
            nonce,
            gate,
            reference,
        ) == Some(LedgerError::InvalidState),
        cancellation_refusal(bank, caller, nonce, gate, reference) is None,
        drawdown_refusal(bank, caller, nonce, gate, reference, now) is None <==> {
            let rd = bank.request_debits[reference];
            &&& rd.status == RequestDebitStatus::Approved
            &&& rd.start_date <= now <= rd.end_date
            &&& now - later(rd.start_date, rd.last_paid) >= rd.payout_interval
            &&& affordable(bank.bank_balance, rd.amount)
        },
        bank.request_debits[reference].status != RequestDebitStatus::Approved ==> drawdown_refusal(
            bank,
            caller,
            nonce,
            gate,
            reference,
            now,
        ) == Some(LedgerError::InvalidState),
{
}

/// A payment that has just been written is what its reference leads to, and
/// it stays so while payments with other references are written.
pub proof fn law_payment_round_trip(
    before: Map<u64, PaymentView>,
    payment: PaymentView,
    next: PaymentView,
)
    ensures
        before.insert(payment.reference, payment).contains_key(payment.reference),
        before.insert(payment.reference, payment)[payment.reference] == payment,
        next.reference != payment.reference ==> before.insert(payment.reference, payment).insert(
            next.reference,
            next,
        )[payment.reference] == payment,
{
}

/// When a request debit is filed under a status, by registration or by any
/// transition, it stands in the bucket of that status and in no other, the
/// old one included; and the index still says what the request debits say.
pub proof fn law_one_bucket(
    debits: Map<u64, RequestDebitView>,
    index: Map<RequestDebitStatus, Set<u64>>,
    moved: RequestDebitView,
    to: RequestDebitStatus,
)
    requires
        index_consistent(debits, index),
    ensures
        index_with(index, moved.reference, to).contains_key(to),
        forall|status: RequestDebitStatus|
            index_with(index, moved.reference, to).contains_key(status) ==> (#[trigger] index_with(
                index,
                moved.reference,
                to,
            )[status].contains(moved.reference) <==> status == to),
        forall|status: RequestDebitStatus|
            index.contains_key(status) ==> #[trigger] index_with(
                index,
                moved.reference,
                to,
            ).contains_key(status),
        index_consistent(
            debits.insert(moved.reference, RequestDebitView { status: to, ..moved }),
            index_with(index, moved.reference, to),
        ),
{
}

/// The names of the statuses differ from one another, so that each status
/// is found again by its name.
pub proof fn law_status_names(a: RequestDebitStatus, b: RequestDebitStatus)
    ensures
        status_name(a) == status_name(b) ==> a == b,
        status_named(status_name(a)) == Some(a),
{
    reveal_strlit("PENDING");
    reveal_strlit("APPROVED");
    reveal_strlit("CANCELLED");
    assert(status_name(RequestDebitStatus::Pending).len() == 7);
    assert(status_name(RequestDebitStatus::Approved).len() == 8);
    assert(status_name(RequestDebitStatus::Cancelled).len() == 9);
}

} // verus!
