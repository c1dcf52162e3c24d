//! The operations that callers ask of the ledger. Each one first turns away
//! a replayed nonce, then asks the authorization gate, then checks what it
//! has to check, and only then changes the ledger: an operation that is
//! refused leaves the ledger as it was.
//!
//! An operation that sends funds out takes them off the balance and hands
//! back the transfer for the host to carry out. What the transfer came to is
//! then written down by [`OpenBank::pay_to`].
use crate::bank::{
    affordable, entry_refusal, gate_of, gate_refusal, nominee_gate_of, timing_refusal, total,
    OpenBank, OpenBankView,
};
use crate::error::LedgerError;
use crate::host::{CallContext, PromiseOutcome, SecurityMode, TransferOrder, TransferOrderView};
use crate::ob_io::{
    payment_at, request_debit_at, MultiPaymentRequest, Payment, RequestDebit, RequestDebitStatus,
    RequestDebitView,
};
use crate::registry::lemma_refile_same;
use crate::settlement::{read_settlement_status, settlement_status};
use crate::status_index::index_with;
use vstd::prelude::*;

verus! {

/// Why funds that come in are refused, if they are.
pub open spec fn incoming_refusal(
    bank: OpenBankView,
    caller: Seq<char>,
    nonce: u64,
    gate: Result<bool, LedgerError>,
    attached: u128,
    amount: u128,
) -> Option<LedgerError> {
    if entry_refusal(bank, caller, nonce, gate) is Some {
        entry_refusal(bank, caller, nonce, gate)
    } else if attached != amount {
        Some(LedgerError::AmountMismatch)
    } else if bank.bank_balance + amount > u128::MAX {
        Some(LedgerError::Overflow)
    } else {
        None
    }
}

/// Why funds are not sent out, if they are not.
pub open spec fn outgoing_refusal(
    bank: OpenBankView,
    caller: Seq<char>,
    nonce: u64,
    gate: Result<bool, LedgerError>,
    amount: nat,
) -> Option<LedgerError> {
    if entry_refusal(bank, caller, nonce, gate) is Some {
        entry_refusal(bank, caller, nonce, gate)
    } else if amount >= bank.bank_balance {
        Some(LedgerError::InsufficientFunds)
    } else {
        None
    }
}

/// Why a request debit is not drawn on, if it is not.
pub open spec fn drawdown_refusal(
    bank: OpenBankView,
    caller: Seq<char>,
    nonce: u64,
    gate: Result<bool, LedgerError>,
    reference: u64,
    now: i64,
) -> Option<LedgerError> {
    if entry_refusal(bank, caller, nonce, gate) is Some {
        entry_refusal(bank, caller, nonce, gate)
    } else if !bank.request_debits.contains_key(reference) {
        Some(LedgerError::NotFound)
    } else if bank.request_debits[reference].status != RequestDebitStatus::Approved {
        Some(LedgerError::InvalidState)
    } else if timing_refusal(bank.request_debits[reference], now) is Some {
        timing_refusal(bank.request_debits[reference], now)
    } else if !affordable(bank.bank_balance, bank.request_debits[reference].amount) {
        Some(LedgerError::InsufficientFunds)
    } else {
        None
    }
}

/// Why a request debit is not approved, if it is not.
pub open spec fn approval_refusal(
    bank: OpenBankView,
    caller: Seq<char>,
    nonce: u64,
    gate: Result<bool, LedgerError>,
    reference: u64,
) -> Option<LedgerError> {
    if entry_refusal(bank, caller, nonce, gate) is Some {
        entry_refusal(bank, caller, nonce, gate)
    } else if !bank.request_debits.contains_key(reference) {
        Some(LedgerError::NotFound)
    } else if bank.request_debits[reference].status != RequestDebitStatus::Pending {
        Some(LedgerError::InvalidState)
    } else {
        None
    }
}

/// Why a request debit is not cancelled, if it is not.
pub open spec fn cancellation_refusal(
    bank: OpenBankView,
    caller: Seq<char>,
    nonce: u64,
    gate: Result<bool, LedgerError>,
    reference: u64,
) -> Option<LedgerError> {
    if entry_refusal(bank, caller, nonce, gate) is Some {
        entry_refusal(bank, caller, nonce, gate)
    } else if !bank.request_debits.contains_key(reference) {
        Some(LedgerError::NotFound)
    } else {
        None
    }
}

/// The transfer that is ordered for one line of a payout to several payees.
pub open spec fn multi_order(request: MultiPaymentRequest, caller: Seq<char>) -> TransferOrderView {
    TransferOrderView {
        payee: request.payee_account_id@,
        signer: caller,
        amount: request.payout_amount,
        description: request.description@,
        payment_type: "PAY_OUT_MULTI"@,
    }
}

impl OpenBank {
    /// Turns a call away at the door: for a replayed nonce first, then for
    /// what the authorization gate decided.
    fn enter(&self, caller: &String, nonce: u64, gate: Result<bool, LedgerError>) -> (outcome:
        Result<(), LedgerError>)
        requires
            self.wf(),
        ensures
            outcome == match entry_refusal(self@, caller@, nonce, gate) {
                Some(e) => Err::<(), LedgerError>(e),
                None => Ok::<(), LedgerError>(()),
            },
    {
        if self.has_used_nonce(caller, nonce) {
            return Err(LedgerError::ReplayedNonce);
        }
        let security_response = gate?;
        self.require(security_response, LedgerError::Unauthorized)?;
        Ok(())
    }

    /// What the authorization gate decides where the nominee needs no
    /// permission.
    fn nominee_gate(&self, call: &CallContext) -> (verdict: Result<bool, LedgerError>)
        ensures
            verdict == nominee_gate_of(self@, call.signer_account_id@, call.role_response@),
    {
        if call.signer_account_id == self.view_nominee_account_id() {
            Ok(true)
        } else {
            self.is_secure(SecurityMode::Allowed, &call.role_response)
        }
    }

    /// The balance, for those who are allowed to see it.
    pub fn view_balance(&self, call: &CallContext) -> (balance: Result<u128, LedgerError>)
        ensures
            balance == match gate_refusal(
                gate_of(self@, SecurityMode::Allowed, call.role_response@),
            ) {
                Some(e) => Err::<u128, LedgerError>(e),
                None => Ok::<u128, LedgerError>(self@.bank_balance),
            },
    {
        let security_response = self.is_secure(SecurityMode::Allowed, &call.role_response)?;
        self.require(security_response, LedgerError::Unauthorized)?;
        Ok(self.balance())
    }

    /// The two codes by which the role authority answers, the affirmative one
    /// first, for those who are allowed to see them.
    pub fn check_secure_codes(&self, call: &CallContext) -> (codes: Result<(i32, i32), LedgerError>)
        ensures
            codes == match gate_refusal(
                gate_of(self@, SecurityMode::Allowed, call.role_response@),
            ) {
                Some(e) => Err::<(i32, i32), LedgerError>(e),
                None => Ok::<(i32, i32), LedgerError>(
                    (self@.affirmative_code, self@.negative_code),
                ),
            },
    {
        let security_response = self.is_secure(SecurityMode::Allowed, &call.role_response)?;
        self.require(security_response, LedgerError::Unauthorized)?;
        Ok(self.codes())
    }

    /// Takes in the funds that came with the call, from those who are
    /// allowed to pay in. The funds must be exactly the amount stated. The
    /// balance grows by the amount and a payment of type `PAY_IN` is written,
    /// from the caller to the ledger, as `COMPLETED`.
    pub fn pay_in(
        &mut self,
        call: &CallContext,
        payment_description: String,
        payment_amount: u128,
        nonce: u64,
    ) -> (outcome: Result<Payment, LedgerError>)
        requires
            old(self).wf(),
        ensures
            final(self).wf(),
            match incoming_refusal(
                old(self)@,
                call.signer_account_id@,
                nonce,
                gate_of(old(self)@, SecurityMode::Allowed, call.role_response@),
                call.attached_deposit,
                payment_amount,
            ) {
                Some(e) => outcome == Err::<Payment, LedgerError>(e) && final(self)@ == old(self)@,
                None => {
                    &&& outcome matches Ok(payment)
                    &&& payment@ == payment_at(
                        old(self)@.bank_deployed_account_id,
                        call.signer_account_id@,
                        call.signer_account_id@,
                        payment_amount,
                        payment_description@,
                        "PAY_IN"@,
                        "COMPLETED"@,
                        payment.payment_time,
                    )
                    &&& final(self)@ == (OpenBankView {
                        bank_balance: (old(self)@.bank_balance + payment_amount) as u128,
                        used_nonces: old(self)@.used_nonces.insert(
                            (call.signer_account_id@, nonce),
                        ),
                        payments: old(self)@.payments.insert(payment@),
                        payments_by_reference: old(self)@.payments_by_reference.insert(
                            payment.reference,
                            payment@,
                        ),
                        ..old(self)@
                    })
                },
            },
    {
        let gate = self.is_secure(SecurityMode::Allowed, &call.role_response);
        self.take_in(
            call,
            gate,
            call.signer_account_id.clone(),
            payment_description,
            payment_amount,
            nonce,
            String::from_str("PAY_IN"),
        )
    }

    /// Takes in the funds that came with the call as a deposit. The nominee
    /// may always deposit; anyone else must be allowed to. In all else a
    /// deposit is a pay-in, written as a payment of type `DEPOSIT` from the
    /// account under which the ledger runs.
    pub fn deposit(
        &mut self,
        call: &CallContext,
        description: String,
        amount: u128,
        nonce: u64,
    ) -> (outcome: Result<Payment, LedgerError>)
        requires
            old(self).wf(),
        ensures
            final(self).wf(),
            match incoming_refusal(
                old(self)@,
                call.signer_account_id@,
                nonce,
                nominee_gate_of(old(self)@, call.signer_account_id@, call.role_response@),
                call.attached_deposit,
                amount,
            ) {
                Some(e) => outcome == Err::<Payment, LedgerError>(e) && final(self)@ == old(self)@,
                None => {
                    &&& outcome matches Ok(payment)
                    &&& payment@ == payment_at(
                        old(self)@.bank_deployed_account_id,
                        call.current_account_id@,
                        call.signer_account_id@,
                        amount,
                        description@,
                        "DEPOSIT"@,
                        "COMPLETED"@,
                        payment.payment_time,
                    )
                    &&& final(self)@ == (OpenBankView {
                        bank_balance: (old(self)@.bank_balance + amount) as u128,
                        used_nonces: old(self)@.used_nonces.insert(
                            (call.signer_account_id@, nonce),
                        ),
                        payments: old(self)@.payments.insert(payment@),
                        payments_by_reference: old(self)@.payments_by_reference.insert(
                            payment.reference,
                            payment@,
                        ),
                        ..old(self)@
                    })
                },
            },
    {
        let gate = self.nominee_gate(call);
        self.take_in(
            call,
            gate,
            call.current_account_id.clone(),
            description,
            amount,
            nonce,
            String::from_str("DEPOSIT"),
        )
    }

    /// What a pay-in and a deposit have in common.
    fn take_in(
        &mut self,
        call: &CallContext,
        gate: Result<bool, LedgerError>,
        payer: String,
        description: String,
        amount: u128,
        nonce: u64,
        payment_type: String,
    ) -> (outcome: Result<Payment, LedgerError>)
        requires
            old(self).wf(),
        ensures
            final(self).wf(),
            match incoming_refusal(
                old(self)@,
                call.signer_account_id@,
                nonce,
                gate,
                call.attached_deposit,
                amount,
            ) {
                Some(e) => outcome == Err::<Payment, LedgerError>(e) && final(self)@ == old(self)@,
                None => {
                    &&& outcome matches Ok(payment)
                    &&& payment@ == payment_at(
                        old(self)@.bank_deployed_account_id,
                        payer@,
                        call.signer_account_id@,
                        amount,
                        description@,
                        payment_type@,
                        "COMPLETED"@,
                        payment.payment_time,
                    )
                    &&& final(self)@ == (OpenBankView {
                        bank_balance: (old(self)@.bank_balance + amount) as u128,
                        used_nonces: old(self)@.used_nonces.insert(
                            (call.signer_account_id@, nonce),
                        ),
                        payments: old(self)@.payments.insert(payment@),
                        payments_by_reference: old(self)@.payments_by_reference.insert(
                            payment.reference,
                            payment@,
                        ),
                        ..old(self)@
                    })
                },
            },
    {
        self.enter(&call.signer_account_id, nonce, gate)?;
        self.check_attachment_vs_stated_amount(call.attached_deposit, amount)?;
        if self.balance().checked_add(amount).is_none() {
            return Err(LedgerError::Overflow);
        }
        let _ = self.check_nonce(&call.signer_account_id, nonce);
        let _ = self.increment_bank_balance(amount);
        let payment = self.create_and_register_payment(
            self.get_bank_deployed_account_id(),
            payer,
            call.signer_account_id.clone(),
            amount,
            description,
            String::from_str("COMPLETED"),
            payment_type,
        );
        Ok(payment)
    }

    /// What the operations that send funds out have in common: the door, the
    /// balance, and the order for the transfer.
    fn send_out(
        &mut self,
        call: &CallContext,
        gate: Result<bool, LedgerError>,
        payee: String,
        description: String,
        amount: u128,
        nonce: u64,
        payment_type: String,
    ) -> (outcome: Result<TransferOrder, LedgerError>)
        requires
            old(self).wf(),
        ensures
            final(self).wf(),
            match outgoing_refusal(
                old(self)@,
                call.signer_account_id@,
                nonce,
                gate,
                amount as nat,
            ) {
                Some(e) => outcome == Err::<TransferOrder, LedgerError>(e) && final(self)@ == old(
                    self,
                )@,
                None => {
                    &&& outcome matches Ok(order)
                    &&& order@ == (TransferOrderView {
                        payee: payee@,
                        signer: call.signer_account_id@,
                        amount,
                        description: description@,
                        payment_type: payment_type@,
                    })
                    &&& final(self)@ == (OpenBankView {
                        bank_balance: (old(self)@.bank_balance - amount) as u128,
                        used_nonces: old(self)@.used_nonces.insert(
                            (call.signer_account_id@, nonce),
                        ),
                        ..old(self)@
                    })
                },
            },
    {
        self.enter(&call.signer_account_id, nonce, gate)?;
        self.check_bank_balance(amount)?;
        let _ = self.check_nonce(&call.signer_account_id, nonce);
        let _ = self.decrement_bank_balance(amount);
        Ok(
            TransferOrder {
                payee,
                signer: call.signer_account_id.clone(),
                amount,
                description,
                payment_type,
            },
        )
    }

    /// Sends funds to an account, for those who are allowed to pay out. The
    /// balance must be greater than the amount. The amount leaves the balance
    /// and the transfer is ordered under the type `PAY_OUT`.
    pub fn pay_out(
        &mut self,
        call: &CallContext,
        description: String,
        amount: u128,
        account_id: String,
        nonce: u64,
    ) -> (outcome: Result<TransferOrder, LedgerError>)
        requires
            old(self).wf(),
        ensures
            final(self).wf(),
            match outgoing_refusal(
                old(self)@,
                call.signer_account_id@,
                nonce,
                gate_of(old(self)@, SecurityMode::Allowed, call.role_response@),
                amount as nat,
            ) {
                Some(e) => outcome == Err::<TransferOrder, LedgerError>(e) && final(self)@ == old(
                    self,
                )@,
                None => {
                    &&& outcome matches Ok(order)
                    &&& order@ == (TransferOrderView {
                        payee: account_id@,
                        signer: call.signer_account_id@,
                        amount,
                        description: description@,
                        payment_type: "PAY_OUT"@,
                    })
                    &&& final(self)@ == (OpenBankView {
                        bank_balance: (old(self)@.bank_balance - amount) as u128,
                        used_nonces: old(self)@.used_nonces.insert(
                            (call.signer_account_id@, nonce),
                        ),
                        ..old(self)@
                    })
                },
            },
    {
        let gate = self.is_secure(SecurityMode::Allowed, &call.role_response);
        self.send_out(
            call,
            gate,
            account_id,
            description,
            amount,
            nonce,
            String::from_str("PAY_OUT"),
        )
    }

    /// Sends funds to the nominee, whoever calls. The nominee may always
    /// withdraw; anyone else must be allowed to. The balance must be greater
    /// than the amount. The amount leaves the balance and the transfer is
    /// ordered under the type `WITHDRAWAL`.
    pub fn withdraw(
        &mut self,
        call: &CallContext,
        description: String,
        amount: u128,
        nonce: u64,
    ) -> (outcome: Result<TransferOrder, LedgerError>)
        requires
            old(self).wf(),
        ensures
            final(self).wf(),
            match outgoing_refusal(
                old(self)@,
                call.signer_account_id@,
                nonce,
                nominee_gate_of(old(self)@, call.signer_account_id@, call.role_response@),
                amount as nat,
            ) {
                Some(e) => outcome == Err::<TransferOrder, LedgerError>(e) && final(self)@ == old(
                    self,
                )@,
                None => {
                    &&& outcome matches Ok(order)
                    &&& order@ == (TransferOrderView {
                        payee: old(self)@.nominee_account_id,
                        signer: call.signer_account_id@,
                        amount,
                        description: description@,
                        payment_type: "WITHDRAWAL"@,
                    })
                    &&& final(self)@ == (OpenBankView {
                        bank_balance: (old(self)@.bank_balance - amount) as u128,
                        used_nonces: old(self)@.used_nonces.insert(
                            (call.signer_account_id@, nonce),
                        ),
                        ..old(self)@
                    })
                },
            },
    {
        let gate = self.nominee_gate(call);
        let nominee = self.view_nominee_account_id();
        self.send_out(
            call,
            gate,
            nominee,
            description,
            amount,
            nonce,
            String::from_str("WITHDRAWAL"),
        )
    }

    /// Sends funds to several payees at once, for those who are allowed to.
    /// The balance must be greater than the sum of the amounts, which is
    /// checked once. The sum leaves the balance, and one transfer is ordered
    /// for each line, in the order of the lines, under the type
    /// `PAY_OUT_MULTI`. Each transfer is then settled on its own: one that
    /// fails does not undo the others.
    pub fn pay_out_multi(
        &mut self,
        call: &CallContext,
        multi_payment_requests: Vec<MultiPaymentRequest>,
        nonce: u64,
    ) -> (outcome: Result<Vec<TransferOrder>, LedgerError>)
        requires
            old(self).wf(),
        ensures
            final(self).wf(),
            match outgoing_refusal(
                old(self)@,
                call.signer_account_id@,
                nonce,
                gate_of(old(self)@, SecurityMode::Allowed, call.role_response@),
                total(multi_payment_requests@),
            ) {
                Some(e) => outcome == Err::<Vec<TransferOrder>, LedgerError>(e) && final(self)@
                    == old(self)@,
                None => {
                    &&& outcome matches Ok(orders)
                    &&& orders@.len() == multi_payment_requests@.len()
                    &&& forall|i: int|
                        0 <= i < orders@.len() ==> (#[trigger] orders@[i])@ == multi_order(
                            multi_payment_requests@[i],
                            call.signer_account_id@,
                        )
                    &&& final(self)@ == (OpenBankView {
                        bank_balance: (old(self)@.bank_balance - total(
                            multi_payment_requests@,
                        )) as u128,
                        used_nonces: old(self)@.used_nonces.insert(
                            (call.signer_account_id@, nonce),
                        ),
                        ..old(self)@
                    })
                },
            },
    {
        let gate = self.is_secure(SecurityMode::Allowed, &call.role_response);
        self.enter(&call.signer_account_id, nonce, gate)?;
        let sum = match OpenBank::get_total(&multi_payment_requests) {
            Some(sum) => sum,
            None => {
                return Err(LedgerError::InsufficientFunds);
            },
        };
        self.check_bank_balance(sum)?;
        let _ = self.check_nonce(&call.signer_account_id, nonce);
        let _ = self.decrement_bank_balance(sum);
        let mut orders: Vec<TransferOrder> = Vec::new();
        let mut i: usize = 0;
        while i < multi_payment_requests.len()
            invariant
                i <= multi_payment_requests@.len(),
                orders@.len() == i,
                forall|k: int|
                    0 <= k < i ==> (#[trigger] orders@[k])@ == multi_order(
                        multi_payment_requests@[k],
                        call.signer_account_id@,
                    ),
            decreases multi_payment_requests@.len() - i,
        {
            let mpr = &multi_payment_requests[i];
            orders.push(
                TransferOrder {
                    payee: mpr.payee_account_id.clone(),
                    signer: call.signer_account_id.clone(),
                    amount: mpr.payout_amount,
                    description: mpr.description.clone(),
                    payment_type: String::from_str("PAY_OUT_MULTI"),
                },
            );
            i += 1;
        }
        Ok(orders)
    }

    /// Writes down what a transfer came to. The payment goes from the ledger
    /// to the payee of the order, with the result code of the transfer as its
    /// status, whatever the code says. A transfer that gave no result code is
    /// a failure of the settlement, and nothing is written.
    pub fn pay_to(&mut self, order: TransferOrder, settlement: &Vec<PromiseOutcome>) -> (outcome:
        Result<Payment, LedgerError>)
        requires
            old(self).wf(),
        ensures
            final(self).wf(),
            match settlement_status(settlement@) {
                None => outcome == Err::<Payment, LedgerError>(LedgerError::SettlementFailure)
                    && final(self)@ == old(self)@,
                Some(status) => {
                    &&& outcome matches Ok(payment)
                    &&& payment@ == payment_at(
                        order.payee@,
                        old(self)@.bank_deployed_account_id,
                        order.signer@,
                        order.amount,
                        order.description@,
                        order.payment_type@,
                        status,
                        payment.payment_time,
                    )
                    &&& final(self)@ == (OpenBankView {
                        payments: old(self)@.payments.insert(payment@),
                        payments_by_reference: old(self)@.payments_by_reference.insert(
                            payment.reference,
                            payment@,
                        ),
                        ..old(self)@
                    })
                },
            },
    {
        let status = match read_settlement_status(settlement) {
            Some(status) => status,
            None => {
                return Err(LedgerError::SettlementFailure);
            },
        };
        let payment = self.create_and_register_payment(
            order.payee,
            self.get_bank_deployed_account_id(),
            order.signer,
            order.amount,
            order.description,
            status,
            order.payment_type,
        );
        Ok(payment)
    }

    /// Registers a request debit in the caller's name, for everyone who is
    /// not barred. It starts as pending, is kept under its reference and
    /// filed under its status, and the reference is returned. Neither the
    /// dates nor the interval are examined.
    pub fn register_request_debit(
        &mut self,
        call: &CallContext,
        payee: String,
        description: String,
        amount: u128,
        payout_interval: i64,
        start_date: i64,
        end_date: i64,
        nonce: u64,
    ) -> (outcome: Result<u64, LedgerError>)
        requires
            old(self).wf(),
        ensures
            final(self).wf(),
            match entry_refusal(
                old(self)@,
                call.signer_account_id@,
                nonce,
                gate_of(old(self)@, SecurityMode::Barred, call.role_response@),
            ) {
                Some(e) => outcome == Err::<u64, LedgerError>(e) && final(self)@ == old(self)@,
                None => {
                    &&& outcome matches Ok(reference)
                    &&& final(self)@.request_debits.contains_key(reference)
                    &&& final(self)@.request_debits[reference] == request_debit_at(
                        payee@,
                        amount,
                        description@,
                        payout_interval,
                        start_date,
                        end_date,
                        call.signer_account_id@,
                        final(self)@.request_debits[reference].creation_date,
                    )
                    &&& final(self)@.request_debits[reference].reference == reference
                    &&& final(self)@ == (OpenBankView {
                        used_nonces: old(self)@.used_nonces.insert(
                            (call.signer_account_id@, nonce),
                        ),
                        request_debits: old(self)@.request_debits.insert(
                            reference,
                            final(self)@.request_debits[reference],
                        ),
                        request_debits_by_status: index_with(
                            old(self)@.request_debits_by_status,
                            reference,
                            RequestDebitStatus::Pending,
                        ),
                        ..old(self)@
                    })
                },
            },
    {
        let gate = self.is_secure(SecurityMode::Barred, &call.role_response);
        self.enter(&call.signer_account_id, nonce, gate)?;
        let _ = self.check_nonce(&call.signer_account_id, nonce);
        let request_debit = RequestDebit::create_request_debit(
            payee,
            amount,
            description,
            payout_interval,
            start_date,
            end_date,
            call.signer_account_id.clone(),
        );
        let rd_reference = request_debit.reference;
        self.put_request_debit(request_debit);
        Ok(rd_reference)
    }

    /// Approves a pending request debit in the caller's name, for those who
    /// are allowed to. The request debit becomes approved, with the caller as
    /// the one who approved it, and moves to the bucket of the approved.
    pub fn approve_request_debit(
        &mut self,
        call: &CallContext,
        request_debit_ref: u64,
        nonce: u64,
    ) -> (outcome: Result<u64, LedgerError>)
        requires
            old(self).wf(),
        ensures
            final(self).wf(),
            match approval_refusal(
                old(self)@,
                call.signer_account_id@,
                nonce,
                gate_of(old(self)@, SecurityMode::Allowed, call.role_response@),
                request_debit_ref,
            ) {
                Some(e) => outcome == Err::<u64, LedgerError>(e) && final(self)@ == old(self)@,
                None => {
                    &&& outcome == Ok::<u64, LedgerError>(request_debit_ref)
                    &&& final(self)@ == (OpenBankView {
                        used_nonces: old(self)@.used_nonces.insert(
                            (call.signer_account_id@, nonce),
                        ),
                        request_debits: old(self)@.request_debits.insert(
                            request_debit_ref,
                            RequestDebitView {
                                status: RequestDebitStatus::Approved,
                                approved_by: call.signer_account_id@,
                                ..old(self)@.request_debits[request_debit_ref]
                            },
                        ),
                        request_debits_by_status: index_with(
                            old(self)@.request_debits_by_status,
                            request_debit_ref,
                            RequestDebitStatus::Approved,
                        ),
                        ..old(self)@
                    })
                },
            },
    {
        let gate = self.is_secure(SecurityMode::Allowed, &call.role_response);
        self.enter(&call.signer_account_id, nonce, gate)?;
        let mut request_debit = self.find_request_debit(request_debit_ref)?;
        self.check_request_debit_status(request_debit.status, RequestDebitStatus::Pending)?;
        proof {
            self.lemma_index_consistent();
        }
        let _ = self.check_nonce(&call.signer_account_id, nonce);
        request_debit.status = RequestDebitStatus::Approved;
        request_debit.approved_by = call.signer_account_id.clone();
        self.put_request_debit(request_debit);
        Ok(request_debit_ref)
    }

    /// Cancels a request debit, whatever its status, for those who are
    /// allowed to. It becomes cancelled and moves to the bucket of the
    /// cancelled.
    pub fn cancel_request_debit(
        &mut self,
        call: &CallContext,
        request_debit_ref: u64,
        nonce: u64,
    ) -> (outcome: Result<u64, LedgerError>)
        requires
            old(self).wf(),
        ensures
            final(self).wf(),
            match cancellation_refusal(
                old(self)@,
                call.signer_account_id@,
                nonce,
                gate_of(old(self)@, SecurityMode::Allowed, call.role_response@),
                request_debit_ref,
            ) {
                Some(e) => outcome == Err::<u64, LedgerError>(e) && final(self)@ == old(self)@,
                None => {
                    &&& outcome == Ok::<u64, LedgerError>(request_debit_ref)
                    &&& final(self)@ == (OpenBankView {
                        used_nonces: old(self)@.used_nonces.insert(
                            (call.signer_account_id@, nonce),
                        ),
                        request_debits: old(self)@.request_debits.insert(
                            request_debit_ref,
                            RequestDebitView {
                                status: RequestDebitStatus::Cancelled,
                                ..old(self)@.request_debits[request_debit_ref]
                            },
                        ),
                        request_debits_by_status: index_with(
                            old(self)@.request_debits_by_status,
                            request_debit_ref,
                            RequestDebitStatus::Cancelled,
                        ),
                        ..old(self)@
                    })
                },
            },
    {
        let gate = self.is_secure(SecurityMode::Allowed, &call.role_response);
        self.enter(&call.signer_account_id, nonce, gate)?;
        let mut request_debit = self.find_request_debit(request_debit_ref)?;
        proof {
            self.lemma_index_consistent();
        }
        let _ = self.check_nonce(&call.signer_account_id, nonce);
        request_debit.status = RequestDebitStatus::Cancelled;
        self.put_request_debit(request_debit);
        Ok(request_debit_ref)
    }

    /// Draws on an approved request debit, for everyone who is not barred.
    /// The time of the call must lie between start date and end date, and the
    /// payout interval must have passed since the last drawdown, or since the
    /// start date if there has been none. The balance must be greater than
    /// the amount. The amount leaves the balance, the time of the call
    /// becomes the time of the last drawdown, and the transfer is ordered to
    /// the payee of the request debit, never to the caller, under the type
    /// `REQUEST_DEBIT`.
    pub fn request_debit(
        &mut self,
        call: &CallContext,
        request_debit_ref: u64,
        nonce: u64,
    ) -> (outcome: Result<TransferOrder, LedgerError>)
        requires
            old(self).wf(),
        ensures
            final(self).wf(),
            match drawdown_refusal(
                old(self)@,
                call.signer_account_id@,
                nonce,
                gate_of(old(self)@, SecurityMode::Barred, call.role_response@),
                request_debit_ref,
                call.block_timestamp,
            ) {
                Some(e) => outcome == Err::<TransferOrder, LedgerError>(e) && final(self)@ == old(
                    self,
                )@,
                None => {
                    let rd = old(self)@.request_debits[request_debit_ref];
                    &&& outcome matches Ok(order)
                    &&& order@ == (TransferOrderView {
                        payee: rd.payee,
                        signer: call.signer_account_id@,
                        amount: rd.amount,
                        description: rd.description,
                        payment_type: "REQUEST_DEBIT"@,
                    })
                    &&& final(self)@ == (OpenBankView {
                        bank_balance: (old(self)@.bank_balance - rd.amount) as u128,
                        used_nonces: old(self)@.used_nonces.insert(
                            (call.signer_account_id@, nonce),
                        ),
                        request_debits: old(self)@.request_debits.insert(
                            request_debit_ref,
                            RequestDebitView { last_paid: call.block_timestamp, ..rd },
                        ),
                        ..old(self)@
                    })
                },
            },
    {
        let gate = self.is_secure(SecurityMode::Barred, &call.role_response);
        self.enter(&call.signer_account_id, nonce, gate)?;
        let mut request_debit = self.find_request_debit(request_debit_ref)?;
        self.check_request_debit_status(request_debit.status, RequestDebitStatus::Approved)?;
        self.check_request_debit_interval(&request_debit, call.block_timestamp)?;
        self.check_bank_balance(request_debit.amount)?;
        proof {
            self.lemma_index_consistent();
            lemma_refile_same(
                self@.request_debits,
                self@.request_debits_by_status,
                request_debit_ref,
            );
        }
        let _ = self.check_nonce(&call.signer_account_id, nonce);
        let _ = self.decrement_bank_balance(request_debit.amount);
        let order = TransferOrder {
            payee: request_debit.payee.clone(),
            signer: call.signer_account_id.clone(),
            amount: request_debit.amount,
            description: request_debit.description.clone(),
            payment_type: String::from_str("REQUEST_DEBIT"),
        };
        request_debit.last_paid = call.block_timestamp;
        self.put_request_debit(request_debit);
        Ok(order)
    }

    /// Sets the name of the ledger, for those who are allowed to.
    pub fn set_open_bank_name(&mut self, call: &CallContext, bank_name: String) -> (outcome: Result<
        bool,
        LedgerError,
    >)
        requires
            old(self).wf(),
        ensures
            final(self).wf(),
            match gate_refusal(gate_of(old(self)@, SecurityMode::Allowed, call.role_response@)) {
                Some(e) => outcome == Err::<bool, LedgerError>(e) && final(self)@ == old(self)@,
                None => outcome == Ok::<bool, LedgerError>(true) && final(self)@ == (OpenBankView {
                    bank_name: bank_name@,
                    ..old(self)@
                }),
            },
    {
        let security_response = self.is_secure(SecurityMode::Allowed, &call.role_response)?;
        self.require(security_response, LedgerError::Unauthorized)?;
        self.put_bank_name(bank_name);
        Ok(true)
    }

    /// Sets the account that every withdrawal goes to, for those who are
    /// allowed to.
    pub fn set_open_bank_nominee_account(
        &mut self,
        call: &CallContext,
        nominee_account_id: String,
    ) -> (outcome: Result<bool, LedgerError>)
        requires
            old(self).wf(),
        ensures
            final(self).wf(),
            match gate_refusal(gate_of(old(self)@, SecurityMode::Allowed, call.role_response@)) {
                Some(e) => outcome == Err::<bool, LedgerError>(e) && final(self)@ == old(self)@,
                None => outcome == Ok::<bool, LedgerError>(true) && final(self)@ == (OpenBankView {
                    nominee_account_id: nominee_account_id@,
                    ..old(self)@
                }),
            },
    {
        let security_response = self.is_secure(SecurityMode::Allowed, &call.role_response)?;
        self.require(security_response, LedgerError::Unauthorized)?;
        self.put_nominee_account_id(nominee_account_id);
        Ok(true)
    }

    /// Sets the account of the role authority, to which every question goes
    /// from now on, for those who are allowed to.
    pub fn set_obei_open_roles(
        &mut self,
        call: &CallContext,
        open_roles_account_id: String,
    ) -> (outcome: Result<bool, LedgerError>)
        requires
            old(self).wf(),
        ensures
            final(self).wf(),
            match gate_refusal(gate_of(old(self)@, SecurityMode::Allowed, call.role_response@)) {
                Some(e) => outcome == Err::<bool, LedgerError>(e) && final(self)@ == old(self)@,
                None => outcome == Ok::<bool, LedgerError>(true) && final(self)@ == (OpenBankView {
                    access_security: open_roles_account_id@,
                    ..old(self)@
                }),
            },
    {
        let security_response = self.is_secure(SecurityMode::Allowed, &call.role_response)?;
        self.require(security_response, LedgerError::Unauthorized)?;
        self.put_access_security(open_roles_account_id);
        Ok(true)
    }

    /// Sets the code by which the role authority says yes, for those who are
    /// allowed to, and returns it.
    pub fn set_affirmative_secure_code(
        &mut self,
        call: &CallContext,
        affirmative_secure_code: i32,
    ) -> (outcome: Result<i32, LedgerError>)
        requires
            old(self).wf(),
        ensures
            final(self).wf(),
            match gate_refusal(gate_of(old(self)@, SecurityMode::Allowed, call.role_response@)) {
                Some(e) => outcome == Err::<i32, LedgerError>(e) && final(self)@ == old(self)@,
                None => outcome == Ok::<i32, LedgerError>(affirmative_secure_code) && final(self)@
                    == (OpenBankView { affirmative_code: affirmative_secure_code, ..old(self)@ }),
            },
    {
        let security_response = self.is_secure(SecurityMode::Allowed, &call.role_response)?;
        self.require(security_response, LedgerError::Unauthorized)?;
        let (_, negative) = self.codes();
        self.put_codes(affirmative_secure_code, negative);
        Ok(affirmative_secure_code)
    }

    /// Sets the code by which the role authority says no, for those who are
    /// allowed to, and returns it.
    pub fn set_negative_secure_code(
        &mut self,
        call: &CallContext,
        negative_secure_code: i32,
    ) -> (outcome: Result<i32, LedgerError>)
        requires
            old(self).wf(),
        ensures
            final(self).wf(),
            match gate_refusal(gate_of(old(self)@, SecurityMode::Allowed, call.role_response@)) {
                Some(e) => outcome == Err::<i32, LedgerError>(e) && final(self)@ == old(self)@,
                None => outcome == Ok::<i32, LedgerError>(negative_secure_code) && final(self)@
                    == (OpenBankView { negative_code: negative_secure_code, ..old(self)@ }),
            },
    {
        let security_response = self.is_secure(SecurityMode::Allowed, &call.role_response)?;
        self.require(security_response, LedgerError::Unauthorized)?;
        let (affirmative, _) = self.codes();
        self.put_codes(affirmative, negative_secure_code);
        Ok(negative_secure_code)
    }
}

} // verus!
