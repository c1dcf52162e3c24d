//! The ledger itself: its state, and the operations that callers ask of it.
use crate::error::LedgerError;
use crate::gate::{decide, gate_verdict, mode_of, name_of, Operation};
use crate::host::{PromiseOutcome, RoleQuery, SecurityMode};
use crate::ob_io::{
    payment_at, status_named, MultiPaymentRequest, Payment, PaymentView, RequestDebit,
    RequestDebitStatus, RequestDebitView,
};
use crate::recorder::PaymentRecorder;
use crate::registry::{index_consistent, RequestDebitRegistry};
use crate::replay::ReplayGuard;
use crate::status_index::index_with;
use vstd::prelude::*;

verus! {

/// What an [`OpenBank`] holds, as plain mathematical values.
pub struct OpenBankView {
    /// The funds in custody.
    pub bank_balance: u128,
    pub bank_name: Seq<char>,
    /// The account to which the ledger is deployed.
    pub bank_deployed_account_id: Seq<char>,
    pub denomination: Seq<char>,
    pub owner: Seq<char>,
    /// The account that every withdrawal goes to.
    pub nominee_account_id: Seq<char>,
    /// The request debits by reference.
    pub request_debits: Map<u64, RequestDebitView>,
    /// The references of the request debits under each status that has a
    /// bucket.
    pub request_debits_by_status: Map<RequestDebitStatus, Set<u64>>,
    /// Every payment that was written.
    pub payments: Set<PaymentView>,
    /// The payments by reference.
    pub payments_by_reference: Map<u64, PaymentView>,
    /// The account of the role authority.
    pub access_security: Seq<char>,
    /// Every pair of caller and nonce that has been used.
    pub used_nonces: Set<(Seq<char>, u64)>,
    pub test_mode: bool,
    /// The answer by which the role authority says yes.
    pub affirmative_code: i32,
    /// The answer by which the role authority says no.
    pub negative_code: i32,
}

/// One ledger: a single balance in a single denomination, with the request
/// debits, the payments and the nonces that go with it.
pub struct OpenBank {
    bank_balance: u128,
    bank_name: String,
    bank_deployed_account_id: String,
    denomination: String,
    owner: String,
    nominee_account_id: String,
    request_debits: RequestDebitRegistry,
    payments: PaymentRecorder,
    access_security: String,
    nonce_register: ReplayGuard,
    test_mode: bool,
    affirmative_code: i32,
    negative_code: i32,
}

impl View for OpenBank {
    type V = OpenBankView;

    closed spec fn view(&self) -> OpenBankView {
        OpenBankView {
            bank_balance: self.bank_balance,
            bank_name: self.bank_name@,
            bank_deployed_account_id: self.bank_deployed_account_id@,
            denomination: self.denomination@,
            owner: self.owner@,
            nominee_account_id: self.nominee_account_id@,
            request_debits: self.request_debits.by_reference(),
            request_debits_by_status: self.request_debits.by_status(),
            payments: self.payments.all(),
            payments_by_reference: self.payments.by_reference(),
            access_security: self.access_security@,
            used_nonces: self.nonce_register@,
            test_mode: self.test_mode,
            affirmative_code: self.affirmative_code,
            negative_code: self.negative_code,
        }
    }
}

/// Whether the balance can give the amount: something must be left, so the
/// amount has to be strictly less than the balance.
pub open spec fn affordable(balance: u128, amount: u128) -> bool {
    amount < balance
}

/// One change that is asked of the balance.
pub enum BalanceStep {
    Increase(u128),
    Decrease(u128),
}

/// The balance after one step. An increase is made unless the sum is more
/// than the ledger can hold; a decrease is made only if the balance can give
/// the amount. A step that is not made leaves the balance as it was.
pub open spec fn balance_after(balance: int, step: BalanceStep) -> int {
    match step {
        BalanceStep::Increase(amount) => if balance + amount <= u128::MAX {
            balance + amount
        } else {
            balance
        },
        BalanceStep::Decrease(amount) => if amount < balance {
            balance - amount
        } else {
            balance
        },
    }
}

/// What the authorization gate decides for a ledger, a question and an answer.
pub open spec fn gate_of(
    bank: OpenBankView,
    mode: SecurityMode,
    outcomes: Seq<PromiseOutcome>,
) -> Result<bool, LedgerError> {
    gate_verdict(bank.test_mode, bank.affirmative_code, bank.negative_code, mode, outcomes)
}

/// What the authorization gate decides where the nominee needs no
/// permission: the nominee passes without the authority being heard, everyone
/// else as those allowed.
pub open spec fn nominee_gate_of(
    bank: OpenBankView,
    caller: Seq<char>,
    outcomes: Seq<PromiseOutcome>,
) -> Result<bool, LedgerError> {
    if caller == bank.nominee_account_id {
        Ok(true)
    } else {
        gate_of(bank, SecurityMode::Allowed, outcomes)
    }
}

/// Why a call is turned away at the door, if it is: first for a nonce that
/// the caller has used before, then for what the authorization gate decided.
pub open spec fn entry_refusal(
    bank: OpenBankView,
    caller: Seq<char>,
    nonce: u64,
    gate: Result<bool, LedgerError>,
) -> Option<LedgerError> {
    if bank.used_nonces.contains((caller, nonce)) {
        Some(LedgerError::ReplayedNonce)
    } else {
        gate_refusal(gate)
    }
}

/// Why the authorization gate turns a call away, if it does.
pub open spec fn gate_refusal(gate: Result<bool, LedgerError>) -> Option<LedgerError> {
    match gate {
        Err(e) => Some(e),
        Ok(false) => Some(LedgerError::Unauthorized),
        Ok(true) => None,
    }
}

impl OpenBank {
    /// The parts of the ledger are sound.
    pub closed spec fn wf(&self) -> bool {
        &&& self.request_debits.wf()
        &&& self.nonce_register.wf()
    }

    /// In a sound ledger the index by status says what the request debits
    /// say.
    pub proof fn lemma_index_consistent(&self)
        requires
            self.wf(),
        ensures
            index_consistent(self@.request_debits, self@.request_debits_by_status),
    {
        self.request_debits.lemma_consistent();
    }

    /// A ledger that starts with the balance that the host reports for its
    /// account, and with no request debit, payment or nonce.
    pub fn new(
        bank_name: String,
        bank_deployed_account_id: String,
        denomination: String,
        owner: String,
        nominee_account_id: String,
        open_roles_account_id: String,
        affirmative_code: i32,
        negative_code: i32,
        test_mode: bool,
        account_balance: u128,
    ) -> (bank: OpenBank)
        ensures
            bank.wf(),
            bank@ == (OpenBankView {
                bank_balance: account_balance,
                bank_name: bank_name@,
                bank_deployed_account_id: bank_deployed_account_id@,
                denomination: denomination@,
                owner: owner@,
                nominee_account_id: nominee_account_id@,
                request_debits: Map::empty(),
                request_debits_by_status: Map::empty(),
                payments: Set::empty(),
                payments_by_reference: Map::empty(),
                access_security: open_roles_account_id@,
                used_nonces: Set::empty(),
                test_mode,
                affirmative_code,
                negative_code,
            }),
    {
        OpenBank {
            bank_balance: account_balance,
            bank_name,
            bank_deployed_account_id,
            denomination,
            owner,
            nominee_account_id,
            request_debits: RequestDebitRegistry::new(),
            payments: PaymentRecorder::new(),
            access_security: open_roles_account_id,
            nonce_register: ReplayGuard::new(),
            test_mode,
            affirmative_code,
            negative_code,
        }
    }

    /// The version of the ledger's code.
    pub fn get_version(&self) -> (version: String)
        ensures
            version@ == "0.1.0"@,
    {
        String::from_str("0.1.0")
    }

    /// The name of the ledger.
    pub fn get_bank_name(&self) -> (name: String)
        ensures
            name@ == self@.bank_name,
    {
        self.bank_name.clone()
    }

    /// The denomination in which the ledger counts.
    pub fn get_denomination(&self) -> (denomination: String)
        ensures
            denomination@ == self@.denomination,
    {
        self.denomination.clone()
    }

    /// The account that every withdrawal goes to.
    pub fn view_nominee_account_id(&self) -> (nominee: String)
        ensures
            nominee@ == self@.nominee_account_id,
    {
        self.nominee_account_id.clone()
    }

    /// Whether the ledger lets everyone pass.
    pub fn is_test_mode(&self) -> (test_mode: bool)
        ensures
            test_mode == self@.test_mode,
    {
        self.test_mode
    }

    /// Ends test mode. Nothing turns it on again: it is set when the ledger is
    /// made and no operation sets it afterwards.
    pub fn deactivate_test_mode(&mut self) -> (test_mode: bool)
        requires
            old(self).wf(),
        ensures
            final(self).wf(),
            !test_mode,
            final(self)@ == (OpenBankView { test_mode: false, ..old(self)@ }),
    {
        self.test_mode = false;
        self.test_mode
    }

    /// The question to put to the role authority before the caller's
    /// operation, or nothing in test mode, where nobody is asked.
    pub fn role_query(&self, operation: Operation, caller: &String) -> (query: Option<RoleQuery>)
        ensures
            self@.test_mode <==> query is None,
            query matches Some(q) ==> {
                &&& q.authority_account_id@ == self@.access_security
                &&& q.mode == mode_of(operation)
                &&& q.contract_account_id@ == self@.bank_deployed_account_id
                &&& q.contract_name@ == self@.bank_name
                &&& q.operation@ == name_of(operation)
                &&& q.user_account_id@ == caller@
            },
    {
        if self.test_mode {
            return None;
        }
        Some(
            RoleQuery {
                authority_account_id: self.access_security.clone(),
                mode: operation.mode(),
                contract_account_id: self.bank_deployed_account_id.clone(),
                contract_name: self.bank_name.clone(),
                operation: operation.name(),
                user_account_id: caller.clone(),
            },
        )
    }

    /// Whether the caller passes the authorization gate, given what came back
    /// from the role authority.
    pub fn is_secure(&self, mode: SecurityMode, role_response: &Vec<PromiseOutcome>) -> (verdict:
        Result<bool, LedgerError>)
        ensures
            verdict == gate_of(self@, mode, role_response@),
    {
        decide(self.test_mode, self.affirmative_code, self.negative_code, mode, role_response)
    }

    /// Holds a call to a condition: where the condition fails, the call is
    /// refused for the given reason.
    pub fn require(&self, condition: bool, refusal: LedgerError) -> (outcome: Result<
        bool,
        LedgerError,
    >)
        ensures
            outcome == if condition {
                Ok::<bool, LedgerError>(true)
            } else {
                Err::<bool, LedgerError>(refusal)
            },
    {
        if condition {
            Ok(true)
        } else {
            Err(refusal)
        }
    }

    /// Takes one use of a nonce by a caller: refused if the caller has used
    /// the nonce before, remembered otherwise.
    pub fn check_nonce(&mut self, caller: &String, nonce: u64) -> (outcome: Result<
        (),
        LedgerError,
    >)
        requires
            old(self).wf(),
        ensures
            final(self).wf(),
            match outcome {
                Ok(_) => !old(self)@.used_nonces.contains((caller@, nonce)) && final(self)@ == (
                OpenBankView {
                    used_nonces: old(self)@.used_nonces.insert((caller@, nonce)),
                    ..old(self)@
                }),
                Err(e) => e == LedgerError::ReplayedNonce && old(self)@.used_nonces.contains(
                    (caller@, nonce),
                ) && final(self)@ == old(self)@,
            },
    {
        self.nonce_register.check(caller, nonce)
    }

    /// Whether the caller has used the nonce before.
    pub fn has_used_nonce(&self, caller: &String, nonce: u64) -> (used: bool)
        requires
            self.wf(),
        ensures
            used == self@.used_nonces.contains((caller@, nonce)),
    {
        self.nonce_register.has_seen(caller, nonce)
    }

    /// Whether the balance can give the amount.
    pub fn check_bank_balance(&self, amount_required: u128) -> (outcome: Result<(), LedgerError>)
        ensures
            outcome == if affordable(self@.bank_balance, amount_required) {
                Ok::<(), LedgerError>(())
            } else {
                Err::<(), LedgerError>(LedgerError::InsufficientFunds)
            },
    {
        if amount_required < self.bank_balance {
            Ok(())
        } else {
            Err(LedgerError::InsufficientFunds)
        }
    }

    /// Takes an amount off the balance, if the balance can give it.
    pub fn decrement_bank_balance(&mut self, amount: u128) -> (outcome: Result<(), LedgerError>)
        requires
            old(self).wf(),
        ensures
            final(self).wf(),
            final(self)@.bank_balance == balance_after(
                old(self)@.bank_balance as int,
                BalanceStep::Decrease(amount),
            ),
            match outcome {
                Ok(_) => affordable(old(self)@.bank_balance, amount) && final(self)@ == (
                OpenBankView {
                    bank_balance: (old(self)@.bank_balance - amount) as u128,
                    ..old(self)@
                }) && final(self)@.bank_balance > 0,
                Err(e) => e == LedgerError::InsufficientFunds && !affordable(
                    old(self)@.bank_balance,
                    amount,
                ) && final(self)@ == old(self)@,
            },
    {
        if amount < self.bank_balance {
            self.bank_balance = self.bank_balance - amount;
            Ok(())
        } else {
            Err(LedgerError::InsufficientFunds)
        }
    }

    /// Adds an amount to the balance, if the sum is one that the ledger can
    /// hold.
    pub fn increment_bank_balance(&mut self, amount: u128) -> (outcome: Result<(), LedgerError>)
        requires
            old(self).wf(),
        ensures
            final(self).wf(),
            final(self)@.bank_balance == balance_after(
                old(self)@.bank_balance as int,
                BalanceStep::Increase(amount),
            ),
            match outcome {
                Ok(_) => old(self)@.bank_balance + amount <= u128::MAX && final(self)@ == (
                OpenBankView {
                    bank_balance: (old(self)@.bank_balance + amount) as u128,
                    ..old(self)@
                }),
                Err(e) => e == LedgerError::Overflow && old(self)@.bank_balance + amount
                    > u128::MAX && final(self)@ == old(self)@,
            },
    {
        match self.bank_balance.checked_add(amount) {
            Some(sum) => {
                self.bank_balance = sum;
                Ok(())
            },
            None => Err(LedgerError::Overflow),
        }
    }

    /// Whether the funds that came with a call are the amount that it states.
    pub fn check_attachment_vs_stated_amount(
        &self,
        attached_amount: u128,
        stated_amount: u128,
    ) -> (outcome: Result<(), LedgerError>)
        ensures
            outcome == if attached_amount == stated_amount {
                Ok::<(), LedgerError>(())
            } else {
                Err::<(), LedgerError>(LedgerError::AmountMismatch)
            },
    {
        if attached_amount == stated_amount {
            Ok(())
        } else {
            Err(LedgerError::AmountMismatch)
        }
    }

    /// Writes a payment down at the current time and returns it. This always
    /// succeeds.
    pub fn create_and_register_payment(
        &mut self,
        payee: String,
        payer: String,
        signer: String,
        amount: u128,
        description: String,
        payment_status: String,
        payment_type: String,
    ) -> (payment: Payment)
        requires
            old(self).wf(),
        ensures
            final(self).wf(),
            payment@ == payment_at(
                payee@,
                payer@,
                signer@,
                amount,
                description@,
                payment_type@,
                payment_status@,
                payment.payment_time,
            ),
            final(self)@ == (OpenBankView {
                payments: old(self)@.payments.insert(payment@),
                payments_by_reference: old(self)@.payments_by_reference.insert(
                    payment.reference,
                    payment@,
                ),
                ..old(self)@
            }),
    {
        self.payments.record(
            payee,
            payer,
            signer,
            amount,
            description,
            payment_type,
            payment_status,
        )
    }

    /// The payment that was written under the reference.
    pub fn find_payment(&self, payment_ref: u64) -> (found: Result<Payment, LedgerError>)
        ensures
            match found {
                Ok(payment) => self@.payments_by_reference.contains_key(payment_ref) && payment@
                    == self@.payments_by_reference[payment_ref],
                Err(e) => e == LedgerError::NotFound && !self@.payments_by_reference.contains_key(
                    payment_ref,
                ),
            },
    {
        self.payments.find(payment_ref)
    }

    /// Whether a payment was written under the reference.
    pub fn is_valid_payment_ref(&self, payment_ref: u64) -> (valid: bool)
        ensures
            valid == self@.payments_by_reference.contains_key(payment_ref),
    {
        self.payments.is_recorded(payment_ref)
    }

    /// The request debit that is kept under the reference.
    pub fn find_request_debit(&self, request_debit_reference: u64) -> (found: Result<
        RequestDebit,
        LedgerError,
    >)
        ensures
            match found {
                Ok(rd) => self@.request_debits.contains_key(request_debit_reference) && rd@
                    == self@.request_debits[request_debit_reference],
                Err(e) => e == LedgerError::NotFound && !self@.request_debits.contains_key(
                    request_debit_reference,
                ),
            },
    {
        self.request_debits.find(request_debit_reference)
    }

    /// Whether a request debit is kept under the reference.
    pub fn check_is_valid_request_debit_reference(&self, request_debit_ref: u64) -> (outcome:
        Result<(), LedgerError>)
        ensures
            outcome == if self@.request_debits.contains_key(request_debit_ref) {
                Ok::<(), LedgerError>(())
            } else {
                Err::<(), LedgerError>(LedgerError::NotFound)
            },
    {
        if self.request_debits.contains(request_debit_ref) {
            Ok(())
        } else {
            Err(LedgerError::NotFound)
        }
    }

    /// The request debits that have the status of the given name now, each
    /// once. A name that is no status, or a status that no request debit ever
    /// had, is not found.
    pub fn find_request_debits_by_status(&self, status: String) -> (found: Result<
        Vec<RequestDebit>,
        LedgerError,
    >)
        requires
            self.wf(),
        ensures
            match found {
                Ok(list) => {
                    &&& status_named(status@) matches Some(s)
                    &&& self@.request_debits_by_status.contains_key(s)
                    &&& list@.map_values(|rd: RequestDebit| rd.reference).no_duplicates()
                    &&& list@.map_values(|rd: RequestDebit| rd.reference).to_set()
                        == self@.request_debits_by_status[s]
                    &&& forall|i: int|
                        0 <= i < list@.len() ==> self@.request_debits.contains_key(
                            (#[trigger] list@[i]).reference,
                        ) && list@[i]@ == self@.request_debits[list@[i].reference]
                },
                Err(e) => e == LedgerError::NotFound && (status_named(status@) matches Some(s)
                    ==> !self@.request_debits_by_status.contains_key(s)),
            },
    {
        match RequestDebitStatus::from_name(&status) {
            Some(s) => self.request_debits.find_by_status(s),
            None => Err(LedgerError::NotFound),
        }
    }

    /// Whether a request debit has the status that an action needs.
    pub fn check_request_debit_status(
        &self,
        current_status: RequestDebitStatus,
        required_status: RequestDebitStatus,
    ) -> (outcome: Result<(), LedgerError>)
        ensures
            outcome == if current_status == required_status {
                Ok::<(), LedgerError>(())
            } else {
                Err::<(), LedgerError>(LedgerError::InvalidState)
            },
    {
        if current_status == required_status {
            Ok(())
        } else {
            Err(LedgerError::InvalidState)
        }
    }

    /// Whether a request debit can be drawn on at the given time.
    pub fn check_request_debit_interval(
        &self,
        request_debit: &RequestDebit,
        time_now: i64,
    ) -> (outcome: Result<(), LedgerError>)
        ensures
            outcome == match timing_refusal(request_debit@, time_now) {
                Some(e) => Err::<(), LedgerError>(e),
                None => Ok::<(), LedgerError>(()),
            },
    {
        if request_debit.start_date > time_now || request_debit.end_date < time_now {
            return Err(LedgerError::OutOfWindow);
        }
        let base: i64 = if request_debit.last_paid != 0 {
            request_debit.last_paid
        } else {
            request_debit.start_date
        };
        let elapsed: i128 = time_now as i128 - base as i128;
        if elapsed < request_debit.payout_interval as i128 {
            return Err(LedgerError::IntervalNotElapsed);
        }
        Ok(())
    }

    /// The sum of the amounts of a payout to several payees, if it is a sum
    /// that the ledger can hold.
    pub fn get_total(mprs: &Vec<MultiPaymentRequest>) -> (sum: Option<u128>)
        ensures
            match sum {
                Some(t) => t == total(mprs@),
                None => total(mprs@) > u128::MAX,
            },
    {
        let mut sum: u128 = 0;
        let mut i: usize = 0;
        while i < mprs.len()
            invariant
                i <= mprs@.len(),
                sum == total(mprs@.take(i as int)),
            decreases mprs@.len() - i,
        {
            proof {
                lemma_total_step(mprs@, i as int);
            }
            match sum.checked_add(mprs[i].payout_amount) {
                Some(next) => {
                    sum = next;
                },
                None => {
                    proof {
                        lemma_total_grows(mprs@, i as int + 1);
                    }
                    return None;
                },
            }
            i += 1;
        }
        proof {
            assert(mprs@.take(mprs@.len() as int) =~= mprs@);
        }
        Some(sum)
    }

    /// Files a request debit under a new status, out of the bucket of its old
    /// one and into the bucket of the new one in a single step. The request
    /// debit must be known, and must stand under the old status.
    pub fn move_request_debit_by_status(
        &mut self,
        old_status: RequestDebitStatus,
        new_status: RequestDebitStatus,
        request_debit: RequestDebit,
    ) -> (outcome: Result<(), LedgerError>)
        requires
            old(self).wf(),
        ensures
            final(self).wf(),
            match outcome {
                Ok(_) => {
                    &&& old(self)@.request_debits.contains_key(request_debit.reference)
                    &&& old(self)@.request_debits[request_debit.reference].status == old_status
                    &&& final(self)@ == (OpenBankView {
                        request_debits: old(self)@.request_debits.insert(
                            request_debit.reference,
                            RequestDebitView { status: new_status, ..request_debit@ },
                        ),
                        request_debits_by_status: index_with(
                            old(self)@.request_debits_by_status,
                            request_debit.reference,
                            new_status,
                        ),
                        ..old(self)@
                    })
                },
                Err(e) => {
                    &&& final(self)@ == old(self)@
                    &&& e == if !old(self)@.request_debits.contains_key(request_debit.reference) {
                        LedgerError::NotFound
                    } else {
                        LedgerError::InvalidState
                    }
                    &&& old(self)@.request_debits.contains_key(request_debit.reference)
                        ==> old(self)@.request_debits[request_debit.reference].status != old_status
                },
            },
    {
        let current = match self.request_debits.find(request_debit.reference) {
            Ok(current) => current,
            Err(e) => {
                return Err(e);
            },
        };
        if current.status != old_status {
            return Err(LedgerError::InvalidState);
        }
        let mut moved = request_debit;
        moved.status = new_status;
        self.put_request_debit(moved);
        Ok(())
    }

    /// Keeps a request debit under its reference and files it under its
    /// status.
    pub(crate) fn put_request_debit(&mut self, rd: RequestDebit)
        requires
            old(self).wf(),
        ensures
            final(self).wf(),
            final(self)@ == (OpenBankView {
                request_debits: old(self)@.request_debits.insert(rd.reference, rd@),
                request_debits_by_status: index_with(
                    old(self)@.request_debits_by_status,
                    rd.reference,
                    rd.status,
                ),
                ..old(self)@
            }),
    {
        self.request_debits.store(rd);
    }

    /// Sets the name of the ledger.
    pub(crate) fn put_bank_name(&mut self, bank_name: String)
        requires
            old(self).wf(),
        ensures
            final(self).wf(),
            final(self)@ == (OpenBankView { bank_name: bank_name@, ..old(self)@ }),
    {
        self.bank_name = bank_name;
    }

    /// Sets the account that every withdrawal goes to.
    pub(crate) fn put_nominee_account_id(&mut self, nominee_account_id: String)
        requires
            old(self).wf(),
        ensures
            final(self).wf(),
            final(self)@ == (OpenBankView {
                nominee_account_id: nominee_account_id@,
                ..old(self)@
            }),
    {
        self.nominee_account_id = nominee_account_id;
    }

    /// Sets the account of the role authority.
    pub(crate) fn put_access_security(&mut self, access_security: String)
        requires
            old(self).wf(),
        ensures
            final(self).wf(),
            final(self)@ == (OpenBankView { access_security: access_security@, ..old(self)@ }),
    {
        self.access_security = access_security;
    }

    /// Sets the two codes by which the role authority answers.
    pub(crate) fn put_codes(&mut self, affirmative_code: i32, negative_code: i32)
        requires
            old(self).wf(),
        ensures
            final(self).wf(),
            final(self)@ == (OpenBankView { affirmative_code, negative_code, ..old(self)@ }),
    {
        self.affirmative_code = affirmative_code;
        self.negative_code = negative_code;
    }

    /// The account to which the ledger is deployed.
    pub fn get_bank_deployed_account_id(&self) -> (account: String)
        ensures
            account@ == self@.bank_deployed_account_id,
    {
        self.bank_deployed_account_id.clone()
    }

    /// The two codes by which the role authority answers, the affirmative one
    /// first.
    pub(crate) fn codes(&self) -> (codes: (i32, i32))
        ensures
            codes == (self@.affirmative_code, self@.negative_code),
    {
        (self.affirmative_code, self.negative_code)
    }

    /// The funds in custody.
    pub(crate) fn balance(&self) -> (balance: u128)
        ensures
            balance == self@.bank_balance,
    {
        self.bank_balance
    }
}

/// The time from which the payout interval of a request debit counts: the
/// last drawdown, or the start date as long as there has been none.
pub open spec fn drawdown_base(rd: RequestDebitView) -> i64 {
    if rd.last_paid != 0 {
        rd.last_paid
    } else {
        rd.start_date
    }
}

/// Why the time is wrong for a drawdown, if it is: outside the window from
/// start date to end date, or inside it but too soon after the time from
/// which the interval counts.
pub open spec fn timing_refusal(rd: RequestDebitView, now: i64) -> Option<LedgerError> {
    if rd.start_date > now || rd.end_date < now {
        Some(LedgerError::OutOfWindow)
    } else if now - drawdown_base(rd) < rd.payout_interval {
        Some(LedgerError::IntervalNotElapsed)
    } else {
        None
    }
}

/// The sum of the amounts of a payout to several payees.
pub open spec fn total(mprs: Seq<MultiPaymentRequest>) -> nat
    decreases mprs.len(),
{
    if mprs.len() == 0 {
        0
    } else {
        total(mprs.drop_last()) + mprs.last().payout_amount as nat
    }
}

/// The sum of the first `i + 1` amounts is the sum of the first `i` and the
/// next one.
pub proof fn lemma_total_step(mprs: Seq<MultiPaymentRequest>, i: int)
    requires
        0 <= i < mprs.len(),
    ensures
        total(mprs.take(i + 1)) == total(mprs.take(i)) + mprs[i].payout_amount,
{
    assert(mprs.take(i + 1).drop_last() =~= mprs.take(i));
}

/// The sum of a part from the start is at most the sum of the whole.
pub proof fn lemma_total_grows(mprs: Seq<MultiPaymentRequest>, i: int)
    requires
        0 <= i <= mprs.len(),
    ensures
        total(mprs.take(i)) <= total(mprs),
    decreases mprs.len() - i,
{
    if i < mprs.len() {
        lemma_total_step(mprs, i);
        lemma_total_grows(mprs, i + 1);
    } else {
        assert(mprs.take(i) =~= mprs);
    }
}

} // verus!
