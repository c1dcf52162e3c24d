//! The records that the ledger exchanges with its callers.
use crate::clock::utc_now_millis;
use crate::digest::{
    digest_of, with_i64, with_text, with_u128, with_u64, write_i64, write_text, write_u128,
    write_u64,
};
use std::collections::hash_map::DefaultHasher;
use std::hash::Hasher;
use vstd::prelude::*;

verus! {

/// What a [`Payment`] holds, as plain mathematical values.
pub struct PaymentView {
    pub payee: Seq<char>,
    pub payer: Seq<char>,
    pub signer: Seq<char>,
    pub amount: u128,
    pub description: Seq<char>,
    pub payment_type: Seq<char>,
    pub status: Seq<char>,
    pub payment_time: i64,
    pub reference: u64,
}

/// One movement of funds into or out of the ledger. A payment is written once
/// and never changed.
#[derive(Debug, PartialEq, Eq)]
pub struct Payment {
    /// Who received the funds.
    pub payee: String,
    /// Who paid them.
    pub payer: String,
    /// Who signed the call that moved them.
    pub signer: String,
    pub amount: u128,
    pub description: String,
    /// `PAY_IN`, `PAY_OUT`, `PAY_OUT_MULTI`, `REQUEST_DEBIT`, `DEPOSIT` or
    /// `WITHDRAWAL`.
    pub payment_type: String,
    /// `COMPLETED`, or the result code of the transfer.
    pub status: String,
    /// When the payment was written, in milliseconds since 1970.
    pub payment_time: i64,
    /// The digest of all the fields above, taken once when the payment is
    /// written.
    pub reference: u64,
}

impl View for Payment {
    type V = PaymentView;

    open spec fn view(&self) -> PaymentView {
        PaymentView {
            payee: self.payee@,
            payer: self.payer@,
            signer: self.signer@,
            amount: self.amount,
            description: self.description@,
            payment_type: self.payment_type@,
            status: self.status@,
            payment_time: self.payment_time,
            reference: self.reference,
        }
    }
}

/// The digest of a payment: its fields in the order of their declaration, the
/// reference included as it stands.
pub open spec fn payment_digest(p: PaymentView) -> u64 {
    let w0 = Seq::<Seq<u8>>::empty();
    let w1 = with_text(w0, p.payee);
    let w2 = with_text(w1, p.payer);
    let w3 = with_text(w2, p.signer);
    let w4 = with_u128(w3, p.amount);
    let w5 = with_text(w4, p.description);
    let w6 = with_text(w5, p.payment_type);
    let w7 = with_text(w6, p.status);
    let w8 = with_i64(w7, p.payment_time);
    digest_of(with_u64(w8, p.reference))
}

/// The payment that is written at `payment_time` for the given movement: its
/// reference is the digest taken while the reference still reads zero.
pub open spec fn payment_at(
    payee: Seq<char>,
    payer: Seq<char>,
    signer: Seq<char>,
    amount: u128,
    description: Seq<char>,
    payment_type: Seq<char>,
    status: Seq<char>,
    payment_time: i64,
) -> PaymentView {
    let blank = PaymentView {
        payee,
        payer,
        signer,
        amount,
        description,
        payment_type,
        status,
        payment_time,
        reference: 0,
    };
    PaymentView { reference: payment_digest(blank), ..blank }
}

impl Clone for Payment {
    fn clone(&self) -> (copy: Self)
        ensures
            copy == *self,
    {
        Payment {
            payee: self.payee.clone(),
            payer: self.payer.clone(),
            signer: self.signer.clone(),
            amount: self.amount,
            description: self.description.clone(),
            payment_type: self.payment_type.clone(),
            status: self.status.clone(),
            payment_time: self.payment_time,
            reference: self.reference,
        }
    }
}

impl Payment {
    /// Writes a payment stamped with the current time.
    ///
    /// Everything but the time is fixed by the arguments; the reference is the
    /// digest that goes with the time that the clock gave.
    pub fn create_payment(
        payee: String,
        payer: String,
        signer: String,
        amount: u128,
        description: String,
        payment_type: String,
        status: String,
    ) -> (payment: Payment)
        ensures
            payment@ == payment_at(
                payee@,
                payer@,
                signer@,
                amount,
                description@,
                payment_type@,
                status@,
                payment.payment_time,
            ),
    {
        let payment_time = utc_now_millis();
        Payment::create_payment_at(
            payee,
            payer,
            signer,
            amount,
            description,
            payment_type,
            status,
            payment_time,
        )
    }

    /// Writes a payment stamped with the given time.
    pub fn create_payment_at(
        payee: String,
        payer: String,
        signer: String,
        amount: u128,
        description: String,
        payment_type: String,
        status: String,
        payment_time: i64,
    ) -> (payment: Payment)
        ensures
            payment@ == payment_at(
                payee@,
                payer@,
                signer@,
                amount,
                description@,
                payment_type@,
                status@,
                payment_time,
            ),
    {
        let mut s = Payment {
            payee,
            payer,
            signer,
            amount,
            description,
            payment_type,
            status,
            payment_time,
            reference: 0,
        };
        s.reference = Payment::calculate_hash(&s);
        s
    }

    /// The digest of a payment as it stands.
    pub fn calculate_hash(t: &Payment) -> (digest: u64)
        ensures
            digest == payment_digest(t@),
    {
        let mut s = DefaultHasher::new();
        write_text(&mut s, &t.payee);
        write_text(&mut s, &t.payer);
        write_text(&mut s, &t.signer);
        write_u128(&mut s, t.amount);
        write_text(&mut s, &t.description);
        write_text(&mut s, &t.payment_type);
        write_text(&mut s, &t.status);
        write_i64(&mut s, t.payment_time);
        write_u64(&mut s, t.reference);
        s.finish()
    }
}

/// Where a request debit stands in its life.
#[derive(Clone, Copy, Debug, PartialEq, Eq, Hash, Structural)]
pub enum RequestDebitStatus {
    /// Registered and waiting for approval.
    Pending,
    /// Approved: it can be drawn down.
    Approved,
    /// Cancelled, for good.
    Cancelled,
}

/// The name under which a status is written and asked for.
pub open spec fn status_name(status: RequestDebitStatus) -> Seq<char> {
    match status {
        RequestDebitStatus::Pending => "PENDING"@,
        RequestDebitStatus::Approved => "APPROVED"@,
        RequestDebitStatus::Cancelled => "CANCELLED"@,
    }
}

/// The status that goes by a name, if there is one.
pub open spec fn status_named(name: Seq<char>) -> Option<RequestDebitStatus> {
    if name == "PENDING"@ {
        Some(RequestDebitStatus::Pending)
    } else if name == "APPROVED"@ {
        Some(RequestDebitStatus::Approved)
    } else if name == "CANCELLED"@ {
        Some(RequestDebitStatus::Cancelled)
    } else {
        None
    }
}

impl RequestDebitStatus {
    /// The name of this status.
    pub fn name(&self) -> (name: String)
        ensures
            name@ == status_name(*self),
    {
        match self {
            RequestDebitStatus::Pending => String::from_str("PENDING"),
            RequestDebitStatus::Approved => String::from_str("APPROVED"),
            RequestDebitStatus::Cancelled => String::from_str("CANCELLED"),
        }
    }

    /// The status that goes by the given name, if there is one.
    pub fn from_name(name: &String) -> (status: Option<RequestDebitStatus>)
        ensures
            status == status_named(name@),
    {
        if *name == String::from_str("PENDING") {
            Some(RequestDebitStatus::Pending)
        } else if *name == String::from_str("APPROVED") {
            Some(RequestDebitStatus::Approved)
        } else if *name == String::from_str("CANCELLED") {
            Some(RequestDebitStatus::Cancelled)
        } else {
            None
        }
    }
}

/// What a [`RequestDebit`] holds, as plain mathematical values.
pub struct RequestDebitView {
    pub payee: Seq<char>,
    pub amount: u128,
    pub description: Seq<char>,
    pub payout_interval: i64,
    pub creation_date: i64,
    pub last_paid: i64,
    pub start_date: i64,
    pub end_date: i64,
    pub creator: Seq<char>,
    pub status: RequestDebitStatus,
    pub approved_by: Seq<char>,
    pub reference: u64,
}

/// A standing authorisation: the payee may draw `amount` from the ledger once
/// in every `payout_interval`, between `start_date` and `end_date`. All times
/// are in milliseconds.
#[derive(Debug, PartialEq, Eq)]
pub struct RequestDebit {
    /// Who receives each drawdown, whoever asks for it.
    pub payee: String,
    /// The amount of one drawdown.
    pub amount: u128,
    pub description: String,
    /// The least time between two drawdowns.
    pub payout_interval: i64,
    pub creation_date: i64,
    /// When the last drawdown was made; 0 until the first.
    pub last_paid: i64,
    pub start_date: i64,
    pub end_date: i64,
    /// Who registered the request debit.
    pub creator: String,
    pub status: RequestDebitStatus,
    /// Who approved it; empty until then.
    pub approved_by: String,
    /// The digest of the fields as they stood at registration. It stays with
    /// the request debit whatever changes later.
    pub reference: u64,
}

impl View for RequestDebit {
    type V = RequestDebitView;

    open spec fn view(&self) -> RequestDebitView {
        RequestDebitView {
            payee: self.payee@,
            amount: self.amount,
            description: self.description@,
            payout_interval: self.payout_interval,
            creation_date: self.creation_date,
            last_paid: self.last_paid,
            start_date: self.start_date,
            end_date: self.end_date,
            creator: self.creator@,
            status: self.status,
            approved_by: self.approved_by@,
            reference: self.reference,
        }
    }
}

/// The digest of a request debit: its fields in the order of their
/// declaration, the status by its name and the reference as it stands.
pub open spec fn request_debit_digest(rd: RequestDebitView) -> u64 {
    let w0 = Seq::<Seq<u8>>::empty();
    let w1 = with_text(w0, rd.payee);
    let w2 = with_u128(w1, rd.amount);
    let w3 = with_text(w2, rd.description);
    let w4 = with_i64(w3, rd.payout_interval);
    let w5 = with_i64(w4, rd.creation_date);
    let w6 = with_i64(w5, rd.last_paid);
    let w7 = with_i64(w6, rd.start_date);
    let w8 = with_i64(w7, rd.end_date);
    let w9 = with_text(w8, rd.creator);
    let w10 = with_text(w9, status_name(rd.status));
    let w11 = with_text(w10, rd.approved_by);
    digest_of(with_u64(w11, rd.reference))
}

/// The request debit that is registered at `creation_date` with the given
/// terms: pending, never paid, approved by nobody, and with the digest of
/// that state as its reference.
pub open spec fn request_debit_at(
    payee: Seq<char>,
    amount: u128,
    description: Seq<char>,
    payout_interval: i64,
    start_date: i64,
    end_date: i64,
    creator: Seq<char>,
    creation_date: i64,
) -> RequestDebitView {
    let blank = RequestDebitView {
        payee,
        amount,
        description,
        payout_interval,
        creation_date,
        last_paid: 0,
        start_date,
        end_date,
        creator,
        status: RequestDebitStatus::Pending,
        approved_by: Seq::<char>::empty(),
        reference: 0,
    };
    RequestDebitView { reference: request_debit_digest(blank), ..blank }
}

impl Clone for RequestDebit {
    fn clone(&self) -> (copy: Self)
        ensures
            copy == *self,
    {
        RequestDebit {
            payee: self.payee.clone(),
            amount: self.amount,
            description: self.description.clone(),
            payout_interval: self.payout_interval,
            creation_date: self.creation_date,
            last_paid: self.last_paid,
            start_date: self.start_date,
            end_date: self.end_date,
            creator: self.creator.clone(),
            status: self.status,
            approved_by: self.approved_by.clone(),
            reference: self.reference,
        }
    }
}

impl RequestDebit {
    /// Registers terms at the current time.
    ///
    /// Everything but the creation date is fixed by the arguments; the
    /// reference is the digest that goes with the date that the clock gave.
    pub fn create_request_debit(
        payee: String,
        amount: u128,
        description: String,
        payout_interval: i64,
        start_date: i64,
        end_date: i64,
        creator: String,
    ) -> (rd: RequestDebit)
        ensures
            rd@ == request_debit_at(
                payee@,
                amount,
                description@,
                payout_interval,
                start_date,
                end_date,
                creator@,
                rd.creation_date,
            ),
    {
        let creation_date = utc_now_millis();
        RequestDebit::create_request_debit_at(
            payee,
            amount,
            description,
            payout_interval,
            start_date,
            end_date,
            creator,
            creation_date,
        )
    }

    /// Registers terms at the given time.
    pub fn create_request_debit_at(
        payee: String,
        amount: u128,
        description: String,
        payout_interval: i64,
        start_date: i64,
        end_date: i64,
        creator: String,
        creation_date: i64,
    ) -> (rd: RequestDebit)
        ensures
            rd@ == request_debit_at(
                payee@,
                amount,
                description@,
                payout_interval,
                start_date,
                end_date,
                creator@,
                creation_date,
            ),
    {
        let mut rd = RequestDebit {
            payee,
            amount,
            description,
            payout_interval,
            creation_date,
            last_paid: 0,
            start_date,
            end_date,
            creator,
            status: RequestDebitStatus::Pending,
            approved_by: String::new(),
            reference: 0,
        };
        rd.reference = RequestDebit::calculate_hash(&rd);
        rd
    }

    /// The digest of a request debit as it stands.
    pub fn calculate_hash(t: &RequestDebit) -> (digest: u64)
        ensures
            digest == request_debit_digest(t@),
    {
        let mut s = DefaultHasher::new();
        write_text(&mut s, &t.payee);
        write_u128(&mut s, t.amount);
        write_text(&mut s, &t.description);
        write_i64(&mut s, t.payout_interval);
        write_i64(&mut s, t.creation_date);
        write_i64(&mut s, t.last_paid);
        write_i64(&mut s, t.start_date);
        write_i64(&mut s, t.end_date);
        write_text(&mut s, &t.creator);
        let status = t.status.name();
        write_text(&mut s, &status);
        write_text(&mut s, &t.approved_by);
        write_u64(&mut s, t.reference);
        s.finish()
    }
}

/// One line of a payout to several payees. It is an instruction only: the
/// ledger keeps none.
#[derive(Debug, PartialEq, Eq, Hash)]
pub struct MultiPaymentRequest {
    pub payee_account_id: String,
    pub payout_amount: u128,
    pub description: String,
}

impl Clone for MultiPaymentRequest {
    fn clone(&self) -> (copy: Self)
        ensures
            copy == *self,
    {
        MultiPaymentRequest {
            payee_account_id: self.payee_account_id.clone(),
            payout_amount: self.payout_amount,
            description: self.description.clone(),
        }
    }
}

} // verus!
