//! The payment recorder: every movement of funds is written down once, and
//! found again by its reference.
use crate::error::LedgerError;
use crate::ob_io::{payment_at, Payment, PaymentView};
use std::collections::HashMap;
use vstd::prelude::*;

verus! {

/// All payments that were ever written, and the same payments by reference.
pub struct PaymentRecorder {
    payments: Vec<Payment>,
    payments_by_reference: HashMap<u64, Payment>,
}

impl PaymentRecorder {
    /// The payments that were written, in no order.
    pub closed spec fn all(&self) -> Set<PaymentView> {
        self.payments@.map_values(|p: Payment| p@).to_set()
    }

    /// The payment that each reference leads to.
    pub closed spec fn by_reference(&self) -> Map<u64, PaymentView> {
        self.payments_by_reference@.map_values(|p: Payment| p@)
    }

    /// A recorder that holds nothing.
    pub fn new() -> (recorder: PaymentRecorder)
        ensures
            recorder.all() == Set::<PaymentView>::empty(),
            recorder.by_reference() == Map::<u64, PaymentView>::empty(),
    {
        let recorder = PaymentRecorder {
            payments: Vec::new(),
            payments_by_reference: HashMap::new(),
        };
        recorder
    }

    /// Writes a payment down at the current time and returns it. This always
    /// succeeds. The payment joins the others and is from now on what its
    /// reference leads to.
    pub fn record(
        &mut self,
        payee: String,
        payer: String,
        signer: String,
        amount: u128,
        description: String,
        payment_type: String,
        status: String,
    ) -> (payment: Payment)
        ensures
            payment@ == payment_at(
                payee@,
                payer@,
                signer@,
                amount,
                description@,
                payment_type@,
                status@,
                payment.payment_time,
            ),
            final(self).all() == old(self).all().insert(payment@),
            final(self).by_reference() == old(self).by_reference().insert(
                payment.reference,
                payment@,
            ),
    {
        let payment = Payment::create_payment(
            payee,
            payer,
            signer,
            amount,
            description,
            payment_type,
            status,
        );
        self.payments.push(payment.clone());
        self.payments_by_reference.insert(payment.reference, payment.clone());
        proof {
            let view_of = |p: Payment| p@;
            assert(self.payments@.map_values(view_of) =~= old(self).payments@.map_values(
                view_of,
            ).push(payment@));
            old(self).payments@.map_values(view_of).lemma_push_to_set_commute(payment@);
        }
        payment
    }

    /// The payment that was written under the reference.
    pub fn find(&self, payment_ref: u64) -> (found: Result<Payment, LedgerError>)
        ensures
            match found {
                Ok(payment) => self.by_reference().contains_key(payment_ref) && payment@
                    == self.by_reference()[payment_ref],
                Err(e) => e == LedgerError::NotFound && !self.by_reference().contains_key(
                    payment_ref,
                ),
            },
    {
        match self.payments_by_reference.get(&payment_ref) {
            Some(payment) => Ok(payment.clone()),
            None => Err(LedgerError::NotFound),
        }
    }

    /// Whether a payment was written under the reference.
    pub fn is_recorded(&self, payment_ref: u64) -> (known: bool)
        ensures
            known == self.by_reference().contains_key(payment_ref),
    {
        self.payments_by_reference.contains_key(&payment_ref)
    }
}

} // verus!
