//! Comparing a slate that came back with the one that was sent.
use crate::bytes::same_bytes;
use crate::error::{SlateError, SlateErrorView};
use crate::participant::has_participant;
use crate::slate::{Slate, SlateView};
use crate::transaction::Output;
use vstd::prelude::*;

verus! {

impl SlateView {
    /// Every participant of this slate is one of `other`, with the same data.
    pub open spec fn participants_in(self, other: SlateView) -> bool {
        forall|i: int|
            0 <= i < self.participant_data.len() ==> other.participant_data.contains(
                #[trigger] self.participant_data[i],
            )
    }

    /// Every output of this slate is one of `other`.
    pub open spec fn outputs_in(self, other: SlateView) -> bool {
        forall|i: int|
            0 <= i < self.tx.body.outputs.len() ==> other.tx.body.has_output(
                #[trigger] self.tx.body.outputs[i],
            )
    }

    /// The first thing in which `reply` departs from this slate, where it was sent
    /// to pay: what was agreed on has changed, or something that was sent is gone. A
    /// compact slate leaves out amounts and the transaction, so they are not compared.
    pub open spec fn send_mismatch(self, reply: SlateView) -> Option<Seq<char>> {
        let full = !self.compact_slate;
        if self.id != reply.id {
            Some("uuid mismatch"@)
        } else if full && self.amount != reply.amount {
            Some("amount mismatch"@)
        } else if full && self.fee != reply.fee {
            Some("fee mismatch"@)
        } else if full && self.tx.body.inputs != reply.tx.body.inputs {
            Some("inputs mismatch"@)
        } else if full && !self.participants_in(reply) {
            Some("participant data mismatch"@)
        } else if full && !self.outputs_in(reply) {
            Some("outputs mismatch"@)
        } else if full && self.tx.body.kernels != reply.tx.body.kernels {
            Some("kernels mismatch"@)
        } else if self.lock_height != reply.lock_height {
            Some("lock_height mismatch"@)
        } else if self.height != reply.height {
            Some("heigh mismatch"@)
        } else if self.ttl_cutoff_height != reply.ttl_cutoff_height {
            Some("ttl_cutoff mismatch"@)
        } else {
            None
        }
    }

    /// `reply` has the id, the amount and the heights of this slate.
    pub open spec fn same_terms(self, reply: SlateView) -> bool {
        self.id == reply.id && self.amount == reply.amount && self.height == reply.height
            && self.ttl_cutoff_height == reply.ttl_cutoff_height
    }

    /// The first thing in which `reply` departs from this slate, where it is an
    /// invoice.
    pub open spec fn invoice_mismatch(self, reply: SlateView) -> Option<Seq<char>> {
        if self.id != reply.id {
            Some("uuid mismatch"@)
        } else if self.amount != reply.amount {
            Some("amount mismatch"@)
        } else if self.height != reply.height {
            Some("heigh mismatch"@)
        } else if self.ttl_cutoff_height != reply.ttl_cutoff_height {
            Some("ttl_cutoff mismatch"@)
        } else if !self.outputs_in(reply) {
            Some("outputs mismatch"@)
        } else if !self.participants_in(reply) {
            Some("participant data mismatch"@)
        } else {
            None
        }
    }
}

/// `mismatch` as the result of a comparison.
pub open spec fn comparison(mismatch: Option<Seq<char>>) -> Result<(), SlateErrorView> {
    match mismatch {
        Some(text) => Err(SlateErrorView::SlateValidation(text)),
        None => Ok(()),
    }
}

/// A mismatch as an error.
fn mismatch(text: &str) -> (r: Result<(), SlateError>)
    ensures
        crate::error::outcome(r) == comparison(Some(text@)),
{
    Err(SlateError::SlateValidation(text.to_string()))
}

/// Whether two optional heights are equal.
fn same_optional_height(a: &Option<u64>, b: &Option<u64>) -> (r: bool)
    ensures
        r == (*a == *b),
{
    match (a, b) {
        (Some(x), Some(y)) => *x == *y,
        (None, None) => true,
        _ => false,
    }
}

impl Slate {
    /// Whether every participant of this slate is one of `other`.
    fn participants_in(&self, other: &Slate) -> (r: bool)
        ensures
            r == self@.participants_in(other@),
    {
        let mut i: usize = 0;
        while i < self.participant_data.len()
            invariant
                i <= self.participant_data@.len(),
                forall|j: int|
                    0 <= j < i ==> other@.participant_data.contains(
                        #[trigger] self@.participant_data[j],
                    ),
            decreases self.participant_data@.len() - i,
        {
            assert(self@.participant_data[i as int] == self.participant_data@[i as int]@);
            if !has_participant(&other.participant_data, &self.participant_data[i]) {
                return false;
            }
            i = i + 1;
        }
        true
    }

    /// Whether every output of this slate is one of `other`.
    fn outputs_in(&self, other: &Slate) -> (r: bool)
        ensures
            r == self@.outputs_in(other@),
    {
        let outputs: &Vec<Output> = &self.tx.body.outputs;
        let mut i: usize = 0;
        while i < outputs.len()
            invariant
                i <= outputs@.len(),
                outputs@ == self@.tx.body.outputs,
                forall|j: int|
                    0 <= j < i ==> other@.tx.body.has_output(#[trigger] self@.tx.body.outputs[j]),
            decreases outputs@.len() - i,
        {
            assert(self@.tx.body.outputs[i as int] == outputs@[i as int]);
            if !other.tx.body.has_output(&outputs[i]) {
                return false;
            }
            i = i + 1;
        }
        true
    }

    /// Checks a slate that came back against the one that was sent to pay: what was sent is
    /// still there, and nothing that was agreed on has changed.
    pub fn compare_slates_send(send_slate: &Self, respond_slate: &Self) -> (r: Result<
        (),
        SlateError,
    >)
        ensures
            crate::error::outcome(r) == comparison(send_slate@.send_mismatch(respond_slate@)),
    {
        if !same_bytes(&send_slate.id, &respond_slate.id) {
            return mismatch("uuid mismatch");
        }
        if !send_slate.compact_slate {
            if send_slate.amount != respond_slate.amount {
                return mismatch("amount mismatch");
            }
            if send_slate.fee != respond_slate.fee {
                return mismatch("fee mismatch");
            }
            if !send_slate.tx.body.inputs.same(&respond_slate.tx.body.inputs) {
                return mismatch("inputs mismatch");
            }
            if !send_slate.participants_in(respond_slate) {
                return mismatch("participant data mismatch");
            }
            // the reply may have added outputs
            if !send_slate.outputs_in(respond_slate) {
                return mismatch("outputs mismatch");
            }
            if !send_slate.tx.body.same_kernels(&respond_slate.tx.body) {
                return mismatch("kernels mismatch");
            }
        }
        if send_slate.lock_height != respond_slate.lock_height {
            return mismatch("lock_height mismatch");
        }
        if send_slate.height != respond_slate.height {
            return mismatch("heigh mismatch");
        }
        if !same_optional_height(
            &send_slate.ttl_cutoff_height,
            &respond_slate.ttl_cutoff_height,
        ) {
            return mismatch("ttl_cutoff mismatch");
        }
        Ok(())
    }

    /// Checks a slate that came back against the invoice that was sent. An invoice has no
    /// inputs: where the terms match, that is asked of it.
    pub fn compare_slates_invoice(invoice_slate: &Self, respond_slate: &Self) -> (r: Result<
        (),
        SlateError,
    >)
        requires
            invoice_slate@.same_terms(respond_slate@)
                ==> invoice_slate@.tx.body.inputs.count() == 0,
        ensures
            crate::error::outcome(r) == comparison(invoice_slate@.invoice_mismatch(respond_slate@)),
    {
        if !same_bytes(&invoice_slate.id, &respond_slate.id) {
            return mismatch("uuid mismatch");
        }
        if invoice_slate.amount != respond_slate.amount {
            return mismatch("amount mismatch");
        }
        if invoice_slate.height != respond_slate.height {
            return mismatch("heigh mismatch");
        }
        if !same_optional_height(
            &invoice_slate.ttl_cutoff_height,
            &respond_slate.ttl_cutoff_height,
        ) {
            return mismatch("ttl_cutoff mismatch");
        }
        // the reply may have added outputs
        if !invoice_slate.outputs_in(respond_slate) {
            return mismatch("outputs mismatch");
        }
        if !invoice_slate.participants_in(respond_slate) {
            return mismatch("participant data mismatch");
        }
        Ok(())
    }
}

} // verus!
