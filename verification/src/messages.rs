//! The messages of participants, and their signatures.
use crate::crypto::{hash_message, verify_single};
use crate::error::{SlateError, SlateErrorView};
use crate::participant::{ParticipantData, ParticipantView};
use crate::slate::{Slate, SlateView};
use vstd::prelude::*;

verus! {

/// The hash of a message, which is what its signature signs.
pub open spec fn text_hash(text: Seq<char>) -> Seq<u8> {
    crate::crypto::blake2b_hash(vstd::utf8::encode_utf8(text))
}

impl ParticipantView {
    /// What is wrong with the message of a participant, if anything: it is not signed, or
    /// the signature does not match it.
    pub open spec fn message_fault(self, matches: bool) -> Option<Seq<char>> {
        if self.message is None {
            None
        } else if self.message_sig is None {
            Some("Optional participant messages doesn't have signature"@)
        } else if !matches {
            Some("Optional participant messages do not match signatures"@)
        } else {
            None
        }
    }

    /// The signature of the message is that of the participant.
    pub open spec fn message_matches(self) -> bool {
        crate::crypto::single_signature_valid(
            self.message_sig->Some_0@,
            text_hash(self.message->Some_0),
            self.public_blind_excess@,
        )
    }
}

/// A fault as the result of a check.
pub open spec fn fault_outcome(fault: Option<Seq<char>>) -> Result<(), SlateErrorView> {
    match fault {
        Some(text) => Err(SlateErrorView::Signature(text)),
        None => Ok(()),
    }
}

impl SlateView {
    /// What is wrong with the message of participant `i`, if anything.
    pub open spec fn message_fault(self, i: int) -> Option<Seq<char>> {
        self.participant_data[i].message_fault(self.participant_data[i].message_matches())
    }

    /// The fault of the first message at or after place `i` that has one.
    pub open spec fn messages_check_from(self, i: int) -> Result<(), SlateErrorView>
        decreases self.participant_data.len() - i,
    {
        if i >= self.participant_data.len() {
            Ok(())
        } else {
            match self.message_fault(i) {
                Some(text) => fault_outcome(Some(text)),
                None => self.messages_check_from(i + 1),
            }
        }
    }

    /// Whether the messages that are there are signed by their participants; else
    /// what is wrong with the first one that is not.
    pub open spec fn messages_check(self) -> Result<(), SlateErrorView> {
        self.messages_check_from(0)
    }
}

impl ParticipantData {
    /// Whether the message of the participant is in order, where `matches` says whether
    /// its signature matches it.
    pub fn message_verdict(&self, matches: bool) -> (r: Result<(), SlateError>)
        ensures
            crate::error::outcome(r) == fault_outcome(self@.message_fault(matches)),
    {
        if self.message.is_none() {
            return Ok(());
        }
        if self.message_sig.is_none() {
            return Err(
                SlateError::Signature(
                    "Optional participant messages doesn't have signature".to_string(),
                ),
            );
        }
        if !matches {
            return Err(
                SlateError::Signature(
                    "Optional participant messages do not match signatures".to_string(),
                ),
            );
        }
        Ok(())
    }

    /// Verifies that the message of the participant, if there is one, matches its
    /// signature.
    pub fn verify_message(&self) -> (r: Result<(), SlateError>)
        ensures
            crate::error::outcome(r) == fault_outcome(self@.message_fault(self@.message_matches())),
    {
        let matches: bool = match (&self.message, &self.message_sig) {
            (Some(message), Some(signature)) => verify_single(
                signature,
                &hash_message(message.as_str().as_bytes()),
                &self.public_blind_excess,
            ),
            _ => false,
        };
        self.message_verdict(matches)
    }
}

impl Slate {
    /// Verifies that every message of a participant matches its signature.
    pub fn verify_messages(&self) -> (r: Result<(), SlateError>)
        ensures
            crate::error::outcome(r) == self@.messages_check(),
    {
        let mut i: usize = 0;
        while i < self.participant_data.len()
            invariant
                i <= self.participant_data@.len(),
                self@.messages_check_from(i as int) == self@.messages_check(),
            decreases self.participant_data@.len() - i,
        {
            let p: &ParticipantData = &self.participant_data[i];
            assert(self@.participant_data[i as int] == p@);
            match p.verify_message() {
                Ok(_) => {},
                Err(e) => return Err(e),
            }
            i = i + 1;
        }
        Ok(())
    }
}

} // verus!
