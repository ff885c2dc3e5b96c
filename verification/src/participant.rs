//! The participants of a slate: their public data and their messages.
use crate::bytes::{copy_optional_text, same_bytes, same_optional_bytes, same_optional_text};
use crate::crypto::{hex_text, PublicKey, Signature};
use crate::text::decimal_text;
use vstd::prelude::*;
use vstd::string::*;

verus! {

/// The public data of a participant in a slate.
#[derive(Debug, PartialEq, Eq)]
pub struct ParticipantData {
    /// The id of the participant: for now 0 for the sender, 1 for the receiver.
    pub id: u64,
    /// The public key of the private blinding factor.
    pub public_blind_excess: PublicKey,
    /// The public key of the private nonce.
    pub public_nonce: PublicKey,
    /// The partial signature.
    pub part_sig: Option<Signature>,
    /// A message for the other participants.
    pub message: Option<String>,
    /// The signature of the message under `public_blind_excess`.
    pub message_sig: Option<Signature>,
}

/// `ParticipantData`, with the message as characters.
#[verifier::ext_equal]
pub struct ParticipantView {
    pub id: u64,
    pub public_blind_excess: PublicKey,
    pub public_nonce: PublicKey,
    pub part_sig: Option<Signature>,
    pub message: Option<Seq<char>>,
    pub message_sig: Option<Signature>,
}

impl View for ParticipantData {
    type V = ParticipantView;

    open spec fn view(&self) -> ParticipantView {
        ParticipantView {
            id: self.id,
            public_blind_excess: self.public_blind_excess,
            public_nonce: self.public_nonce,
            part_sig: self.part_sig,
            message: crate::bytes::text_view(self.message),
            message_sig: self.message_sig,
        }
    }
}

impl Clone for ParticipantData {
    fn clone(&self) -> (r: ParticipantData)
        ensures
            r == *self,
    {
        ParticipantData {
            id: self.id,
            public_blind_excess: self.public_blind_excess,
            public_nonce: self.public_nonce,
            part_sig: self.part_sig,
            message: copy_optional_text(&self.message),
            message_sig: self.message_sig,
        }
    }
}

/// The views of `participants`, in order.
pub open spec fn participant_views(participants: Seq<ParticipantData>) -> Seq<ParticipantView> {
    participants.map_values(|p: ParticipantData| p@)
}

impl ParticipantData {
    /// Whether this participant has completed both rounds. In the first round a
    /// participant adds inputs, outputs and public keys, so a participant who is there has
    /// completed it. The second round can only be completed after all participants have
    /// performed the first, and adds the partial signature.
    pub fn is_complete(&self) -> (r: bool)
        ensures
            r == (self@.part_sig is Some),
    {
        self.part_sig.is_some()
    }

    /// Whether two participants are equal in all their data.
    pub fn same(&self, other: &ParticipantData) -> (r: bool)
        ensures
            r == (self@ == other@),
    {
        self.id == other.id && same_bytes(&self.public_blind_excess, &other.public_blind_excess)
            && same_bytes(&self.public_nonce, &other.public_nonce) && same_optional_bytes(
            &self.part_sig,
            &other.part_sig,
        ) && same_optional_text(&self.message, &other.message) && same_optional_bytes(
            &self.message_sig,
            &other.message_sig,
        )
    }
}

/// Whether `participant` is among `participants`, equal in all its data.
pub fn has_participant(participants: &Vec<ParticipantData>, participant: &ParticipantData) -> (r:
    bool)
    ensures
        r == participant_views(participants@).contains(participant@),
{
    let ghost views: Seq<ParticipantView> = participant_views(participants@);
    let mut i: usize = 0;
    while i < participants.len()
        invariant
            i <= participants@.len(),
            views == participant_views(participants@),
            forall|j: int| 0 <= j < i ==> views[j] != participant@,
        decreases participants@.len() - i,
    {
        if participants[i].same(participant) {
            assert(views[i as int] == participant@);
            return true;
        }
        i = i + 1;
    }
    false
}

/// The message of a participant, to store or show.
#[derive(Debug)]
pub struct ParticipantMessageData {
    /// The id of the participant.
    pub id: u64,
    /// The public key of the participant.
    pub public_key: PublicKey,
    /// The message.
    pub message: Option<String>,
    /// The signature of the message.
    pub message_sig: Option<Signature>,
}

/// `ParticipantMessageData`, with the message as characters.
#[verifier::ext_equal]
pub struct MessageView {
    pub id: u64,
    pub public_key: PublicKey,
    pub message: Option<Seq<char>>,
    pub message_sig: Option<Signature>,
}

impl View for ParticipantMessageData {
    type V = MessageView;

    open spec fn view(&self) -> MessageView {
        MessageView {
            id: self.id,
            public_key: self.public_key,
            message: crate::bytes::text_view(self.message),
            message_sig: self.message_sig,
        }
    }
}

impl Clone for ParticipantMessageData {
    fn clone(&self) -> (r: ParticipantMessageData)
        ensures
            r == *self,
    {
        ParticipantMessageData {
            id: self.id,
            public_key: self.public_key,
            message: copy_optional_text(&self.message),
            message_sig: self.message_sig,
        }
    }
}

impl ParticipantView {
    /// The message of the participant, with what identifies and signs it.
    pub open spec fn message_data(self) -> MessageView {
        MessageView {
            id: self.id,
            public_key: self.public_blind_excess,
            message: self.message,
            message_sig: self.message_sig,
        }
    }
}

impl MessageView {
    /// The text in which a message is shown.
    pub open spec fn text(self) -> Seq<char> {
        "\n"@ + "Participant ID "@ + crate::text::decimal(self.id as nat) + " "@ + (if self.id
            == 0 {
            "(Sender)\n"@
        } else {
            "(Recipient)\n"@
        }) + "---------------------\n"@ + "Public Key: "@ + crate::text::hexadecimal(
            self.public_key@,
        ) + "\n"@ + "Message: "@ + (match self.message {
            Some(m) => m,
            None => "None"@,
        }) + "\n"@ + "Message Signature: "@ + (match self.message_sig {
            Some(s) => crate::text::hexadecimal(s@),
            None => "None"@,
        }) + "\n"@
    }
}

impl ParticipantMessageData {
    /// The message in the data of a participant.
    pub fn from_participant_data(p: &ParticipantData) -> (r: ParticipantMessageData)
        ensures
            r@ == p@.message_data(),
    {
        ParticipantMessageData {
            id: p.id,
            public_key: p.public_blind_excess,
            message: copy_optional_text(&p.message),
            message_sig: p.message_sig,
        }
    }

    /// The message as text: who sent it, its key, the message and its signature,
    /// each on a line.
    pub fn to_text(&self) -> (r: String)
        ensures
            r@ == self@.text(),
    {
        let mut out: String = "\n".to_string();
        out.append("Participant ID ");
        out.append(decimal_text(self.id).as_str());
        out.append(" ");
        if self.id == 0 {
            out.append("(Sender)\n");
        } else {
            out.append("(Recipient)\n");
        }
        out.append("---------------------\n");
        out.append("Public Key: ");
        out.append(hex_text(self.public_key.as_slice()).as_str());
        out.append("\n");
        out.append("Message: ");
        match &self.message {
            None => out.append("None"),
            Some(m) => out.append(m.as_str()),
        }
        out.append("\n");
        out.append("Message Signature: ");
        match &self.message_sig {
            None => out.append("None"),
            Some(m) => out.append(hex_text(m.as_slice()).as_str()),
        }
        out.append("\n");
        out
    }
}

/// The messages of all participants.
#[derive(Debug)]
pub struct ParticipantMessages {
    /// The messages, in the order of the participants.
    pub messages: Vec<ParticipantMessageData>,
}

impl View for ParticipantMessages {
    type V = Seq<MessageView>;

    open spec fn view(&self) -> Seq<MessageView> {
        self.messages@.map_values(|m: ParticipantMessageData| m@)
    }
}

impl Clone for ParticipantMessages {
    fn clone(&self) -> (r: ParticipantMessages)
        ensures
            r@ == self@,
    {
        let messages: Vec<ParticipantMessageData> = self.messages.clone();
        assert(messages@ =~= self.messages@);
        ParticipantMessages { messages }
    }
}

} // verus!
