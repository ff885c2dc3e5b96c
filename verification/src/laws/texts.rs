//! Numbers, bytes and messages as text.
use crate::participant::ParticipantMessageData;
use vstd::prelude::*;

verus! {

/// The character is a decimal digit.
pub open spec fn is_decimal_digit(c: char) -> bool {
    '0' <= c <= '9'
}

/// The number that decimal digits write.
pub open spec fn decimal_value(digits: Seq<char>) -> int
    decreases digits.len(),
{
    if digits.len() == 0 {
        0
    } else {
        decimal_value(digits.drop_last()) * 10 + (digits.last() as int - '0' as int)
    }
}

/// The text is a number in decimal: digits without leading zeros that write it.
pub open spec fn writes_number(text: Seq<char>, n: int) -> bool {
    &&& text.len() > 0
    &&& forall|i: int| 0 <= i < text.len() ==> is_decimal_digit(#[trigger] text[i])
    &&& text.len() > 1 ==> text[0] != '0'
    &&& decimal_value(text) == n
}

proof fn lemma_decimal(n: nat)
    ensures
        writes_number(crate::text::decimal(n), n as int),
        n > 0 ==> crate::text::decimal(n)[0] != '0',
    decreases n,
{
    let text = crate::text::decimal(n);
    if n < 10 {
        assert(text.drop_last() =~= seq![]);
        assert(decimal_value(text.drop_last()) == 0);
        assert(decimal_value(text) == n);
    } else {
        let rest = crate::text::decimal(n / 10);
        lemma_decimal(n / 10);
        assert(text.drop_last() =~= rest);
        assert(text.last() as int - '0' as int == n % 10);
        assert(decimal_value(text) == (n / 10) * 10 + n % 10);
        assert forall|i: int| 0 <= i < text.len() implies is_decimal_digit(#[trigger] text[i]) by {
            if i < rest.len() {
                assert(is_decimal_digit(rest[i]));
            }
        }
        assert(text[0] == rest[0]);
    }
}

/// A number in decimal reads back as the number.
pub proof fn law_decimal(n: u64, r: String)
    requires
        call_ensures(crate::text::decimal_text, (n,), r),
    ensures
        writes_number(r@, n as int),
{
    lemma_decimal(n as nat);
}

/// The value of a hexadecimal digit in lower case, or -1.
pub open spec fn hex_value(c: char) -> int {
    if '0' <= c <= '9' {
        c as int - '0' as int
    } else if 'a' <= c <= 'f' {
        c as int - 'a' as int + 10
    } else {
        -1
    }
}

/// Bytes in hexadecimal are two digits for each byte, in order, that write it.
pub proof fn law_hexadecimal(bytes: Seq<u8>)
    ensures
        crate::text::hexadecimal(bytes).len() == 2 * bytes.len(),
        forall|i: int|
            0 <= i < bytes.len() ==> {
                let high = crate::text::hexadecimal(bytes)[2 * i];
                let low = crate::text::hexadecimal(bytes)[2 * i + 1];
                &&& 0 <= hex_value(high) < 16
                &&& 0 <= hex_value(low) < 16
                &&& hex_value(high) * 16 + hex_value(low) == #[trigger] bytes[i]
            },
{
    let text = crate::text::hexadecimal(bytes);
    assert forall|i: int| 0 <= i < bytes.len() implies {
        let high = text[2 * i];
        let low = text[2 * i + 1];
        &&& 0 <= hex_value(high) < 16
        &&& 0 <= hex_value(low) < 16
        &&& hex_value(high) * 16 + hex_value(low) == #[trigger] bytes[i]
    } by {
        assert((2 * i) % 2 == 0 && (2 * i) / 2 == i);
        assert((2 * i + 1) % 2 == 1 && (2 * i + 1) / 2 == i);
        let b = bytes[i] as int;
        assert(text[2 * i] == crate::text::digit(b / 16));
        assert(text[2 * i + 1] == crate::text::digit(b % 16));
        lemma_digit(b / 16);
        lemma_digit(b % 16);
    }
}

proof fn lemma_digit(d: int)
    requires
        0 <= d < 16,
    ensures
        hex_value(crate::text::digit(d)) == d,
{
}

/// A message is shown in lines: who sent it, a rule, the key, the message and its signature,
/// where a message or a signature that is not there is shown as none. The participant with the
/// id 0 is the sender, and any other the recipient.
pub proof fn law_message_text(m: ParticipantMessageData, r: String)
    requires
        call_ensures(ParticipantMessageData::to_text, (&m,), r),
    ensures
        ({
            let role = if m.id == 0 {
                "(Sender)\n"@
            } else {
                "(Recipient)\n"@
            };
            let message = match m.message {
                Some(text) => text@,
                None => "None"@,
            };
            let signature = match m.message_sig {
                Some(bytes) => crate::text::hexadecimal(bytes@),
                None => "None"@,
            };
            let who = "Participant ID "@ + crate::text::decimal(m.id as nat) + " "@ + role;
            let key = "Public Key: "@ + crate::text::hexadecimal(m.public_key@) + "\n"@;
            r@ == "\n"@ + who + "---------------------\n"@ + key + ("Message: "@ + message
                + "\n"@) + ("Message Signature: "@ + signature + "\n"@)
        }),
{
    let role = if m.id == 0 {
        "(Sender)\n"@
    } else {
        "(Recipient)\n"@
    };
    let message = match m.message {
        Some(text) => text@,
        None => "None"@,
    };
    let signature = match m.message_sig {
        Some(bytes) => crate::text::hexadecimal(bytes@),
        None => "None"@,
    };
    let who = "Participant ID "@ + crate::text::decimal(m.id as nat) + " "@ + role;
    let key = "Public Key: "@ + crate::text::hexadecimal(m.public_key@) + "\n"@;
    assert(r@ =~= "\n"@ + who + "---------------------\n"@ + key + ("Message: "@ + message + "\n"@)
        + ("Message Signature: "@ + signature + "\n"@));
}

/// The error of a fee that is not covered names the fee and what was received.
pub proof fn law_fee_rejection(fee: &str, received: &str, r: crate::error::SlateError)
    requires
        call_ensures(crate::finalize::fee_rejection, (fee, received), r),
    ensures
        r matches crate::error::SlateError::Fee(text) && text@
            == "Rejected the transfer because transaction fee ("@ + fee@
            + ") exceeds received amount ("@ + received@ + ")."@,
{
}

} // verus!
