//! Slate documents: which version they are in, and the slates they hold.
use crate::error::{SlateError, SlateErrorView};
use crate::slate::{Slate, SlateView, VersionCompatInfo};
use crate::text::decimal_text;
use crate::versions::{SlateV3, SlateV3View};
use vstd::prelude::*;
use vstd::string::*;

verus! {

/// What a document says of its version. The field `version` is that of the first
/// version of the format; later ones have `version_info`.
#[derive(Clone, Copy, Debug)]
pub struct SlateVersionProbe {
    pub version: Option<u64>,
    pub version_info: Option<VersionCompatInfo>,
}

impl SlateVersionProbe {
    /// The version of the document, or zero where it has none.
    pub open spec fn spec_version(self) -> u16 {
        match (self.version_info, self.version) {
            (Some(v), _) => v.version,
            (None, Some(_)) => 1,
            (None, None) => 0,
        }
    }

    /// The version of the document, or zero where it has none.
    pub fn version(&self) -> (r: u16)
        ensures
            r == self.spec_version(),
    {
        match &self.version_info {
            Some(v) => v.version,
            None => match self.version {
                Some(_) => 1,
                None => 0,
            },
        }
    }
}

/// A document as it was read: each field is the document in one layout, or the
/// reason why it does not have that layout.
#[derive(Debug)]
pub struct ParsedSlate {
    /// What the document says of its version.
    pub probe: Result<SlateVersionProbe, String>,
    /// The cutoff height of a document of the second version.
    pub ttl_cutoff_height: Result<Option<u64>, String>,
    /// The document in the second version, brought to the third.
    pub v2: Result<SlateV3, String>,
    /// The document in the third version.
    pub v3: Result<SlateV3, String>,
}

/// A slate in the version in which it is to be written.
#[derive(Debug)]
pub enum VersionedSlate {
    /// To be brought to the second version and written in it.
    V2(SlateV3),
    /// To be written in the third version.
    V3(SlateV3),
}

/// The version of a document from what it says of it.
pub open spec fn document_version(
    slate_json: Seq<char>,
    probe: Result<SlateVersionProbe, String>,
) -> Result<u16, SlateErrorView> {
    match probe {
        Ok(probe) => Ok(probe.spec_version()),
        Err(e) => Err(
            SlateErrorView::SlateVersionParse(
                "Unable to find slate version at "@ + slate_json + ", "@ + e@,
            ),
        ),
    }
}

impl ParsedSlate {
    /// In the version that the document is in, every relative height of a kernel is in
    /// range.
    pub open spec fn valid(self) -> bool {
        match self.probe {
            Ok(probe) => {
                &&& probe.spec_version() == 3 ==> (self.v3 matches Ok(v) ==> v@.tx.body.valid())
                &&& probe.spec_version() == 2 ==> (self.v2 matches Ok(v) ==> v@.tx.body.valid())
            },
            Err(_) => true,
        }
    }

    /// Whether, in the version that the document is in, every relative height of a kernel
    /// is in range.
    pub fn is_valid(&self) -> (r: bool)
        ensures
            r == self.valid(),
    {
        match &self.probe {
            Ok(probe) => match (probe.version(), &self.v2, &self.v3) {
                (3, _, Ok(v3)) => v3.is_valid(),
                (2, Ok(v2), _) => v2.is_valid(),
                _ => true,
            },
            Err(_) => true,
        }
    }

    /// The slate that a document holds. It is read in the version that it is in; the
    /// cutoff height of the second version is read on its own.
    pub open spec fn upgraded(self, slate_json: Seq<char>) -> Result<SlateView, SlateErrorView> {
        match document_version(slate_json, self.probe) {
            Err(e) => Err(e),
            Ok(version) => if version == 3 {
                match self.v3 {
                    Ok(v3) => Ok(v3@.slate()),
                    Err(e) => Err(
                        SlateErrorView::SlateDeser(
                            "Json to SlateV3 conversion failed for "@ + slate_json + ", "@ + e@,
                        ),
                    ),
                }
            } else if version == 2 {
                match self.v2 {
                    Ok(v2) => Ok(
                        SlateV3View {
                            ttl_cutoff_height: match self.ttl_cutoff_height {
                                Ok(height) => height,
                                Err(_) => None,
                            },
                            ..v2@
                        }.slate(),
                    ),
                    Err(e) => Err(
                        SlateErrorView::SlateDeser(
                            "Json to SlateV2 conversion failed for "@ + slate_json + ", "@ + e@,
                        ),
                    ),
                }
            } else {
                Err(SlateErrorView::SlateVersion(version))
            },
        }
    }
}

/// `start`, `document`, a comma and `reason` as one text.
fn failure(start: &str, document: &str, reason: &String) -> (r: String)
    ensures
        r@ == start@ + document@ + ", "@ + reason@,
{
    let mut text: String = start.to_string();
    text.append(document);
    text.append(", ");
    text.append(reason.as_str());
    text
}

/// A text starts with a brace exactly if its encoding starts with the byte of one.
proof fn lemma_first_byte(text: Seq<char>)
    ensures
        vstd::utf8::encode_utf8(text).len() > 0 <==> text.len() > 0,
        text.len() > 0 ==> (vstd::utf8::encode_utf8(text)[0] == 0x7Bu8 <==> text[0] == '{'),
{
    if text.len() > 0 {
        let c = text[0] as u32;
        vstd::utf8::char_is_scalar(text[0]);
        vstd::utf8::char_u32_cast(text[0], c);
        assert(vstd::utf8::encode_utf8(text) == vstd::utf8::encode_scalar(c)
            + vstd::utf8::encode_utf8(text.drop_first()));
        assert(c <= 0x7F ==> ((c & 0x7F) as u8 == 0x7Bu8 <==> c == 0x7B)) by (bit_vector);
        assert(0xC0u8 | ((c >> 6) & 0x1F) as u8 != 0x7Bu8) by (bit_vector);
        assert(0xE0u8 | ((c >> 12) & 0x0F) as u8 != 0x7Bu8) by (bit_vector);
        assert(0xF0u8 | ((c >> 18) & 0x7) as u8 != 0x7Bu8) by (bit_vector);
    }
}

impl Slate {
    /// The version of the document `slate_json`: `probe` is what was read of it, or the
    /// reason why nothing was.
    pub fn parse_slate_version(
        slate_json: &str,
        probe: &Result<SlateVersionProbe, String>,
    ) -> (r: Result<u16, SlateError>)
        ensures
            crate::error::outcome(r) == document_version(slate_json@, *probe),
    {
        match probe {
            Ok(probe) => Ok(probe.version()),
            Err(e) => Err(
                SlateError::SlateVersionParse(
                    failure("Unable to find slate version at ", slate_json, e),
                ),
            ),
        }
    }

    /// Whether a text is a plain document rather than a slatepack: it starts with a brace.
    pub fn deserialize_is_plain(slate_str: &str) -> (r: bool)
        ensures
            r == (slate_str@.len() > 0 && slate_str@[0] == '{'),
    {
        proof {
            lemma_first_byte(slate_str@);
        }
        let bytes: &[u8] = slate_str.as_bytes();
        bytes.len() > 0 && bytes[0] == 0x7B
    }

    /// The slate in the document `slate_json`, brought to the current version: `parsed` is
    /// what was read of the document.
    pub fn deserialize_upgrade_plain(slate_json: &str, parsed: ParsedSlate) -> (r: Result<
        Slate,
        SlateError,
    >)
        requires
            parsed.valid(),
        ensures
            crate::error::outcome(r) == parsed.upgraded(slate_json@),
    {
        let version: u16 = match Slate::parse_slate_version(slate_json, &parsed.probe) {
            Ok(v) => v,
            Err(e) => return Err(e),
        };
        let ttl_cutoff_height: Option<u64> = match parsed.ttl_cutoff_height {
            Ok(height) => height,
            Err(_) => None,
        };
        let v3: SlateV3 = match version {
            3 => match parsed.v3 {
                Ok(v3) => v3,
                Err(e) => return Err(
                    SlateError::SlateDeser(
                        failure("Json to SlateV3 conversion failed for ", slate_json, &e),
                    ),
                ),
            },
            2 => match parsed.v2 {
                Ok(v2) => {
                    let mut ret: SlateV3 = v2;
                    ret.ttl_cutoff_height = ttl_cutoff_height;
                    ret
                },
                Err(e) => return Err(
                    SlateError::SlateDeser(
                        failure("Json to SlateV2 conversion failed for ", slate_json, &e),
                    ),
                ),
            },
            _ => return Err(SlateError::SlateVersion(version)),
        };
        Ok(v3.to_slate())
    }

    /// What a slatepack holds: `decrypt` gets the bytes of the text.
    pub fn deserialize_upgrade_slatepack<P, D>(slate_str: &str, decrypt: D) -> (r: Result<
        P,
        SlateError,
    >) where D: FnOnce(&[u8]) -> Result<P, SlateError>
        requires
            forall|bytes: &[u8]|
                bytes@ == vstd::utf8::encode_utf8(slate_str@) ==> #[trigger] call_requires(
                    decrypt,
                    (bytes,),
                ),
        ensures
            exists|bytes: &[u8]|
                bytes@ == vstd::utf8::encode_utf8(slate_str@) && #[trigger] call_ensures(
                    decrypt,
                    (bytes,),
                    r,
                ),
    {
        decrypt(slate_str.as_bytes())
    }

    /// The slate in the version in which it is to be written, for the network with the
    /// given name; the reason where its version is none that can be written.
    pub fn to_versioned(&self, network_name: &str) -> (r: Result<VersionedSlate, String>)
        ensures
            match r {
                Ok(VersionedSlate::V3(v3)) => self@.version_info.version == 3 && v3@ == self@.to_v3(
                    network_name@,
                ),
                Ok(VersionedSlate::V2(v3)) => self@.version_info.version == 2 && v3@ == self@.to_v3(
                    network_name@,
                ),
                Err(e) => self@.version_info.version != 2 && self@.version_info.version != 3 && e@
                    == "Unknown slate version "@ + crate::text::decimal(
                    self@.version_info.version as nat,
                ),
            },
    {
        let v3: SlateV3 = SlateV3::from_slate(self, network_name);
        match self.version_info.version {
            3 => Ok(VersionedSlate::V3(v3)),
            2 => Ok(VersionedSlate::V2(v3)),
            v => {
                let mut reason: String = "Unknown slate version ".to_string();
                reason.append(decimal_text(v as u64).as_str());
                Err(reason)
            },
        }
    }
}

} // verus!
