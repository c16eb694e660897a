//! An envelope as text for a reader: one line for each field, then the
//! payload as JSON.

use vstd::prelude::*;
use vstd::string::StrSliceExecFns;
use vstd::string::StringExecFns;
use crate::envelope::{Envelope, EnvelopeView};
use crate::error::GxtError;
use crate::payload::{encodable, json_pretty, json_text};
use crate::text::decimal_text;

verus! {

/// The first eight characters of `text`, or all of it where it has fewer.
pub open spec fn short(text: Seq<char>) -> Seq<char> {
    if text.len() <= 8 {
        text
    } else {
        text.subrange(0, 8)
    }
}

/// A hex string followed by its short form in brackets.
pub open spec fn with_short(text: Seq<char>) -> Seq<char> {
    text + " ("@ + short(text) + ")"@
}

/// The text of an envelope whose payload is written as `payload`.
pub open spec fn listing(envelope: EnvelopeView, payload: Seq<char>) -> Seq<char> {
    "valid           : true\n"@ + "version         : "@ + decimal_text(envelope.version as nat)
        + "\n"@ + "parent          : "@ + (match envelope.parent {
        Some(parent) => with_short(parent),
        None => "-"@,
    }) + "\n"@ + "id              : "@ + with_short(envelope.id) + "\n"@ + "verification key: "@
        + with_short(envelope.verification_key) + "\n"@ + "encryption key  : "@ + with_short(
        envelope.encryption_key,
    ) + "\n"@ + "kind            : "@ + envelope.kind.text() + "\n"@ + "payload:\n"@ + payload
        + "\n"@
}

/// The text of an envelope, or the failure where its payload cannot be
/// encoded or cannot be written as JSON.
pub open spec fn listed(envelope: EnvelopeView) -> Result<Seq<char>, GxtError> {
    if !encodable(envelope.payload) {
        Err(GxtError::Cbor)
    } else {
        match json_text(envelope.payload) {
            Some(payload) => Ok(listing(envelope, payload)),
            None => Err(GxtError::Json),
        }
    }
}

/// The decimal text of a small number.
pub fn decimal(n: u8) -> (text: String)
    ensures
        text@ == decimal_text(n as nat),
{
    crate::text::decimal(n as usize)
}

/// The first eight characters of `text`, or all of it where it has fewer.
pub fn shorten(text: &str) -> (head: &str)
    ensures
        head@ == short(text@),
{
    if text.unicode_len() <= 8 {
        text
    } else {
        text.substring_char(0, 8)
    }
}

/// Appends a hex string followed by its short form in brackets.
fn append_with_short(out: &mut String, text: &str)
    ensures
        final(out)@ == old(out)@ + with_short(text@),
{
    out.append(text);
    out.append(" (");
    out.append(shorten(text));
    out.append(")");
    assert(out@ =~= old(out)@ + with_short(text@));
}

impl Envelope {
    /// The envelope as text for a reader: one line for each field, with the
    /// first eight characters of every id and key repeated in brackets, then
    /// the payload as JSON.
    pub fn to_string(&self) -> (text: Result<String, GxtError>)
        ensures
            crate::codec::text_outcome(text) == listed(self@),
    {
        if !self.payload.is_encodable() {
            return Err(GxtError::Cbor);
        }
        match json_pretty(&self.payload) {
            None => Err(GxtError::Json),
            Some(payload) => Ok(self.list_with(payload.as_str())),
        }
    }

    /// The envelope as text for a reader, with the payload written as the
    /// caller gives it: one line for each field, with the first eight
    /// characters of every id and key repeated in brackets, then `payload`.
    pub fn list_with(&self, payload: &str) -> (text: String)
        ensures
            text@ == listing(self@, payload@),
    {
        let mut out = String::from_str("valid           : true\n");
        out.append("version         : ");
        out.append(decimal(self.version).as_str());
        out.append("\n");
        out.append("parent          : ");
        match &self.parent {
            Some(parent) => {
                append_with_short(&mut out, parent.as_str());
            },
            None => {
                out.append("-");
            },
        }
        out.append("\n");
        out.append("id              : ");
        append_with_short(&mut out, self.id.as_str());
        out.append("\n");
        out.append("verification key: ");
        append_with_short(&mut out, self.verification_key.as_str());
        out.append("\n");
        out.append("encryption key  : ");
        append_with_short(&mut out, self.encryption_key.as_str());
        out.append("\n");
        out.append("kind            : ");
        out.append(self.kind.to_string().as_str());
        out.append("\n");
        out.append("payload:\n");
        out.append(payload);
        out.append("\n");
        assert(out@ =~= listing(self@, payload@));
        out
    }
}

} // verus!
