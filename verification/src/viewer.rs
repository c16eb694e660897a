//! What a viewer shows: the state behind its window, and how loading a token
//! and opening it with a key change that state. Windows, dialogs and files
//! are left to the caller.

use vstd::prelude::*;
use crate::envelope::{Envelope, EnvelopeView, PayloadKind};
use crate::error::GxtError;
use crate::message::{decrypt_message, decrypted, verified_message, verify_message};
use crate::payload::{encodable, json_pretty, json_text};

verus! {

/// An envelope as a viewer shows it: every field as text, the payload as
/// JSON, a missing parent as empty text.
#[derive(Clone, Debug, PartialEq, Eq)]
pub struct UiEnvelope {
    /// The version of the format.
    pub version: u8,
    /// The signer's public encryption key, as hex.
    pub encryption_key: String,
    /// The content hash of the record, as hex.
    pub id: String,
    /// The name of the payload's kind.
    pub kind: String,
    /// The id of the parent as hex, or empty text.
    pub parent: String,
    /// The payload as JSON.
    pub payload: String,
    /// The signature of the record, as hex.
    pub signature: String,
    /// The signer's verification key, as hex.
    pub verification_key: String,
}

/// What a [`UiEnvelope`] stands for.
pub struct UiEnvelopeView {
    /// The version of the format.
    pub version: u8,
    /// The signer's public encryption key, as hex.
    pub encryption_key: Seq<char>,
    /// The content hash of the record, as hex.
    pub id: Seq<char>,
    /// The name of the payload's kind.
    pub kind: Seq<char>,
    /// The id of the parent as hex, or empty text.
    pub parent: Seq<char>,
    /// The payload as JSON.
    pub payload: Seq<char>,
    /// The signature of the record, as hex.
    pub signature: Seq<char>,
    /// The signer's verification key, as hex.
    pub verification_key: Seq<char>,
}

impl View for UiEnvelope {
    type V = UiEnvelopeView;

    open spec fn view(&self) -> UiEnvelopeView {
        UiEnvelopeView {
            version: self.version,
            encryption_key: self.encryption_key@,
            id: self.id@,
            kind: self.kind@,
            parent: self.parent@,
            payload: self.payload@,
            signature: self.signature@,
            verification_key: self.verification_key@,
        }
    }
}

/// What is behind the window of a viewer.
#[derive(Clone, Debug, PartialEq, Eq)]
pub struct Viewer {
    /// The token that is shown, as it was loaded.
    pub token_text: String,
    /// The envelope that is shown.
    pub envelope: UiEnvelope,
    /// Whether opening the token with a key is on offer.
    pub can_decrypt: bool,
}

/// What a [`Viewer`] stands for.
pub struct ViewerView {
    /// The token that is shown, as it was loaded.
    pub token_text: Seq<char>,
    /// The envelope that is shown.
    pub envelope: UiEnvelopeView,
    /// Whether opening the token with a key is on offer.
    pub can_decrypt: bool,
}

impl View for Viewer {
    type V = ViewerView;

    open spec fn view(&self) -> ViewerView {
        ViewerView {
            token_text: self.token_text@,
            envelope: self.envelope@,
            can_decrypt: self.can_decrypt,
        }
    }
}

/// The envelope as a viewer shows it, or the failure where its payload
/// cannot be encoded or cannot be written as JSON.
pub open spec fn shown(envelope: EnvelopeView) -> Result<UiEnvelopeView, GxtError> {
    if !encodable(envelope.payload) {
        Err(GxtError::Cbor)
    } else {
        match json_text(envelope.payload) {
            None => Err(GxtError::Json),
            Some(payload) => Ok(
                UiEnvelopeView {
                    version: envelope.version,
                    encryption_key: envelope.encryption_key,
                    id: envelope.id,
                    kind: envelope.kind.text(),
                    parent: match envelope.parent {
                        Some(parent) => parent,
                        None => Seq::empty(),
                    },
                    payload,
                    signature: envelope.signature,
                    verification_key: envelope.verification_key,
                },
            ),
        }
    }
}

/// The state after loading `token`: the token is verified, not opened, and
/// opening is on offer for a message.
pub open spec fn loaded(token: Seq<char>) -> Result<ViewerView, GxtError> {
    match verified_message(token) {
        Err(e) => Err(e),
        Ok(envelope) => match shown(envelope) {
            Err(e) => Err(e),
            Ok(ui) => Ok(
                ViewerView {
                    token_text: token,
                    envelope: ui,
                    can_decrypt: envelope.kind == PayloadKind::Msg,
                },
            ),
        },
    }
}

/// The state after opening `token` with `key`: the plaintext is shown, and
/// opening is no longer on offer.
pub open spec fn unlocked(token: Seq<char>, key: Seq<char>) -> Result<ViewerView, GxtError> {
    match decrypted(token, key) {
        Err(e) => Err(e),
        Ok(envelope) => match shown(envelope) {
            Err(e) => Err(e),
            Ok(ui) => Ok(ViewerView { token_text: token, envelope: ui, can_decrypt: false }),
        },
    }
}

/// What a result of a viewer's state stands for.
pub open spec fn viewer_outcome(got: Result<Viewer, GxtError>) -> Result<ViewerView, GxtError> {
    match got {
        Ok(viewer) => Ok(viewer@),
        Err(e) => Err(e),
    }
}

impl UiEnvelope {
    /// Turns an envelope into what a viewer shows of it.
    pub fn from(envelope: Envelope) -> (ui: Result<UiEnvelope, GxtError>)
        ensures
            match ui {
                Ok(u) => shown(envelope@) == Ok::<UiEnvelopeView, GxtError>(u@),
                Err(e) => shown(envelope@) == Err::<UiEnvelopeView, GxtError>(e),
            },
    {
        if !envelope.payload.is_encodable() {
            return Err(GxtError::Cbor);
        }
        let payload = match json_pretty(&envelope.payload) {
            None => {
                return Err(GxtError::Json);
            },
            Some(payload) => payload,
        };
        let parent = match envelope.parent {
            Some(parent) => parent,
            None => String::new(),
        };
        Ok(
            UiEnvelope {
                version: envelope.version,
                encryption_key: envelope.encryption_key,
                id: envelope.id,
                kind: envelope.kind.to_string(),
                parent,
                payload,
                signature: envelope.signature,
                verification_key: envelope.verification_key,
            },
        )
    }
}

impl Viewer {
    /// Loads a token: verifies it and shows its envelope, the payload of a
    /// message still sealed.
    pub fn load(token: String) -> (viewer: Result<Viewer, GxtError>)
        ensures
            viewer_outcome(viewer) == loaded(token@),
    {
        let envelope = verify_message(token.as_str())?;
        let can_decrypt = match envelope.kind {
            PayloadKind::Msg => true,
            PayloadKind::Id => false,
        };
        let ui = UiEnvelope::from(envelope)?;
        Ok(Viewer { token_text: token, envelope: ui, can_decrypt })
    }

    /// Opens the token that is shown with a key, and shows the plaintext.
    pub fn decrypt(&self, key: &str) -> (viewer: Result<Viewer, GxtError>)
        ensures
            viewer_outcome(viewer) == unlocked(self.token_text@, key@),
    {
        let envelope = decrypt_message(self.token_text.as_str(), key)?;
        let ui = UiEnvelope::from(envelope)?;
        Ok(Viewer { token_text: self.token_text.clone(), envelope: ui, can_decrypt: false })
    }

    /// Opens a viewer on a token: with a key the token is opened at once,
    /// without one it is loaded.
    pub fn open(token: String, key: Option<&str>) -> (viewer: Result<Viewer, GxtError>)
        ensures
            viewer_outcome(viewer) == (match key {
                Some(k) => unlocked(token@, k@),
                None => loaded(token@),
            }),
    {
        match key {
            None => Viewer::load(token),
            Some(key) => {
                let envelope = decrypt_message(token.as_str(), key)?;
                let ui = UiEnvelope::from(envelope)?;
                Ok(Viewer { token_text: token, envelope: ui, can_decrypt: false })
            },
        }
    }
}

} // verus!
