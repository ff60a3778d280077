//! An envelope together with the token that authenticates it.
use vstd::prelude::*;

use crate::envelope::{
    check_frame_size, envelope_problem, is_valid_envelope, frame_too_large_message, Envelope, EnvelopeView,
};
use crate::text::{is_blank, is_blank_text};
use crate::MAX_FRAME_BYTES;

verus! {

/// An envelope sent with the token that authenticates its sender.
#[derive(Clone, PartialEq)]
pub struct AuthenticatedFrame {
    pub token: String,
    pub envelope: Envelope,
}

/// The mathematical content of an [`AuthenticatedFrame`].
pub struct FrameView {
    pub token: Seq<char>,
    pub envelope: EnvelopeView,
}

impl View for AuthenticatedFrame {
    type V = FrameView;

    open spec fn view(&self) -> FrameView {
        FrameView { token: self.token@, envelope: self.envelope@ }
    }
}

/// The message for a blank token.
pub open spec fn empty_token_message() -> Seq<char> {
    "authentication token is empty"@
}

/// What is wrong with a token and an envelope, the token first; `None` when
/// both are acceptable.
pub open spec fn frame_problem(token: Seq<char>, envelope: EnvelopeView) -> Option<Seq<char>> {
    if is_blank_text(token) {
        Some(empty_token_message())
    } else {
        envelope_problem(envelope)
    }
}

/// A frame, or the message of the failure.
pub open spec fn frame_outcome(r: Result<AuthenticatedFrame, String>) -> Result<
    FrameView,
    Seq<char>,
> {
    match r {
        Ok(f) => Ok(f@),
        Err(s) => Err(s@),
    }
}

/// What decoding a frame of `len` bytes gives when parsing it as an
/// authenticated frame gave `parsed`: frames over [`MAX_FRAME_BYTES`] are
/// refused whatever they hold; a parse failure is passed on; a parsed frame
/// must have a token that is not blank and an envelope that validates.
pub open spec fn decode_frame(len: nat, parsed: Result<FrameView, Seq<char>>) -> Result<
    FrameView,
    Seq<char>,
> {
    if len > MAX_FRAME_BYTES {
        Err(frame_too_large_message())
    } else {
        match parsed {
            Err(e) => Err(e),
            Ok(f) => match frame_problem(f.token, f.envelope) {
                Some(p) => Err(p),
                None => Ok(f),
            },
        }
    }
}

impl AuthenticatedFrame {
    /// Pairs a token with an envelope; refuses a blank token, then an
    /// envelope that does not validate.
    pub fn new(token: String, envelope: Envelope) -> (r: Result<AuthenticatedFrame, String>)
        ensures
            match frame_problem(token@, envelope@) {
                Some(p) => r matches Err(e) && e@ == p,
                None => r matches Ok(f) && f.token == token && f.envelope == envelope,
            },
            r is Ok <==> (!is_blank_text(token@) && is_valid_envelope(envelope@)),
    {
        if is_blank(token.as_str()) {
            return Err(String::from_str("authentication token is empty"));
        }
        match envelope.validate() {
            Ok(()) => {},
            Err(e) => return Err(e),
        }
        Ok(AuthenticatedFrame { token, envelope })
    }

    /// Decodes one authenticated frame, `data`, given what parsing it as a
    /// frame gave (`parsed`; the parse is serde's, in the application layer).
    /// The frame is refused when it is over [`MAX_FRAME_BYTES`], whatever
    /// `parsed` holds; otherwise a parse failure is passed on, then a blank
    /// token and an envelope that does not validate are refused.
    pub fn decode(data: &[u8], parsed: Result<AuthenticatedFrame, String>) -> (r: Result<
        AuthenticatedFrame,
        String,
    >)
        ensures
            frame_outcome(r) == decode_frame(data@.len(), frame_outcome(parsed)),
            r matches Ok(f) ==> parsed == Ok::<AuthenticatedFrame, String>(f),
            r is Ok <==> (data@.len() <= MAX_FRAME_BYTES && parsed is Ok && !is_blank_text(
                parsed->Ok_0.token@,
            ) && is_valid_envelope(parsed->Ok_0.envelope@)),
    {
        match check_frame_size(data) {
            Ok(()) => {},
            Err(e) => return Err(e),
        }
        let frame = match parsed {
            Ok(f) => f,
            Err(e) => return Err(e),
        };
        if is_blank(frame.token.as_str()) {
            return Err(String::from_str("authentication token is empty"));
        }
        match frame.envelope.validate() {
            Ok(()) => Ok(frame),
            Err(e) => Err(e),
        }
    }
}

} // verus!
