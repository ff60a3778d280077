//! The versioned envelope that carries every protocol message.
use vstd::prelude::*;

use crate::ids::{fresh_uuid_v4, is_uuid_v4_text};
use crate::json::{json_string_literal, opt_text, quote};
use crate::kinds;
use crate::text::{decimal, decimal_text, is_blank, is_blank_text, is_white_space};
use crate::{MAX_FRAME_BYTES, PROTOCOL_VERSION};

verus! {

/// A protocol message: version, identity, kind, the request it answers (if
/// any) and the payload, held as JSON text.
#[derive(Debug, Clone, PartialEq)]
pub struct Envelope {
    pub version: u16,
    pub id: String,
    pub kind: String,
    pub correlation_id: Option<String>,
    /// The payload as JSON text (`null` where a frame carries none).
    pub payload: String,
}

/// The mathematical content of an [`Envelope`].
pub struct EnvelopeView {
    pub version: u16,
    pub id: Seq<char>,
    pub kind: Seq<char>,
    pub correlation_id: Option<Seq<char>>,
    pub payload: Seq<char>,
}

impl View for Envelope {
    type V = EnvelopeView;

    open spec fn view(&self) -> EnvelopeView {
        EnvelopeView {
            version: self.version,
            id: self.id@,
            kind: self.kind@,
            correlation_id: opt_text(self.correlation_id),
            payload: self.payload@,
        }
    }
}

/// The message for an envelope of another protocol version.
pub open spec fn version_message(version: u16) -> Seq<char> {
    "unsupported protocol version "@ + decimal(version as nat) + "; expected "@ + decimal(
        PROTOCOL_VERSION as nat,
    )
}

/// What is wrong with an envelope, checked in this order; `None` when it is valid.
pub open spec fn envelope_problem(e: EnvelopeView) -> Option<Seq<char>> {
    if e.version != PROTOCOL_VERSION {
        Some(version_message(e.version))
    } else if is_blank_text(e.id) {
        Some("envelope id is empty"@)
    } else if is_blank_text(e.kind) {
        Some("envelope kind is empty"@)
    } else if e.correlation_id matches Some(c) && is_blank_text(c) {
        Some("correlation_id cannot be empty"@)
    } else {
        None
    }
}

/// What makes an envelope valid, said over its fields: protocol version 1,
/// an id and a kind that are not blank, and no blank correlation id.
pub open spec fn is_valid_envelope(e: EnvelopeView) -> bool {
    &&& e.version == PROTOCOL_VERSION
    &&& !is_blank_text(e.id)
    &&& !is_blank_text(e.kind)
    &&& (e.correlation_id matches Some(c) ==> !is_blank_text(c))
}

/// The problem that a check reported, `None` for success.
pub open spec fn check_outcome(r: Result<(), String>) -> Option<Seq<char>> {
    match r {
        Ok(_) => None,
        Err(e) => Some(e@),
    }
}


/// A parsed envelope, or the message of the failure.
pub open spec fn envelope_outcome(r: Result<Envelope, String>) -> Result<EnvelopeView, Seq<char>> {
    match r {
        Ok(e) => Ok(e@),
        Err(s) => Err(s@),
    }
}

/// What decoding a frame of `len` bytes gives when parsing it as an envelope
/// gave `parsed`: frames over [`MAX_FRAME_BYTES`] are refused whatever they
/// hold; a parse failure is passed on; a parsed envelope must be valid.
pub open spec fn decode_envelope(len: nat, parsed: Result<EnvelopeView, Seq<char>>) -> Result<
    EnvelopeView,
    Seq<char>,
> {
    if len > MAX_FRAME_BYTES {
        Err(frame_too_large_message())
    } else {
        match parsed {
            Err(e) => Err(e),
            Ok(env) => match envelope_problem(env) {
                Some(p) => Err(p),
                None => Ok(env),
            },
        }
    }
}

/// The message for a frame over the size bound.
pub open spec fn frame_too_large_message() -> Seq<char> {
    "frame_too_large"@
}

/// Refuses frames over [`MAX_FRAME_BYTES`].
pub fn check_frame_size(data: &[u8]) -> (r: Result<(), String>)
    ensures
        check_outcome(r) == (if data@.len() > MAX_FRAME_BYTES {
            Some(frame_too_large_message())
        } else {
            None
        }),
{
    if data.len() > MAX_FRAME_BYTES {
        Err(String::from_str("frame_too_large"))
    } else {
        Ok(())
    }

}

/// The payload of an error envelope: the JSON object with members `code` and
/// `message`, as serde_json writes an `ErrorPayload`.
pub open spec fn error_payload_text(code: Seq<char>, message: Seq<char>) -> Seq<char> {
    "{\"code\":"@ + json_string_literal(code) + ",\"message\":"@ + json_string_literal(message)
        + "}"@
}

/// The text of an optional string slice.
pub open spec fn opt_str_text(o: Option<&str>) -> Option<Seq<char>> {
    match o {
        Some(s) => Some(s@),
        None => None,
    }
}

impl Envelope {
    /// Checks the protocol version and that id, kind and a present
    /// correlation id are not blank.
    pub fn validate(&self) -> (r: Result<(), String>)
        ensures
            check_outcome(r) == envelope_problem(self@),
            r is Ok <==> is_valid_envelope(self@),
            self.version == PROTOCOL_VERSION && is_blank_text(self.id@) ==> (r matches Err(m)
                && m@ == "envelope id is empty"@),
    {
        if self.version != PROTOCOL_VERSION {
            let mut msg = String::from_str("unsupported protocol version ");
            let v = decimal_text(self.version);
            msg.append(v.as_str());
            msg.append("; expected ");
            let expected = decimal_text(PROTOCOL_VERSION);
            msg.append(expected.as_str());
            return Err(msg);
        }
        if is_blank(self.id.as_str()) {
            return Err(String::from_str("envelope id is empty"));
        }
        if is_blank(self.kind.as_str()) {
            return Err(String::from_str("envelope kind is empty"));
        }
        match &self.correlation_id {
            Some(c) => {
                if is_blank(c.as_str()) {
                    return Err(String::from_str("correlation_id cannot be empty"));
                }
            },
            None => {},
        }
        Ok(())
    }

    /// Decodes one frame, `data`, given what parsing it as an envelope gave
    /// (`parsed`; the parse is serde's, in the application layer). The frame is
    /// refused when it is over [`MAX_FRAME_BYTES`], whatever `parsed` holds;
    /// otherwise a parse failure is passed on, and a parsed envelope is
    /// returned when it validates.
    pub fn decode(data: &[u8], parsed: Result<Envelope, String>) -> (r: Result<Envelope, String>)
        ensures
            envelope_outcome(r) == decode_envelope(data@.len(), envelope_outcome(parsed)),
            r matches Ok(e) ==> parsed == Ok::<Envelope, String>(e),
            r is Ok <==> (data@.len() <= MAX_FRAME_BYTES && parsed is Ok && is_valid_envelope(
                parsed->Ok_0@,
            )),
    {
        match check_frame_size(data) {
            Ok(()) => {},
            Err(e) => return Err(e),
        }
        let envelope = match parsed {
            Ok(env) => env,
            Err(e) => return Err(e),
        };
        match envelope.validate() {
            Ok(()) => Ok(envelope),
            Err(e) => Err(e),
        }
    }

    /// A new envelope: the protocol version, a fresh random id, the given kind
    /// and payload (JSON text), and no correlation id.
    pub fn new(kind: String, payload: String) -> (e: Envelope)
        ensures
            e.version == PROTOCOL_VERSION,
            is_uuid_v4_text(e.id@),
            e.kind == kind,
            e.correlation_id is None,
            e.payload == payload,
            !is_blank_text(kind@) ==> envelope_problem(e@) is None,
    {
        let id = fresh_uuid_v4();
        proof {
            crate::ids::lemma_uuid_text_not_blank(id@);
        }
        Envelope { version: PROTOCOL_VERSION, id, kind, correlation_id: None, payload }
    }

    /// A new envelope that answers the request with id `request_id`.
    pub fn response(kind: String, request_id: String, payload: String) -> (e: Envelope)
        ensures
            e.version == PROTOCOL_VERSION,
            is_uuid_v4_text(e.id@),
            e.kind == kind,
            e.correlation_id == Some(request_id),
            e.payload == payload,
            !is_blank_text(kind@) && !is_blank_text(request_id@) ==> envelope_problem(e@) is None,
    {
        let mut envelope = Envelope::new(kind, payload);
        envelope.correlation_id = Some(request_id);
        envelope
    }

    /// A `system.error` envelope carrying `code` and `message`, answering
    /// `request_id` when one is given.
    pub fn error(request_id: Option<&str>, code: &str, message: &str) -> (e: Envelope)
        ensures
            e.version == PROTOCOL_VERSION,
            is_uuid_v4_text(e.id@),
            e.kind@ == kinds::SYSTEM_ERROR@,
            opt_text(e.correlation_id) == opt_str_text(request_id),
            request_id is None ==> e.correlation_id is None,
            request_id matches Some(id) ==> (e.correlation_id matches Some(c) && c@ == id@),
            e.payload@ == error_payload_text(code@, message@),
            e.payload@ == "{\"code\":"@ + json_string_literal(code@) + ",\"message\":"@
                + json_string_literal(message@) + "}"@,
            (request_id matches Some(r) ==> !is_blank_text(r@)) ==> envelope_problem(e@) is None,
    {
        let id = fresh_uuid_v4();
        proof {
            crate::ids::lemma_uuid_text_not_blank(id@);
            reveal_strlit("system.error");
            assert(!is_white_space(kinds::SYSTEM_ERROR@[0]));
        }
        let correlation_id = match request_id {
            Some(r) => Some(String::from_str(r)),
            None => None,
        };
        let mut payload = String::from_str("{\"code\":");
        let c = quote(code);
        payload.append(c.as_str());
        payload.append(",\"message\":");
        let m = quote(message);
        payload.append(m.as_str());
        payload.append("}");
        Envelope {
            version: PROTOCOL_VERSION,
            id,
            kind: String::from_str(kinds::SYSTEM_ERROR),
            correlation_id,
            payload,
        }
    }
}

} // verus!
