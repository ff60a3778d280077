//! Properties that hold across the decoding and validation functions.
use vstd::prelude::*;

use crate::envelope::{
    decode_envelope, envelope_problem, error_payload_text, frame_too_large_message,
    is_valid_envelope, version_message, EnvelopeView,
};
use crate::json::{json_string_literal, lemma_escaped_then_quote_unique};
use crate::frame::{decode_frame, empty_token_message, frame_problem, FrameView};
use crate::text::{decimal, is_blank_text};
use crate::{MAX_FRAME_BYTES, PROTOCOL_VERSION};

verus! {

/// A frame over the size bound is refused as too large, whatever parsing it
/// gave, both as an envelope and as an authenticated frame.
pub proof fn lemma_oversized_frames_are_refused(
    len: nat,
    parsed_envelope: Result<EnvelopeView, Seq<char>>,
    parsed_frame: Result<FrameView, Seq<char>>,
)
    requires
        len > MAX_FRAME_BYTES,
    ensures
        decode_envelope(len, parsed_envelope) == Err::<EnvelopeView, Seq<char>>(
            frame_too_large_message(),
        ),
        decode_frame(len, parsed_frame) == Err::<FrameView, Seq<char>>(frame_too_large_message()),
{
}

/// Every envelope that decoding returns passes validation.
pub proof fn lemma_decoded_envelopes_are_valid(len: nat, parsed: Result<EnvelopeView, Seq<char>>)
    ensures
        decode_envelope(len, parsed) matches Ok(e) ==> envelope_problem(e) is None,
{
}

/// Every frame that decoding returns has a token that is not blank and an
/// envelope that passes validation: it is a frame that `AuthenticatedFrame::new` accepts.
pub proof fn lemma_decoded_frames_are_acceptable(len: nat, parsed: Result<FrameView, Seq<char>>)
    ensures
        decode_frame(len, parsed) matches Ok(f) ==> {
            &&& !is_blank_text(f.token)
            &&& envelope_problem(f.envelope) is None
            &&& frame_problem(f.token, f.envelope) is None
        },
{
}

/// Within the size bound, decoding gives back exactly the envelope that the
/// parse produced when it is valid, and passes a parse failure on unchanged.
pub proof fn lemma_decode_keeps_what_was_parsed(len: nat, parsed: Result<EnvelopeView, Seq<char>>)
    requires
        len <= MAX_FRAME_BYTES,
    ensures
        parsed matches Ok(e) && envelope_problem(e) is None ==> decode_envelope(len, parsed)
            == parsed,
        parsed is Err ==> decode_envelope(len, parsed) == parsed,
{
}

/// Within the size bound, decoding gives back exactly the frame that the
/// parse produced when `AuthenticatedFrame::new` would accept its parts, and
/// passes a parse failure on unchanged.
pub proof fn lemma_frame_decode_keeps_what_was_parsed(
    len: nat,
    parsed: Result<FrameView, Seq<char>>,
)
    requires
        len <= MAX_FRAME_BYTES,
    ensures
        parsed matches Ok(f) && frame_problem(f.token, f.envelope) is None ==> decode_frame(
            len,
            parsed,
        ) == parsed,
        parsed is Err ==> decode_frame(len, parsed) == parsed,
{
}

/// Validation refuses any envelope of another protocol version, before it
/// looks at anything else.
pub proof fn lemma_other_versions_are_refused(e: EnvelopeView)
    requires
        e.version != PROTOCOL_VERSION,
    ensures
        envelope_problem(e) == Some(version_message(e.version)),
        envelope_problem(e) == Some(
            "unsupported protocol version "@ + decimal(e.version as nat) + "; expected 1"@,
        ),
{
    reveal_strlit("1");
    reveal_strlit("; expected ");
    reveal_strlit("; expected 1");
    assert(decimal(1) =~= "1"@);
    let head = "unsupported protocol version "@ + decimal(e.version as nat);
    assert(head + "; expected "@ + decimal(1) =~= head + "; expected 1"@);
}

/// A token and an envelope make a frame exactly when the token is not blank
/// and the envelope is valid; a blank token is reported before the envelope.
pub proof fn lemma_frames_need_token_and_valid_envelope(token: Seq<char>, e: EnvelopeView)
    ensures
        frame_problem(token, e) is None <==> (!is_blank_text(token) && envelope_problem(e) is None),
        is_blank_text(token) ==> frame_problem(token, e) == Some(empty_token_message()),
{
}

/// Validation accepts an envelope exactly when its version is 1, its id and
/// kind are not blank and a correlation id, if present, is not blank.
pub proof fn lemma_validation_accepts_exactly_valid(e: EnvelopeView)
    ensures
        envelope_problem(e) is None <==> is_valid_envelope(e),
{
}

/// An envelope of the current version with a blank id is refused as having an
/// empty id, whatever its kind and correlation id.
pub proof fn lemma_blank_id_is_refused(e: EnvelopeView)
    requires
        e.version == PROTOCOL_VERSION,
        is_blank_text(e.id),
    ensures
        envelope_problem(e) == Some("envelope id is empty"@),
{
}

/// An envelope of the current version with an id but a blank kind is refused
/// as having an empty kind, whatever its correlation id.
pub proof fn lemma_blank_kind_is_refused(e: EnvelopeView)
    requires
        e.version == PROTOCOL_VERSION,
        !is_blank_text(e.id),
        is_blank_text(e.kind),
    ensures
        envelope_problem(e) == Some("envelope kind is empty"@),
{
}

/// An envelope of the current version with an id and a kind but a present,
/// blank correlation id is refused for it.
pub proof fn lemma_blank_correlation_is_refused(e: EnvelopeView, c: Seq<char>)
    requires
        e.version == PROTOCOL_VERSION,
        !is_blank_text(e.id),
        !is_blank_text(e.kind),
        e.correlation_id == Some(c),
        is_blank_text(c),
    ensures
        envelope_problem(e) == Some("correlation_id cannot be empty"@),
{
}

/// Decoding never makes up an envelope: whatever it returns is exactly the
/// envelope that was parsed.
pub proof fn lemma_decode_returns_the_parsed_envelope(
    len: nat,
    parsed: Result<EnvelopeView, Seq<char>>,
)
    ensures
        decode_envelope(len, parsed) matches Ok(e) ==> parsed == Ok::<EnvelopeView, Seq<char>>(e),
{
}

/// A parsed envelope is accepted exactly when the frame is within the bound
/// and the envelope is valid; within the bound, an invalid one is refused with
/// the message validation gives for it.
pub proof fn lemma_decode_accepts_exactly_valid_envelopes(len: nat, e: EnvelopeView)
    ensures
        decode_envelope(len, Ok(e)) is Ok <==> (len <= MAX_FRAME_BYTES && is_valid_envelope(e)),
        len <= MAX_FRAME_BYTES && !is_valid_envelope(e) ==> decode_envelope(len, Ok(e)) == Err::<
            EnvelopeView,
            Seq<char>,
        >(envelope_problem(e)->0),
{
}

/// Decoding a frame never makes up a frame: whatever it returns is exactly the
/// frame that was parsed.
pub proof fn lemma_frame_decode_returns_the_parsed_frame(
    len: nat,
    parsed: Result<FrameView, Seq<char>>,
)
    ensures
        decode_frame(len, parsed) matches Ok(f) ==> parsed == Ok::<FrameView, Seq<char>>(f),
{
}

/// A parsed frame is accepted exactly when the frame is within the bound, its
/// token is not blank and its envelope is valid. Within the bound, a frame with
/// a token whose envelope has another version is refused for the version.
pub proof fn lemma_frame_decode_accepts_exactly_valid_frames(len: nat, f: FrameView)
    ensures
        decode_frame(len, Ok(f)) is Ok <==> (len <= MAX_FRAME_BYTES && !is_blank_text(f.token)
            && is_valid_envelope(f.envelope)),
        len <= MAX_FRAME_BYTES && !is_blank_text(f.token) && f.envelope.version != PROTOCOL_VERSION
            ==> decode_frame(len, Ok(f)) == Err::<FrameView, Seq<char>>(
            version_message(f.envelope.version),
        ),
{
}

/// The payload of an error envelope determines its code and its message: two
/// error payloads are equal only when both codes and both messages are.
pub proof fn lemma_error_payload_keeps_code_and_message(
    code1: Seq<char>,
    message1: Seq<char>,
    code2: Seq<char>,
    message2: Seq<char>,
)
    requires
        error_payload_text(code1, message1) == error_payload_text(code2, message2),
    ensures
        code1 == code2,
        message1 == message2,
{
    reveal_strlit("{\"code\":");
    reveal_strlit(",\"message\":");
    reveal_strlit("}");
    let head = "{\"code\":"@;
    let mid = ",\"message\":"@;
    let tail = "}"@;
    let p1 = error_payload_text(code1, message1);
    let p2 = error_payload_text(code2, message2);
    let rest1 = seq!['"'] + mid + json_string_literal(message1) + tail;
    let rest2 = seq!['"'] + mid + json_string_literal(message2) + tail;
    assert(p1 =~= head + seq!['"'] + (crate::json::json_escaped(code1) + rest1));
    assert(p2 =~= head + seq!['"'] + (crate::json::json_escaped(code2) + rest2));
    let n = head.len() + 1;
    assert(p1.subrange(n as int, p1.len() as int) =~= crate::json::json_escaped(code1) + rest1);
    assert(p2.subrange(n as int, p2.len() as int) =~= crate::json::json_escaped(code2) + rest2);
    lemma_escaped_then_quote_unique(code1, rest1, code2, rest2);
    let m = 1 + mid.len() + 1;
    let end1 = seq!['"'] + tail;
    let end2 = seq!['"'] + tail;
    assert(rest1 =~= seq!['"'] + mid + seq!['"'] + (crate::json::json_escaped(message1) + end1));
    assert(rest2 =~= seq!['"'] + mid + seq!['"'] + (crate::json::json_escaped(message2) + end2));
    assert(rest1.subrange(m as int, rest1.len() as int) =~= crate::json::json_escaped(message1)
        + end1);
    assert(rest2.subrange(m as int, rest2.len() as int) =~= crate::json::json_escaped(message2)
        + end2);
    lemma_escaped_then_quote_unique(message1, end1, message2, end2);
}

} // verus!
