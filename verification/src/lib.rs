//! Versioned message envelopes, bounded framing and payload contracts
//! shared by the components of the K.I.T.T. ecosystem.
use vstd::prelude::*;

pub mod envelope;
pub mod frame;
pub mod ids;
pub mod json;
pub mod kinds;
pub mod laws;
pub mod messages;
pub mod multillm;
pub mod text;

pub use envelope::{Envelope, EnvelopeView};
pub use frame::{AuthenticatedFrame, FrameView};
pub use messages::{
    default_memory_limit, default_true, AskRequest, AskResponse, AssistantRememberRequest,
    DeleteResponse, ErrorPayload, HudEvent, HudImageRequest, HudState, IdResponse,
    MemoryForgetRequest, MemoryKind, MemoryRecallRequest, MemoryScope, Sensitivity,
    ShownResponse, StatusResponse, WorkerExecuteRequest, WorkerExecuteResponse,
};
pub use multillm::{
    ModelRoute, ModelTier, RoutedAskRequest, RoutedAskResponse, TranscribeRequest,
    TranscribeResponse,
};

verus! {

/// The protocol version every envelope must carry.
pub const PROTOCOL_VERSION: u16 = 1;

/// The largest frame, in bytes, that a decoder accepts.
pub const MAX_FRAME_BYTES: usize = 1024 * 1024;

} // verus!
