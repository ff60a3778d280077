//! The message kinds of protocol v1.
use vstd::prelude::*;

verus! {

pub const SYSTEM_PING_REQUEST: &'static str = "system.ping.request";
pub const SYSTEM_PING_RESPONSE: &'static str = "system.ping.response";
pub const SYSTEM_ERROR: &'static str = "system.error";
pub const ASSISTANT_ASK_REQUEST: &'static str = "assistant.ask.request";
pub const ASSISTANT_ASK_RESPONSE: &'static str = "assistant.ask.response";
pub const ASSISTANT_ASK_ROUTED_REQUEST: &'static str = "assistant.ask_routed.request";
pub const ASSISTANT_ASK_ROUTED_RESPONSE: &'static str = "assistant.ask_routed.response";
pub const ASSISTANT_TRANSCRIBE_REQUEST: &'static str = "assistant.transcribe.request";
pub const ASSISTANT_TRANSCRIBE_RESPONSE: &'static str = "assistant.transcribe.response";
pub const ASSISTANT_REMEMBER_REQUEST: &'static str = "assistant.remember.request";
pub const ASSISTANT_REMEMBER_RESPONSE: &'static str = "assistant.remember.response";
pub const MEMORY_REMEMBER_REQUEST: &'static str = "memory.remember.request";
pub const MEMORY_REMEMBER_RESPONSE: &'static str = "memory.remember.response";
pub const MEMORY_RECALL_REQUEST: &'static str = "memory.recall.request";
pub const MEMORY_RECALL_RESPONSE: &'static str = "memory.recall.response";
pub const MEMORY_FORGET_REQUEST: &'static str = "memory.forget.request";
pub const MEMORY_FORGET_RESPONSE: &'static str = "memory.forget.response";
pub const HUD_SUBSCRIBE_REQUEST: &'static str = "hud.subscribe.request";
pub const HUD_SUBSCRIBE_RESPONSE: &'static str = "hud.subscribe.response";
pub const HUD_IMAGE_REQUEST: &'static str = "hud.image.request";
pub const HUD_IMAGE_RESPONSE: &'static str = "hud.image.response";
pub const HUD_EVENT: &'static str = "hud.event";
pub const WORKER_EXECUTE_REQUEST: &'static str = "worker.execute.request";
pub const WORKER_EXECUTE_RESPONSE: &'static str = "worker.execute.response";

} // verus!
