//! Payloads of routed (fast or heavy model) queries and of transcription.
use vstd::prelude::*;

verus! {

/// Which model tier a routed query asks for.
#[derive(Debug, Clone, Copy, PartialEq, Eq)]
pub enum ModelRoute {
    Auto,
    Fast,
    Heavy,
}

impl Default for ModelRoute {
    /// A query that names no route is routed automatically.
    fn default() -> (r: ModelRoute)
        ensures
            r == ModelRoute::Auto,
    {
        ModelRoute::Auto
    }
}

/// The model tier that answered.
#[derive(Debug, Clone, Copy, PartialEq, Eq)]
pub enum ModelTier {
    Fast,
    Heavy,
}

/// A question routed to a model tier.
#[derive(Debug, Clone, PartialEq)]
pub struct RoutedAskRequest {
    pub text: String,
    pub locale: Option<String>,
    pub route: ModelRoute,
    pub show_hud: bool,
}

/// The answer to a routed question and the tier that gave it.
#[derive(Debug, Clone, PartialEq)]
pub struct RoutedAskResponse {
    pub text: String,
    pub tier: ModelTier,
    pub fallback_used: bool,
}

/// A request to transcribe the audio file at `path`.
#[derive(Debug, Clone, PartialEq)]
pub struct TranscribeRequest {
    pub path: String,
    pub locale: Option<String>,
    pub show_hud: bool,
}

/// A transcription.
#[derive(Debug, Clone, PartialEq)]
pub struct TranscribeResponse {
    pub text: String,
}

/// The value an absent `show_hud` flag takes.
pub fn default_true() -> (b: bool)
    ensures
        b,
{
    true
}

} // verus!
