//! A restaurant concierge that talks with a language model able to call a
//! location search: the conversation store, the tool dispatcher, and the
//! state machine that turns one user utterance into tool calls and one answer.
use vstd::prelude::*;

pub mod chat;
pub mod console;
pub mod conversation;
pub mod dispatcher;
pub mod gemini;
pub mod json;
pub mod orchestrator;
pub mod planner;
pub mod serp;
