//! Validation of static-analysis findings by a chat model: the prompt and
//! the request that ask for a judgement, and the verdict read from the
//! reply.

pub mod error;
pub mod prompt;
pub mod request;
pub mod response;
pub mod text;
pub mod verdict;

pub use crate::error::ValidationError;
pub use crate::request::{prepare_request, ApiCall, OpenAICreds};
pub use crate::response::{conclude, ChatResponse, Outcome};
pub use crate::verdict::analyze_response_text;
