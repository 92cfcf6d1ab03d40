//! A chat relay's message pipeline: which messages start or continue a
//! conversation, how the user's text is rewritten before it reaches the
//! completion service, and what is posted and stored once it answers.
pub mod model;
pub mod pipeline;
pub mod registry;
pub mod template;
pub mod text;

pub use model::{
    AppData, ChatCompletionRequest, ChatCompletionResponse, ChatDocument, Choice, Message,
    PromptDocument, Usage,
};
