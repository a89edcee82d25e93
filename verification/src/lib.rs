//! Cross-platform notification response types, with their conversion and
//! classification rules stated and proved.

pub mod action;

pub use action::{ActionResponse, ActionResponseHandler, CloseHandler, CloseReason, ResponseView, UserResponse};
