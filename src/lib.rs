//! A terminal assistant that turns a plain-language request into a shell
//! command through a chat-completion service, has the command checked for
//! safety, and can run it: the verified session state machine, request
//! shaping and screen decisions.

pub mod app;
pub mod event;
pub mod infer;
pub mod text;
pub mod ui;
