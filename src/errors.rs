use vstd::prelude::*;

verus! {

/// A failure with a message safe to show to any audience and an optional
/// diagnostic message meant for logs only.
#[derive(Clone, Debug, PartialEq, Eq)]
pub struct CommandError {
    pub message_safe: String,
    pub message_raw: Option<String>,
}

impl CommandError {
    pub fn new(message_safe: String, message_raw: Option<String>) -> (r: CommandError)
        ensures
            r.message_safe@ == message_safe@,
            r.message_raw == message_raw,
    {
        CommandError { message_safe, message_raw }
    }

    pub fn new_from_safe_message(message_safe: String) -> (r: CommandError)
        ensures
            r.message_safe@ == message_safe@,
            r.message_raw is None,
    {
        CommandError { message_safe, message_raw: None }
    }

    pub fn message_safe(&self) -> (r: &String)
        ensures
            r@ == self.message_safe@,
    {
        &self.message_safe
    }
}

/// Errors raised while building a router.
#[derive(Clone, Debug)]
pub enum RouterError {
    InvalidConfig(String),
}

} // verus!
