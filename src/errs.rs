use vstd::prelude::*;

use crate::text::joined;

verus! {

/// Every failure that start-up can end in. Each kind belongs to exactly one step.
#[derive(Debug)]
pub enum Error {
    /// The logging subsystem could not be installed.
    LogInit { context: String },
    /// The windowing library could not be initialized.
    GlfwInit { context: String },
    /// No window could be created with the hints that were set.
    GlfwWindow,
    /// The graphics function table could not be built.
    GlInit { context: String },
}

/// The text that describes an error to the user.
pub open spec fn error_text(e: Error) -> Seq<char> {
    match e {
        Error::LogInit { context } => "failed to initialize/set env_logger. "@ + context@,
        Error::GlfwInit { context } => "failed to initialize glfw. "@ + context@,
        Error::GlfwWindow => "failed to create glfw window."@,
        Error::GlInit { context } => "failed to initialize opengl. "@ + context@,
    }
}

impl Error {
    /// The message shown when start-up fails with this error.
    pub fn message(&self) -> (r: String)
        ensures
            r@ == error_text(*self),
    {
        match self {
            Error::LogInit { context } => joined("failed to initialize/set env_logger. ", context.as_str()),
            Error::GlfwInit { context } => joined("failed to initialize glfw. ", context.as_str()),
            Error::GlfwWindow => "failed to create glfw window.".to_owned(),
            Error::GlInit { context } => joined("failed to initialize opengl. ", context.as_str()),
        }
    }
}

} // verus!
