use vstd::prelude::*;

verus! {

/// The failures that the assistant reports, each with a human-readable message.
#[derive(Debug, Clone, PartialEq, Eq)]
pub enum YuchiError {
    /// Missing or invalid stored credential state.
    Config(String),
    /// Network, HTTP-status or malformed-response failures of the remote service.
    Api(String),
    /// Process spawn or execution failures, and empty commands.
    Tool(String),
    /// Invalid or empty interactive input.
    Input(String),
    /// Image file existence, format or read failures.
    Image(String),
}

impl YuchiError {
    /// The message carried by the error, whatever its kind.
    pub open spec fn spec_message(self) -> Seq<char> {
        match self {
            YuchiError::Config(m) => m@,
            YuchiError::Api(m) => m@,
            YuchiError::Tool(m) => m@,
            YuchiError::Input(m) => m@,
            YuchiError::Image(m) => m@,
        }
    }

    /// A copy of the error.
    pub fn duplicate(&self) -> (r: YuchiError)
        ensures
            r == *self,
    {
        match self {
            YuchiError::Config(m) => YuchiError::Config(m.clone()),
            YuchiError::Api(m) => YuchiError::Api(m.clone()),
            YuchiError::Tool(m) => YuchiError::Tool(m.clone()),
            YuchiError::Input(m) => YuchiError::Input(m.clone()),
            YuchiError::Image(m) => YuchiError::Image(m.clone()),
        }
    }

    /// The text the error is shown with: its kind's heading, then its message.
    pub fn to_string(&self) -> (r: String)
        ensures
            r@ == self.heading() + self.spec_message(),
    {
        let (head, msg) = match self {
            YuchiError::Config(m) => ("Configuration error: ", m),
            YuchiError::Api(m) => ("API error: ", m),
            YuchiError::Tool(m) => ("Tool execution error: ", m),
            YuchiError::Input(m) => ("Invalid input: ", m),
            YuchiError::Image(m) => ("Image processing error: ", m),
        };
        String::from_str(head).concat(msg.as_str())
    }

    pub open spec fn heading(self) -> Seq<char> {
        match self {
            YuchiError::Config(_) => "Configuration error: "@,
            YuchiError::Api(_) => "API error: "@,
            YuchiError::Tool(_) => "Tool execution error: "@,
            YuchiError::Input(_) => "Invalid input: "@,
            YuchiError::Image(_) => "Image processing error: "@,
        }
    }
}

} // verus!
