//! Commands of the interactive prompt.

use vstd::prelude::*;

use crate::text::str_eq;

verus! {

/// A command issued at the interactive prompt.
#[derive(Debug, Clone)]
pub enum UserCommand {
    /// Quit the interactive session.
    Quit,
    /// Clear the conversation history.
    Clear,
    /// A regular message to send to the model.
    Message(String),
}

/// The mathematical image of a [`UserCommand`].
#[verifier::ext_equal]
pub enum UserCommandShape {
    Quit,
    Clear,
    Message(Seq<char>),
}

impl View for UserCommand {
    type V = UserCommandShape;

    open spec fn view(&self) -> UserCommandShape {
        match self {
            UserCommand::Quit => UserCommandShape::Quit,
            UserCommand::Clear => UserCommandShape::Clear,
            UserCommand::Message(m) => UserCommandShape::Message(m@),
        }
    }
}

impl PartialEq for UserCommand {
    fn eq(&self, other: &UserCommand) -> (r: bool) {
        match (self, other) {
            (UserCommand::Quit, UserCommand::Quit) => true,
            (UserCommand::Clear, UserCommand::Clear) => true,
            (UserCommand::Message(a), UserCommand::Message(b)) => str_eq(a.as_str(), b.as_str()),
            _ => false,
        }
    }
}

impl vstd::std_specs::cmp::PartialEqSpecImpl for UserCommand {
    open spec fn obeys_eq_spec() -> bool {
        true
    }

    open spec fn eq_spec(&self, other: &UserCommand) -> bool {
        self@ == other@
    }
}

/// What one line of user input means.
pub open spec fn parse_input_spec(s: Seq<char>) -> UserCommandShape {
    if s == "/q"@ || s == "exit"@ {
        UserCommandShape::Quit
    } else if s == "/c"@ {
        UserCommandShape::Clear
    } else {
        UserCommandShape::Message(s)
    }
}

/// Parse one line of user input into a command: `/q` and `exit` quit,
/// `/c` clears the history, anything else is a message for the model.
pub fn parse_input(input: &str) -> (r: UserCommand)
    ensures
        r@ == parse_input_spec(input@),
{
    if str_eq(input, "/q") || str_eq(input, "exit") {
        UserCommand::Quit
    } else if str_eq(input, "/c") {
        UserCommand::Clear
    } else {
        UserCommand::Message(input.to_owned())
    }
}

/// The text a command renders to.
pub open spec fn command_text(c: UserCommandShape) -> Seq<char> {
    match c {
        UserCommandShape::Quit => "quit"@,
        UserCommandShape::Clear => "clear"@,
        UserCommandShape::Message(m) => "message: "@ + m,
    }
}

impl UserCommand {
    /// Render the command as the text shown in logs.
    pub fn display_string(&self) -> (r: String)
        ensures
            r@ == command_text(self@),
    {
        match self {
            UserCommand::Quit => "quit".to_owned(),
            UserCommand::Clear => "clear".to_owned(),
            UserCommand::Message(m) => {
                let mut s: String = "message: ".to_owned();
                s.append(m.as_str());
                s
            },
        }
    }
}

} // verus!
