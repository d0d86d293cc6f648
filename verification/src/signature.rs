//! How a command describes itself to the host that offers it.

use vstd::prelude::*;

verus! {

/// The kind of value that a positional argument takes.
#[derive(Debug, Clone, Copy, PartialEq, Eq, Structural)]
pub enum Shape {
    /// Any text.
    Text,
    /// A path in the file system.
    Filepath,
    /// A record of named values.
    Record,
}

/// A flag that is either given or not.
#[derive(Debug, Clone, Copy, PartialEq, Eq)]
pub struct Switch {
    /// The flag's long name, without dashes.
    pub long: &'static str,
    /// What giving the flag does.
    pub description: &'static str,
    /// The flag's one-letter form.
    pub short: Option<char>,
}

/// An argument that is given by its place.
#[derive(Debug, Clone, Copy, PartialEq, Eq)]
pub struct Positional {
    /// The argument's name.
    pub name: &'static str,
    /// The kind of value that it takes.
    pub shape: Shape,
    /// What the argument is for.
    pub description: &'static str,
}

/// The arguments that a command takes.
#[derive(Debug, Clone, PartialEq, Eq)]
pub struct CommandSignature {
    /// The command's name.
    pub name: &'static str,
    /// Its flags, in the order of their declaration.
    pub switches: Vec<Switch>,
    /// The arguments that must be given, in order.
    pub required: Vec<Positional>,
    /// The arguments that may follow them, in order.
    pub optional: Vec<Positional>,
}

/// A sample call of a command.
#[derive(Debug, Clone, Copy, PartialEq, Eq)]
pub struct CommandExample {
    /// What the call shows.
    pub description: &'static str,
    /// The call as the user types it.
    pub example: &'static str,
    /// What the call returns, where that is worth showing.
    pub result: Option<&'static str>,
}

/// The mathematical value of a [`CommandSignature`].
pub struct CommandSignatureView {
    pub name: &'static str,
    pub switches: Seq<Switch>,
    pub required: Seq<Positional>,
    pub optional: Seq<Positional>,
}

impl View for CommandSignature {
    type V = CommandSignatureView;

    open spec fn view(&self) -> CommandSignatureView {
        CommandSignatureView {
            name: self.name,
            switches: self.switches@,
            required: self.required@,
            optional: self.optional@,
        }
    }
}

/// The positional argument that names the message to look up.
pub open spec fn key_argument() -> Positional {
    Positional { name: "key", shape: Shape::Text, description: "gettext key" }
}

/// The positional argument that carries the variables of a lookup.
pub open spec fn vars_argument() -> Positional {
    Positional { name: "vars", shape: Shape::Record, description: "interpolation variables" }
}

/// The arguments by which a message is looked up: its key, and optionally
/// the variables to fill in.
pub fn lookup_arguments() -> (arguments: (Vec<Positional>, Vec<Positional>))
    ensures
        arguments.0@ == seq![key_argument()],
        arguments.1@ == seq![vars_argument()],
{
    let required = vec![Positional { name: "key", shape: Shape::Text, description: "gettext key" }];
    let optional = vec![
        Positional { name: "vars", shape: Shape::Record, description: "interpolation variables" },
    ];
    assert(required@ =~= seq![key_argument()]);
    assert(optional@ =~= seq![vars_argument()]);
    (required, optional)
}

} // verus!
