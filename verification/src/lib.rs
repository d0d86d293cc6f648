//! Localised messages for a command-line session.
//!
//! A session first registers where its translation catalogs live; later
//! lookups pick the catalog of the best matching locale, translate a message
//! key and fill the caller's variables into the translated template.
//!
//! The library touches neither the file system nor the host's environment.
//! Whoever runs a command hands it what was found there: whether the
//! directory to register exists, the locale directories under the
//! registered one, the bytes of the catalog file. A lookup therefore comes
//! in two halves: the first names the catalog file, the second translates
//! with the file's contents. The library checks the frame of a catalog file
//! itself, before the parser sees the file.
//!
//! Catalogs are read by `gettext`, locales matched by `locale-match`, and
//! templates filled in by `strfmt`; the system's locale comes from
//! `current_locale`. What is taken on trust of these crates is said where
//! each is called.

use vstd::prelude::*;
use vstd::string::*;

use crate::commands::print::Print;
use crate::commands::register::Register;
use crate::commands::stringret::StringRet;

pub mod catalog;
pub mod commands;
pub mod error;
pub mod frame;
pub mod interpolate;
pub mod locale;
pub mod session;
pub mod signature;

verus! {

/// The set of commands, as one unit that a host can load.
#[derive(Debug, Clone, Copy)]
pub struct PrintPlugin;

/// One of the commands of the set.
#[derive(Debug, Clone, Copy)]
pub enum Command {
    /// Prints a translated message.
    Print(Print),
    /// Registers a session's catalogs.
    Register(Register),
    /// Returns a translated message.
    StringRet(StringRet),
}

impl Command {
    /// The name under which the command is called.
    pub open spec fn name_text(self) -> &'static str {
        match self {
            Command::Print(_) => "tprint",
            Command::Register(_) => "tregister",
            Command::StringRet(_) => "_",
        }
    }

    /// The name under which the command is called.
    pub fn name(&self) -> (text: &'static str)
        ensures
            text == self.name_text(),
    {
        match self {
            Command::Print(command) => command.name(),
            Command::Register(command) => command.name(),
            Command::StringRet(command) => command.name(),
        }
    }
}

impl PrintPlugin {
    /// The version of the set.
    pub fn version(&self) -> (text: String)
        ensures
            text@ == "0.1.0"@,
    {
        String::from_str("0.1.0")
    }

    /// The commands of the set: printing, registering, looking up.
    pub fn commands(&self) -> (commands: Vec<Command>)
        ensures
            commands@ == seq![
                Command::Print(Print),
                Command::Register(Register),
                Command::StringRet(StringRet),
            ],
    {
        let commands = vec![
            Command::Print(Print),
            Command::Register(Register),
            Command::StringRet(StringRet),
        ];
        assert(commands@ =~= seq![
            Command::Print(Print),
            Command::Register(Register),
            Command::StringRet(StringRet),
        ]);
        commands
    }
}

} // verus!
