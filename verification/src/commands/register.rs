//! The command that registers a session's catalogs.

use vstd::prelude::*;
use vstd::string::*;

use crate::error::CommandError;
use crate::error::CommandErrorView;
use crate::session::SessionContext;
use crate::session::SessionContextView;
use crate::session::SessionStore;
use crate::signature::CommandSignature;
use crate::signature::Positional;
use crate::signature::Shape;
use crate::signature::Switch;

verus! {

/// Registers the directory and the name of a session's catalogs.
#[derive(Debug, Clone, Copy)]
pub struct Register;

/// The positional argument that names the directory of the catalogs.
pub open spec fn dir_argument() -> Positional {
    Positional { name: "dir", shape: Shape::Filepath, description: "directory containing locales" }
}

/// The positional argument that names the catalog.
pub open spec fn name_argument() -> Positional {
    Positional { name: "name", shape: Shape::Text, description: "program name" }
}

/// The session after a registration of `name` under `dir`: the new context
/// where the directory exists, the session as it was where it does not.
pub open spec fn registered(
    session: Option<SessionContextView>,
    dir: Seq<char>,
    dir_exists: bool,
    name: Seq<char>,
) -> Option<SessionContextView> {
    if dir_exists {
        Some(SessionContextView { base_dir: dir, catalog_name: name })
    } else {
        session
    }
}

/// What a registration reports: nothing where the directory exists,
/// `PathNotFound` with the directory where it does not.
pub open spec fn registration_result(dir: Seq<char>, dir_exists: bool) -> Result<
    (),
    CommandErrorView,
> {
    if dir_exists {
        Ok(())
    } else {
        Err(CommandErrorView::PathNotFound { dir })
    }
}

/// The mathematical value of a registration's report.
pub open spec fn report_view(report: Result<(), CommandError>) -> Result<(), CommandErrorView> {
    match report {
        Ok(()) => Ok(()),
        Err(e) => Err(e@),
    }
}

impl Register {
    /// The name under which the command is called.
    pub fn name(&self) -> (text: &'static str)
        ensures
            text == "tregister",
    {
        "tregister"
    }

    /// One line on what the command does.
    pub fn description(&self) -> (text: &'static str)
        ensures
            text == "Register locales.",
    {
        "Register locales."
    }

    /// The arguments that the command takes: the directory and the name.
    pub fn signature(&self) -> (signature: CommandSignature)
        ensures
            signature.name == "tregister",
            signature.switches@ == Seq::<Switch>::empty(),
            signature.required@ == seq![dir_argument(), name_argument()],
            signature.optional@ == Seq::<Positional>::empty(),
    {
        let required = vec![
            Positional {
                name: "dir",
                shape: Shape::Filepath,
                description: "directory containing locales",
            },
            Positional { name: "name", shape: Shape::Text, description: "program name" },
        ];
        assert(required@ =~= seq![dir_argument(), name_argument()]);
        CommandSignature {
            name: self.name(),
            switches: Vec::new(),
            required,
            optional: Vec::new(),
        }
    }

    /// Registers the catalogs called `name` under the directory `dir` for
    /// the rest of the session. `dir_exists` says whether the directory was
    /// found; where it was not, the session is left as it is.
    pub fn run(&self, session: &mut SessionStore, dir: &str, dir_exists: bool, name: &str) -> (report:
        Result<(), CommandError>)
        ensures
            final(session)@ == registered(old(session)@, dir@, dir_exists, name@),
            report_view(report) == registration_result(dir@, dir_exists),
    {
        if dir_exists {
            session.store(
                SessionContext {
                    base_dir: String::from_str(dir),
                    catalog_name: String::from_str(name),
                },
            );
            Ok(())
        } else {
            Err(CommandError::PathNotFound { dir: String::from_str(dir) })
        }
    }
}

} // verus!
