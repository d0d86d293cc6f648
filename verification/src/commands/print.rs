//! The command that prints a translated message.

use vstd::prelude::*;
use vstd::string::*;

use crate::catalog::contents_view;
use crate::commands::stringret::lookup_result;
use crate::commands::stringret::lookup_result_with;
use crate::commands::stringret::StringRet;
use crate::error::CommandError;
use crate::error::CommandErrorView;
use crate::interpolate::InterpolationMap;
use crate::session::SessionContextView;
use crate::session::SessionStore;
use crate::signature::key_argument;
use crate::signature::lookup_arguments;
use crate::signature::vars_argument;
use crate::signature::CommandExample;
use crate::signature::CommandSignature;
use crate::signature::Switch;

verus! {

/// Looks a message up and writes it to one of the two output streams.
#[derive(Debug, Clone, Copy)]
pub struct Print;

/// One of the two output streams.
#[derive(Debug, Clone, Copy, PartialEq, Eq, Structural)]
pub enum Stream {
    /// The standard output.
    Stdout,
    /// The standard error.
    Stderr,
}

/// What is to be written, and where.
#[derive(Debug, Clone, PartialEq, Eq)]
pub struct Printout {
    /// The stream to write to.
    pub stream: Stream,
    /// The text to write, line ending included.
    pub text: String,
}

/// The mathematical value of a [`Printout`].
pub struct PrintoutView {
    pub stream: Stream,
    pub text: Seq<char>,
}

impl View for Printout {
    type V = PrintoutView;

    open spec fn view(&self) -> PrintoutView {
        PrintoutView { stream: self.stream, text: self.text@ }
    }
}

/// The flag that sends the message to the standard error.
pub open spec fn stderr_switch() -> Switch {
    Switch {
        long: "stderr",
        description: "print to stderr instead of stdout",
        short: Some('e'),
    }
}

/// The flag that leaves the line open.
pub open spec fn no_newline_switch() -> Switch {
    Switch {
        long: "no-newline",
        description: "print without inserting a newline for the line ending",
        short: Some('n'),
    }
}

/// The one sample call.
pub open spec fn print_example() -> CommandExample {
    CommandExample {
        description: "Print a translated string",
        example: "tprint \"Hello {name}\" { name: \"Foo\" }",
        result: None,
    }
}

/// The stream that the flag selects.
pub open spec fn selected_stream(to_stderr: bool) -> Stream {
    if to_stderr {
        Stream::Stderr
    } else {
        Stream::Stdout
    }
}

/// The text with the line ending that the flag selects.
pub open spec fn with_line_ending(text: Seq<char>, no_newline: bool) -> Seq<char> {
    if no_newline {
        text
    } else {
        text.push('\n')
    }
}

/// What printing `text` writes, and where.
pub open spec fn rendered(text: Seq<char>, to_stderr: bool, no_newline: bool) -> PrintoutView {
    PrintoutView {
        stream: selected_stream(to_stderr),
        text: with_line_ending(text, no_newline),
    }
}

/// What the command writes: the looked-up message on the selected stream
/// with the selected line ending, or the lookup's failure.
pub open spec fn print_result(
    session: Option<SessionContextView>,
    contents: Option<Seq<u8>>,
    key: Seq<char>,
    vars: Map<Seq<char>, Seq<char>>,
    to_stderr: bool,
    no_newline: bool,
) -> Result<PrintoutView, CommandErrorView> {
    match lookup_result(session, contents, key, vars) {
        Ok(text) => Ok(rendered(text, to_stderr, no_newline)),
        Err(e) => Err(e),
    }
}

/// What the command writes under a mode.
pub open spec fn print_result_with(
    strict_mode: bool,
    session: Option<SessionContextView>,
    contents: Option<Seq<u8>>,
    key: Seq<char>,
    vars: Map<Seq<char>, Seq<char>>,
    to_stderr: bool,
    no_newline: bool,
) -> Result<PrintoutView, CommandErrorView> {
    match lookup_result_with(strict_mode, session, contents, key, vars) {
        Ok(text) => Ok(rendered(text, to_stderr, no_newline)),
        Err(e) => Err(e),
    }
}

/// The mathematical value of the command's result.
pub open spec fn printout_view(result: Result<Printout, CommandError>) -> Result<
    PrintoutView,
    CommandErrorView,
> {
    match result {
        Ok(printout) => Ok(printout@),
        Err(e) => Err(e@),
    }
}

impl Print {
    /// The name under which the command is called.
    pub fn name(&self) -> (text: &'static str)
        ensures
            text == "tprint",
    {
        "tprint"
    }

    /// One line on what the command does.
    pub fn description(&self) -> (text: &'static str)
        ensures
            text == "Print out translated strings.",
    {
        "Print out translated strings."
    }

    /// Sample calls of the command.
    pub fn examples(&self) -> (examples: Vec<CommandExample>)
        ensures
            examples@ == seq![print_example()],
    {
        let examples = vec![
            CommandExample {
                description: "Print a translated string",
                example: "tprint \"Hello {name}\" { name: \"Foo\" }",
                result: None,
            },
        ];
        assert(examples@ =~= seq![print_example()]);
        examples
    }

    /// The words under which the command is found.
    pub fn search_terms(&self) -> (terms: Vec<&'static str>)
        ensures
            terms@ == seq!["gettext", "translation", "i18n", "print", "tregister", "_"],
    {
        let terms = vec!["gettext", "translation", "i18n", "print", "tregister", "_"];
        assert(terms@ =~= seq!["gettext", "translation", "i18n", "print", "tregister", "_"]);
        terms
    }

    /// The arguments that the command takes: the two flags, the key, and
    /// optionally the variables.
    pub fn signature(&self) -> (signature: CommandSignature)
        ensures
            signature.name == "tprint",
            signature.switches@ == seq![stderr_switch(), no_newline_switch()],
            signature.required@ == seq![key_argument()],
            signature.optional@ == seq![vars_argument()],
    {
        let switches = vec![
            Switch {
                long: "stderr",
                description: "print to stderr instead of stdout",
                short: Some('e'),
            },
            Switch {
                long: "no-newline",
                description: "print without inserting a newline for the line ending",
                short: Some('n'),
            },
        ];
        assert(switches@ =~= seq![stderr_switch(), no_newline_switch()]);
        let arguments = lookup_arguments();
        CommandSignature {
            name: self.name(),
            switches,
            required: arguments.0,
            optional: arguments.1,
        }
    }

    /// What printing the message `text` writes: the text, followed by a line
    /// feed unless `no_newline` is set, on the standard error if `to_stderr`
    /// is set and on the standard output otherwise.
    pub fn render(&self, text: String, to_stderr: bool, no_newline: bool) -> (printout: Printout)
        ensures
            printout@ == rendered(text@, to_stderr, no_newline),
    {
        let stream = if to_stderr {
            Stream::Stderr
        } else {
            Stream::Stdout
        };
        let mut text = text;
        if !no_newline {
            let ghost before = text@;
            text.append("\n");
            proof {
                reveal_strlit("\n");
                assert("\n"@ =~= seq!['\n']);
                assert(text@ =~= before.push('\n'));
            }
        }
        Printout { stream, text }
    }

    /// As [`Print::run`], under a mode.
    pub fn run_with(
        &self,
        strict_mode: bool,
        session: &SessionStore,
        contents: Option<&[u8]>,
        key: &str,
        vars: &InterpolationMap,
        to_stderr: bool,
        no_newline: bool,
    ) -> (result: Result<Printout, CommandError>)
        requires
            vars.wf(),
        ensures
            printout_view(result) == print_result_with(
                strict_mode,
                session@,
                contents_view(contents),
                key@,
                vars@,
                to_stderr,
                no_newline,
            ),
    {
        match StringRet.run_with(strict_mode, session, contents, key, vars) {
            Ok(text) => Ok(self.render(text, to_stderr, no_newline)),
            Err(e) => Err(e),
        }
    }

    /// Looks `key` up as the lookup command does and says what is to be
    /// written, and where.
    pub fn run(
        &self,
        session: &SessionStore,
        contents: Option<&[u8]>,
        key: &str,
        vars: &InterpolationMap,
        to_stderr: bool,
        no_newline: bool,
    ) -> (result: Result<Printout, CommandError>)
        requires
            vars.wf(),
        ensures
            printout_view(result) == print_result(
                session@,
                contents_view(contents),
                key@,
                vars@,
                to_stderr,
                no_newline,
            ),
    {
        match StringRet.run(session, contents, key, vars) {
            Ok(text) => Ok(self.render(text, to_stderr, no_newline)),
            Err(e) => Err(e),
        }
    }
}

} // verus!
