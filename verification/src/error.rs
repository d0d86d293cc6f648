//! The failures that a command reports to its caller.

use vstd::prelude::*;
use vstd::string::*;

verus! {

/// Why a command did not produce its result.
#[derive(Debug, Clone, PartialEq, Eq)]
pub enum CommandError {
    /// A lookup ran before anything was registered in this session.
    NotRegistered,
    /// The directory handed to the registration does not exist.
    PathNotFound { dir: String },
    /// The template could not be filled in; `detail` is the formatter's complaint.
    MissingVariable { detail: String },
    /// In strict mode only: none of the available locales suits the user.
    NoMatchingLocale,
    /// In strict mode only: the catalog file could not be read or parsed.
    CatalogUnavailable,
}

/// The mathematical value of a [`CommandError`].
pub enum CommandErrorView {
    NotRegistered,
    PathNotFound { dir: Seq<char> },
    MissingVariable { detail: Seq<char> },
    NoMatchingLocale,
    CatalogUnavailable,
}

impl View for CommandError {
    type V = CommandErrorView;

    open spec fn view(&self) -> CommandErrorView {
        match self {
            CommandError::NotRegistered => CommandErrorView::NotRegistered,
            CommandError::PathNotFound { dir } => CommandErrorView::PathNotFound { dir: dir@ },
            CommandError::MissingVariable { detail } => CommandErrorView::MissingVariable {
                detail: detail@,
            },
            CommandError::NoMatchingLocale => CommandErrorView::NoMatchingLocale,
            CommandError::CatalogUnavailable => CommandErrorView::CatalogUnavailable,
        }
    }
}

impl CommandErrorView {
    /// The headline shown to the user.
    pub open spec fn message(self) -> Seq<char> {
        match self {
            CommandErrorView::NotRegistered => "No env variable `NUTEXT_FILES` found!"@,
            CommandErrorView::PathNotFound { .. } => "Cannot find path."@,
            CommandErrorView::MissingVariable { .. } => "Missing variables"@,
            CommandErrorView::NoMatchingLocale => "No matching locale."@,
            CommandErrorView::CatalogUnavailable => "Cannot load catalog."@,
        }
    }

    /// The remedy suggested to the user.
    pub open spec fn help(self) -> Seq<char> {
        match self {
            CommandErrorView::NotRegistered => "Try `tregister`."@,
            CommandErrorView::PathNotFound { dir } => "Verify that `"@ + dir + "` exists."@,
            CommandErrorView::MissingVariable { .. } =>
                "Did you provide all variables in the string?"@,
            CommandErrorView::NoMatchingLocale => "Add a directory for your locale."@,
            CommandErrorView::CatalogUnavailable =>
                "Verify that the catalog file exists and is a compiled catalog."@,
        }
    }

    /// The word put at the place of the call, for the one failure that
    /// points at it: a lookup without a registration.
    pub open spec fn label(self) -> Option<Seq<char>> {
        match self {
            CommandErrorView::NotRegistered => Some("Here"@),
            _ => None,
        }
    }

    /// The underlying complaint, for the one failure that wraps another.
    pub open spec fn detail(self) -> Option<Seq<char>> {
        match self {
            CommandErrorView::MissingVariable { detail } => Some(detail),
            _ => None,
        }
    }
}

impl CommandError {
    /// The headline shown to the user.
    pub fn message(&self) -> (text: String)
        ensures
            text@ == self@.message(),
    {
        match self {
            CommandError::NotRegistered => String::from_str(
                "No env variable `NUTEXT_FILES` found!",
            ),
            CommandError::PathNotFound { .. } => String::from_str("Cannot find path."),
            CommandError::MissingVariable { .. } => String::from_str("Missing variables"),
            CommandError::NoMatchingLocale => String::from_str("No matching locale."),
            CommandError::CatalogUnavailable => String::from_str("Cannot load catalog."),
        }
    }

    /// The remedy suggested to the user.
    pub fn help(&self) -> (text: String)
        ensures
            text@ == self@.help(),
    {
        match self {
            CommandError::NotRegistered => String::from_str("Try `tregister`."),
            CommandError::PathNotFound { dir } => {
                let mut text = String::from_str("Verify that `");
                text.append(dir.as_str());
                text.append("` exists.");
                text
            },
            CommandError::MissingVariable { .. } => String::from_str(
                "Did you provide all variables in the string?",
            ),
            CommandError::NoMatchingLocale => String::from_str("Add a directory for your locale."),
            CommandError::CatalogUnavailable => String::from_str(
                "Verify that the catalog file exists and is a compiled catalog.",
            ),
        }
    }

    /// The word put at the place of the call, for the one failure that
    /// points at it: a lookup without a registration.
    pub fn label(&self) -> (text: Option<String>)
        ensures
            text.deep_view() == self@.label(),
    {
        match self {
            CommandError::NotRegistered => Some(String::from_str("Here")),
            _ => None,
        }
    }

    /// The underlying complaint, for the one failure that wraps another.
    pub fn detail(&self) -> (text: Option<String>)
        ensures
            match text {
                Some(t) => self@.detail() == Some(t@),
                None => self@.detail() is None,
            },
    {
        match self {
            CommandError::MissingVariable { detail } => Some(detail.clone()),
            _ => None,
        }
    }
}

} // verus!
