//! The context that a registration leaves behind for later lookups.

use vstd::prelude::*;
use vstd::string::*;

use crate::error::CommandError;
use crate::error::CommandErrorView;

verus! {

/// Where the catalogs of a session live, and what they are called.
#[derive(Debug, Clone, PartialEq, Eq)]
pub struct SessionContext {
    /// The directory that holds one subdirectory per locale.
    pub base_dir: String,
    /// The catalog's base name, without extension.
    pub catalog_name: String,
}

/// The mathematical value of a [`SessionContext`].
pub struct SessionContextView {
    pub base_dir: Seq<char>,
    pub catalog_name: Seq<char>,
}

impl View for SessionContext {
    type V = SessionContextView;

    open spec fn view(&self) -> SessionContextView {
        SessionContextView { base_dir: self.base_dir@, catalog_name: self.catalog_name@ }
    }
}

/// Why a stored record is no context.
#[derive(Debug, Clone, Copy, PartialEq, Eq, Structural)]
pub enum RecordFault {
    /// The record has no field `path`.
    MissingPath,
    /// The field `path` does not hold text.
    PathNotText,
    /// The record has no field `name`.
    MissingName,
    /// The field `name` does not hold text.
    NameNotText,
}

impl RecordFault {
    /// What is wrong with the record, in words.
    pub open spec fn message_text(self) -> Seq<char> {
        match self {
            RecordFault::MissingPath => "The stored context has no field `path`."@,
            RecordFault::PathNotText => "The field `path` of the stored context is no text."@,
            RecordFault::MissingName => "The stored context has no field `name`."@,
            RecordFault::NameNotText => "The field `name` of the stored context is no text."@,
        }
    }

    /// The name of the field that is at fault.
    pub open spec fn field_text(self) -> Seq<char> {
        match self {
            RecordFault::MissingPath | RecordFault::PathNotText => path_field(),
            RecordFault::MissingName | RecordFault::NameNotText => name_field(),
        }
    }

    /// What is wrong with the record, in words.
    pub fn message(&self) -> (text: String)
        ensures
            text@ == self.message_text(),
    {
        match self {
            RecordFault::MissingPath => String::from_str(
                "The stored context has no field `path`.",
            ),
            RecordFault::PathNotText => String::from_str(
                "The field `path` of the stored context is no text.",
            ),
            RecordFault::MissingName => String::from_str(
                "The stored context has no field `name`.",
            ),
            RecordFault::NameNotText => String::from_str(
                "The field `name` of the stored context is no text.",
            ),
        }
    }

    /// The name of the field that is at fault.
    pub fn field(&self) -> (name: &'static str)
        ensures
            name@ == self.field_text(),
    {
        match self {
            RecordFault::MissingPath | RecordFault::PathNotText => "path",
            RecordFault::MissingName | RecordFault::NameNotText => "name",
        }
    }
}

/// The name of the slot under which a session keeps its context.
pub open spec fn slot_name_text() -> Seq<char> {
    "NUTEXT_FILES"@
}

/// The name of the field that holds the base directory.
pub open spec fn path_field() -> Seq<char> {
    "path"@
}

/// The name of the field that holds the catalog's name.
pub open spec fn name_field() -> Seq<char> {
    "name"@
}

/// The stored form of a context: a flat record of exactly two text fields.
pub open spec fn record_of(context: SessionContextView) -> Seq<(Seq<char>, Option<Seq<char>>)> {
    seq![(path_field(), Some(context.base_dir)), (name_field(), Some(context.catalog_name))]
}

/// The field called `name` in `fields`: the last one of that name, where
/// several have it. `Some(None)` stands for a field that does not hold text.
pub open spec fn field_named(fields: Seq<(Seq<char>, Option<Seq<char>>)>, name: Seq<char>)
    -> Option<Option<Seq<char>>>
    decreases fields.len(),
{
    if fields.len() == 0 {
        None
    } else if fields.last().0 == name {
        Some(fields.last().1)
    } else {
        field_named(fields.drop_last(), name)
    }
}

/// The context that a stored record stands for, or the first thing that is
/// wrong with the record: the path is looked at before the name.
pub open spec fn context_of(fields: Seq<(Seq<char>, Option<Seq<char>>)>) -> Result<
    SessionContextView,
    RecordFault,
> {
    match field_named(fields, path_field()) {
        None => Err(RecordFault::MissingPath),
        Some(None) => Err(RecordFault::PathNotText),
        Some(Some(base_dir)) => match field_named(fields, name_field()) {
            None => Err(RecordFault::MissingName),
            Some(None) => Err(RecordFault::NameNotText),
            Some(Some(catalog_name)) => Ok(SessionContextView { base_dir, catalog_name }),
        },
    }
}

/// The mathematical value of a context read from a record.
pub open spec fn read_view(read: Result<SessionContext, RecordFault>) -> Result<
    SessionContextView,
    RecordFault,
> {
    match read {
        Ok(context) => Ok(context@),
        Err(fault) => Err(fault),
    }
}

/// The name of the slot under which a session keeps its context.
pub fn slot_name() -> (text: &'static str)
    ensures
        text@ == slot_name_text(),
{
    "NUTEXT_FILES"
}

/// Finds the field called `name` in `fields`: the last one of that name.
fn find_field(fields: &Vec<(String, Option<String>)>, wanted: &str) -> (found: Option<
    Option<String>,
>)
    ensures
        found.deep_view() == field_named(fields.deep_view(), wanted@),
{
    let name = String::from_str(wanted);
    let mut i: usize = fields.len();
    assert(fields.deep_view().take(i as int) == fields.deep_view());
    while i > 0
        invariant
            i <= fields.len(),
            name@ == wanted@,
            field_named(fields.deep_view(), name@) == field_named(
                fields.deep_view().take(i as int),
                name@,
            ),
        decreases i,
    {
        let ghost upto = fields.deep_view().take(i as int);
        assert(upto.last() == fields.deep_view()[i - 1]);
        assert(upto.drop_last() == fields.deep_view().take(i - 1));
        if fields[i - 1].0 == name {
            let found = match &fields[i - 1].1 {
                Some(text) => Some(Some(text.clone())),
                None => Some(None),
            };
            assert(upto.len() > 0 && upto.last().0 == name@);
            return found;
        }
        i -= 1;
    }
    None
}

impl SessionContext {
    /// The stored form of the context: the field `path` with the base
    /// directory, then the field `name` with the catalog's name.
    pub fn to_record(&self) -> (fields: Vec<(String, Option<String>)>)
        ensures
            fields.deep_view() == record_of(self@),
    {
        let fields = vec![
            (String::from_str("path"), Some(self.base_dir.clone())),
            (String::from_str("name"), Some(self.catalog_name.clone())),
        ];
        assert(fields.deep_view() =~= record_of(self@));
        fields
    }

    /// Reads a context back from its stored form. Each field comes with its
    /// text, or with `None` where it holds something else.
    pub fn from_record(fields: &Vec<(String, Option<String>)>) -> (read: Result<
        SessionContext,
        RecordFault,
    >)
        ensures
            read_view(read) == context_of(fields.deep_view()),
    {
        let base_dir = match find_field(fields, "path") {
            None => { return Err(RecordFault::MissingPath); },
            Some(None) => { return Err(RecordFault::PathNotText); },
            Some(Some(text)) => text,
        };
        let catalog_name = match find_field(fields, "name") {
            None => { return Err(RecordFault::MissingName); },
            Some(None) => { return Err(RecordFault::NameNotText); },
            Some(Some(text)) => text,
        };
        Ok(SessionContext { base_dir, catalog_name })
    }
}

/// A context that is stored and read back is the context that was stored.
pub proof fn stored_context_reads_back(context: SessionContextView)
    ensures
        context_of(record_of(context)) == Ok::<SessionContextView, RecordFault>(context),
{
    reveal_strlit("path");
    reveal_strlit("name");
    let fields = record_of(context);
    assert(path_field() != name_field()) by {
        assert(path_field()[0] == 'p');
        assert(name_field()[0] == 'n');
    }
    assert(fields.last() == (name_field(), Some(context.catalog_name)));
    assert(fields.drop_last() =~= seq![(path_field(), Some(context.base_dir))]);
    assert(fields.drop_last().last() == (path_field(), Some(context.base_dir)));
    reveal_with_fuel(field_named, 3);
}

/// The single slot through which a registration reaches later lookups.
///
/// Its value is the registered context, or `None` while nothing has been
/// registered.
#[derive(Debug)]
pub struct SessionStore {
    slot: Option<SessionContext>,
}

impl View for SessionStore {
    type V = Option<SessionContextView>;

    closed spec fn view(&self) -> Option<SessionContextView> {
        match self.slot {
            Some(context) => Some(context@),
            None => None,
        }
    }
}

impl SessionStore {
    /// A store in which nothing is registered.
    pub fn new() -> (store: SessionStore)
        ensures
            store@ is None,
    {
        SessionStore { slot: None }
    }

    /// Puts `context` in the slot; whatever was there before is forgotten.
    pub fn store(&mut self, context: SessionContext)
        ensures
            final(self)@ == Some(context@),
    {
        self.slot = Some(context);
    }

    /// The registered context, or `NotRegistered` while the slot is empty.
    pub fn load(&self) -> (found: Result<SessionContext, CommandError>)
        ensures
            match found {
                Ok(context) => self@ == Some(context@),
                Err(e) => self@ is None && e@ == CommandErrorView::NotRegistered,
            },
    {
        match &self.slot {
            Some(context) => Ok(
                SessionContext {
                    base_dir: context.base_dir.clone(),
                    catalog_name: context.catalog_name.clone(),
                },
            ),
            None => Err(CommandError::NotRegistered),
        }
    }

    /// Whether a context is registered.
    pub fn is_registered(&self) -> (yes: bool)
        ensures
            yes == self@.is_some(),
    {
        self.slot.is_some()
    }
}

} // verus!
