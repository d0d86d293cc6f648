//! The command that returns a translated message.

use vstd::prelude::*;

use crate::catalog::catalog_path;
use crate::catalog::catalog_segments;
use crate::catalog::contents_view;
use crate::catalog::loaded_messages;
use crate::catalog::loaded_with;
use crate::catalog::translation;
use crate::catalog::MessageCatalog;
use crate::error::CommandError;
use crate::error::CommandErrorView;
use crate::interpolate::apply;
use crate::interpolate::interpolated;
use crate::interpolate::is_plain;
use crate::interpolate::result_view;
use crate::interpolate::InterpolationMap;
use crate::locale::resolve_locale;
use crate::locale::resolve_locale_with;
use crate::locale::resolve_system_locale;
use crate::locale::resolve_system_locale_with;
use crate::locale::resolved_tag;
use crate::locale::resolved_with;
use crate::locale::tag_view;
use crate::session::SessionContextView;
use crate::session::SessionStore;
use crate::signature::key_argument;
use crate::signature::lookup_arguments;
use crate::signature::vars_argument;
use crate::signature::CommandSignature;
use crate::signature::Switch;

verus! {

/// Looks a message up and returns it, translated and filled in.
#[derive(Debug, Clone, Copy)]
pub struct StringRet;

/// Where a lookup finds its catalog: the segments of the file's path for the
/// resolved locale, or `NotRegistered` without a registration.
pub open spec fn located(
    session: Option<SessionContextView>,
    available: Seq<Seq<char>>,
    preferred: Option<Seq<char>>,
) -> Result<Seq<Seq<char>>, CommandErrorView> {
    match session {
        Some(context) => Ok(catalog_segments(context, resolved_tag(available, preferred))),
        None => Err(CommandErrorView::NotRegistered),
    }
}

/// What a lookup returns: without a registration `NotRegistered`; else the
/// key's template from the catalog in `contents`, or the key itself where
/// the catalog has none, with `vars` filled in.
pub open spec fn lookup_result(
    session: Option<SessionContextView>,
    contents: Option<Seq<u8>>,
    key: Seq<char>,
    vars: Map<Seq<char>, Seq<char>>,
) -> Result<Seq<char>, CommandErrorView> {
    match session {
        Some(_) => interpolated(translation(loaded_messages(contents), key), vars),
        None => Err(CommandErrorView::NotRegistered),
    }
}

/// Where a lookup finds its catalog under a mode: as [`located`], but in
/// strict mode the lack of a matching locale is a failure.
pub open spec fn located_with(
    strict_mode: bool,
    session: Option<SessionContextView>,
    available: Seq<Seq<char>>,
    preferred: Option<Seq<char>>,
) -> Result<Seq<Seq<char>>, CommandErrorView> {
    match session {
        Some(context) => match resolved_with(strict_mode, available, preferred) {
            Ok(locale) => Ok(catalog_segments(context, locale)),
            Err(e) => Err(e),
        },
        None => Err(CommandErrorView::NotRegistered),
    }
}

/// What a lookup returns under a mode: as [`lookup_result`], but in strict
/// mode a catalog file that is missing or malformed is a failure.
pub open spec fn lookup_result_with(
    strict_mode: bool,
    session: Option<SessionContextView>,
    contents: Option<Seq<u8>>,
    key: Seq<char>,
    vars: Map<Seq<char>, Seq<char>>,
) -> Result<Seq<char>, CommandErrorView> {
    match session {
        Some(_) => match loaded_with(strict_mode, contents) {
            Ok(messages) => interpolated(translation(messages, key), vars),
            Err(e) => Err(e),
        },
        None => Err(CommandErrorView::NotRegistered),
    }
}

/// The result of a lookup that returns `text`.
pub open spec fn found(text: Seq<char>) -> Result<Seq<char>, CommandErrorView> {
    Ok(text)
}

/// The mathematical value of a located path.
pub open spec fn path_view(path: Result<Vec<String>, CommandError>) -> Result<
    Seq<Seq<char>>,
    CommandErrorView,
> {
    match path {
        Ok(segments) => Ok(segments.deep_view()),
        Err(e) => Err(e@),
    }
}

impl StringRet {
    /// The name under which the command is called.
    pub fn name(&self) -> (text: &'static str)
        ensures
            text == "_",
    {
        "_"
    }

    /// One line on what the command does.
    pub fn description(&self) -> (text: &'static str)
        ensures
            text == "Return translated string",
    {
        "Return translated string"
    }

    /// The words under which the command is found.
    pub fn search_terms(&self) -> (terms: Vec<&'static str>)
        ensures
            terms@ == seq!["gettext", "translation", "i18n", "print", "tregister", "_"],
    {
        let terms = vec!["gettext", "translation", "i18n", "print", "tregister", "_"];
        assert(terms@ =~= seq!["gettext", "translation", "i18n", "print", "tregister", "_"]);
        terms
    }

    /// The arguments that the command takes: the key, and optionally the
    /// variables.
    pub fn signature(&self) -> (signature: CommandSignature)
        ensures
            signature.name == "_",
            signature.switches@ == Seq::<Switch>::empty(),
            signature.required@ == seq![key_argument()],
            signature.optional@ == seq![vars_argument()],
    {
        let arguments = lookup_arguments();
        CommandSignature {
            name: self.name(),
            switches: Vec::new(),
            required: arguments.0,
            optional: arguments.1,
        }
    }

    /// The first half of a lookup: the path, segment by segment, of the
    /// catalog for the locale that suits a user who prefers `preferred`,
    /// given the locale directories `available` under the registered base
    /// directory, in the order in which they were listed.
    pub fn locate(
        &self,
        session: &SessionStore,
        available: &Vec<String>,
        preferred: &Option<String>,
    ) -> (path: Result<Vec<String>, CommandError>)
        ensures
            path_view(path) == located(session@, available.deep_view(), preferred.deep_view()),
    {
        match session.load() {
            Ok(context) => {
                let locale = resolve_locale(available, preferred);
                Ok(catalog_path(&context, locale.as_str()))
            },
            Err(e) => Err(e),
        }
    }

    /// As [`StringRet::locate`], for the locale that the operating system
    /// reports for this process.
    pub fn locate_for_system(&self, session: &SessionStore, available: &Vec<String>) -> (path:
        Result<Vec<String>, CommandError>)
        ensures
            exists|preferred: Option<Seq<char>>|
                path_view(path) == located(session@, available.deep_view(), preferred),
            session@ is None ==> path_view(path) == located(session@, available.deep_view(), None),
    {
        match session.load() {
            Ok(context) => {
                let locale = resolve_system_locale(available);
                let ghost preferred = choose|preferred: Option<Seq<char>>|
                    locale@ == resolved_tag(available.deep_view(), preferred);
                let path = Ok(catalog_path(&context, locale.as_str()));
                assert(path_view(path) == located(session@, available.deep_view(), preferred));
                path
            },
            Err(e) => {
                let path = Err(e);
                assert(path_view(path) == located(session@, available.deep_view(), None));
                path
            },
        }
    }

    /// The second half of a lookup: translates `key` by the catalog in
    /// `contents`, the bytes of the located file (`None`: it could not be
    /// read), and fills in `vars`.
    pub fn run(
        &self,
        session: &SessionStore,
        contents: Option<&[u8]>,
        key: &str,
        vars: &InterpolationMap,
    ) -> (result: Result<String, CommandError>)
        requires
            vars.wf(),
        ensures
            result_view(result) == lookup_result(session@, contents_view(contents), key@, vars@),
            session@ is Some && is_plain(
                translation(loaded_messages(contents_view(contents)), key@),
            ) ==> result_view(result) == found(
                translation(loaded_messages(contents_view(contents)), key@),
            ),
    {
        if !session.is_registered() {
            return Err(CommandError::NotRegistered);
        }
        let catalog = MessageCatalog::load(contents);
        let template = catalog.lookup(key);
        apply(template.as_str(), vars)
    }

    /// As [`StringRet::locate`], under a mode.
    pub fn locate_with(
        &self,
        strict_mode: bool,
        session: &SessionStore,
        available: &Vec<String>,
        preferred: &Option<String>,
    ) -> (path: Result<Vec<String>, CommandError>)
        ensures
            path_view(path) == located_with(
                strict_mode,
                session@,
                available.deep_view(),
                preferred.deep_view(),
            ),
    {
        match session.load() {
            Ok(context) => match resolve_locale_with(strict_mode, available, preferred) {
                Ok(locale) => Ok(catalog_path(&context, locale.as_str())),
                Err(e) => Err(e),
            },
            Err(e) => Err(e),
        }
    }

    /// As [`StringRet::locate_for_system`], under a mode.
    pub fn locate_for_system_with(
        &self,
        strict_mode: bool,
        session: &SessionStore,
        available: &Vec<String>,
    ) -> (path: Result<Vec<String>, CommandError>)
        ensures
            exists|preferred: Option<Seq<char>>|
                path_view(path) == located_with(
                    strict_mode,
                    session@,
                    available.deep_view(),
                    preferred,
                ),
            session@ is None ==> path_view(path) == located_with(
                strict_mode,
                session@,
                available.deep_view(),
                None,
            ),
    {
        match session.load() {
            Ok(context) => {
                let resolved = resolve_system_locale_with(strict_mode, available);
                let ghost preferred = choose|preferred: Option<Seq<char>>|
                    tag_view(resolved) == resolved_with(
                        strict_mode,
                        available.deep_view(),
                        preferred,
                    );
                let path = match resolved {
                    Ok(locale) => Ok(catalog_path(&context, locale.as_str())),
                    Err(e) => Err(e),
                };
                assert(path_view(path) == located_with(
                    strict_mode,
                    session@,
                    available.deep_view(),
                    preferred,
                ));
                path
            },
            Err(e) => {
                let path = Err(e);
                assert(path_view(path) == located_with(
                    strict_mode,
                    session@,
                    available.deep_view(),
                    None,
                ));
                path
            },
        }
    }

    /// As [`StringRet::run`], under a mode.
    pub fn run_with(
        &self,
        strict_mode: bool,
        session: &SessionStore,
        contents: Option<&[u8]>,
        key: &str,
        vars: &InterpolationMap,
    ) -> (result: Result<String, CommandError>)
        requires
            vars.wf(),
        ensures
            result_view(result) == lookup_result_with(
                strict_mode,
                session@,
                contents_view(contents),
                key@,
                vars@,
            ),
    {
        if !session.is_registered() {
            return Err(CommandError::NotRegistered);
        }
        match MessageCatalog::load_with(strict_mode, contents) {
            Ok(catalog) => {
                let template = catalog.lookup(key);
                apply(template.as_str(), vars)
            },
            Err(e) => Err(e),
        }
    }
}

} // verus!
