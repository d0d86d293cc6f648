//! The commands that a session offers, and what holds of them together.

use vstd::prelude::*;

use crate::catalog::is_usable;
use crate::catalog::loaded_messages;
use crate::catalog::no_messages;
use crate::catalog::translation;
use crate::commands::print::print_result;
use crate::commands::print::print_result_with;
use crate::commands::register::registered;
use crate::commands::register::registration_result;
use crate::commands::stringret::located;
use crate::commands::stringret::located_with;
use crate::commands::stringret::lookup_result;
use crate::commands::stringret::lookup_result_with;
use crate::error::CommandErrorView;
use crate::interpolate::formatted;
use crate::interpolate::interpolated;
use crate::locale::best_matching_tag;
use crate::session::SessionContextView;

pub mod print;
pub mod register;
pub mod stringret;

verus! {

/// Before anything is registered, every lookup fails with `NotRegistered`,
/// whatever it is asked for: locating the catalog, translating, printing.
pub proof fn lookup_needs_registration(
    available: Seq<Seq<char>>,
    preferred: Option<Seq<char>>,
    contents: Option<Seq<u8>>,
    key: Seq<char>,
    vars: Map<Seq<char>, Seq<char>>,
    to_stderr: bool,
    no_newline: bool,
)
    ensures
        located(None, available, preferred) == Err::<Seq<Seq<char>>, CommandErrorView>(
            CommandErrorView::NotRegistered,
        ),
        lookup_result(None, contents, key, vars) == Err::<Seq<char>, CommandErrorView>(
            CommandErrorView::NotRegistered,
        ),
        print_result(None, contents, key, vars, to_stderr, no_newline) is Err,
        print_result(None, contents, key, vars, to_stderr, no_newline)->Err_0
            == CommandErrorView::NotRegistered,
{
}

/// A registration of a directory that does not exist reports `PathNotFound`
/// and leaves the session as it was.
pub proof fn failed_registration_keeps_session(
    session: Option<SessionContextView>,
    dir: Seq<char>,
    name: Seq<char>,
)
    ensures
        registered(session, dir, false, name) == session,
        registration_result(dir, false) == Err::<(), CommandErrorView>(
            CommandErrorView::PathNotFound { dir },
        ),
{
}

/// After a registration, a lookup reads its template from the catalog, or
/// takes the key itself where the catalog has none, and can only fail for
/// its variables: where the formatter accepts the template, the lookup
/// returns what the formatter made of it.
pub proof fn lookup_after_registration(
    session: Option<SessionContextView>,
    dir: Seq<char>,
    name: Seq<char>,
    contents: Option<Seq<u8>>,
    key: Seq<char>,
    vars: Map<Seq<char>, Seq<char>>,
)
    ensures
        ({
            let after = registered(session, dir, true, name);
            let messages = loaded_messages(contents);
            let template = translation(messages, key);
            &&& messages.contains_key(key) ==> template == messages[key]
            &&& !messages.contains_key(key) ==> template == key
            &&& lookup_result(after, contents, key, vars) == interpolated(template, vars)
            &&& formatted(template, vars) matches Ok(text) ==> lookup_result(
                after,
                contents,
                key,
                vars,
            ) == Ok::<Seq<char>, CommandErrorView>(text)
            &&& lookup_result(after, contents, key, vars) matches Err(e)
                ==> e is MissingVariable
        }),
{
}

/// A catalog file that cannot be read, that is not well framed, or that the
/// parser rejects, counts as a catalog without messages: the lookup goes on
/// with the key as its template and does not fail on the file's account.
pub proof fn unusable_catalog_translates_nothing(
    context: SessionContextView,
    contents: Option<Seq<u8>>,
    key: Seq<char>,
    vars: Map<Seq<char>, Seq<char>>,
)
    requires
        !is_usable(contents),
    ensures
        loaded_messages(contents) == no_messages(),
        translation(loaded_messages(contents), key) == key,
        lookup_result(Some(context), contents, key, vars) == interpolated(key, vars),
{
}

/// Registering the same directory and name a second time changes nothing:
/// the session is the one that the first registration left, and every
/// lookup in it gives what it gave after the first.
pub proof fn registering_twice_is_registering_once(
    session: Option<SessionContextView>,
    dir: Seq<char>,
    dir_exists: bool,
    name: Seq<char>,
    available: Seq<Seq<char>>,
    preferred: Option<Seq<char>>,
    contents: Option<Seq<u8>>,
    key: Seq<char>,
    vars: Map<Seq<char>, Seq<char>>,
    to_stderr: bool,
    no_newline: bool,
)
    ensures
        ({
            let once = registered(session, dir, dir_exists, name);
            let twice = registered(once, dir, dir_exists, name);
            &&& twice == once
            &&& located(twice, available, preferred) == located(once, available, preferred)
            &&& lookup_result(twice, contents, key, vars) == lookup_result(
                once,
                contents,
                key,
                vars,
            )
            &&& print_result(twice, contents, key, vars, to_stderr, no_newline) == print_result(
                once,
                contents,
                key,
                vars,
                to_stderr,
                no_newline,
            )
        }),
{
}

/// Lenient mode is the mode of the plain commands; strict mode gives what
/// they give wherever a locale matches and the catalog file is usable, and
/// fails with `NoMatchingLocale` or `CatalogUnavailable` where not.
pub proof fn strict_mode_differs_only_on_fallbacks(
    session: Option<SessionContextView>,
    available: Seq<Seq<char>>,
    preferred: Option<Seq<char>>,
    contents: Option<Seq<u8>>,
    key: Seq<char>,
    vars: Map<Seq<char>, Seq<char>>,
    to_stderr: bool,
    no_newline: bool,
)
    ensures
        located_with(false, session, available, preferred) == located(
            session,
            available,
            preferred,
        ),
        lookup_result_with(false, session, contents, key, vars) == lookup_result(
            session,
            contents,
            key,
            vars,
        ),
        print_result_with(false, session, contents, key, vars, to_stderr, no_newline)
            == print_result(session, contents, key, vars, to_stderr, no_newline),
        best_matching_tag(available, preferred) is Some ==> located_with(
            true,
            session,
            available,
            preferred,
        ) == located(session, available, preferred),
        is_usable(contents) ==> lookup_result_with(true, session, contents, key, vars)
            == lookup_result(session, contents, key, vars),
        session is Some && best_matching_tag(available, preferred) is None ==> located_with(
            true,
            session,
            available,
            preferred,
        ) == Err::<Seq<Seq<char>>, CommandErrorView>(CommandErrorView::NoMatchingLocale),
        session is Some && !is_usable(contents) ==> lookup_result_with(
            true,
            session,
            contents,
            key,
            vars,
        ) == Err::<Seq<char>, CommandErrorView>(CommandErrorView::CatalogUnavailable),
{
}

} // verus!
