//! Choosing the locale whose catalog a lookup reads.

use vstd::prelude::*;
use vstd::string::*;

use crate::error::CommandError;
use crate::error::CommandErrorView;

verus! {

/// The tag that `locale_match::bcp47::best_matching_locale` picks from
/// `available` for a user who prefers `preferred`, or `None` where it picks
/// none. `available` is in the order in which the tags were listed.
pub uninterp spec fn best_matching_tag(
    available: Seq<Seq<char>>,
    preferred: Option<Seq<char>>,
) -> Option<Seq<char>>;

/// `locale_match::bcp47::best_matching_locale`, on the available tags and at
/// most one preferred tag.
///
/// The crate scores every well-formed available tag whose primary language
/// is that of the preferred tag and returns the first of the best; the score
/// is not restated here. Whatever it returns is one of the tags that it was
/// given, and with no preferred tag it returns nothing.
#[verifier::external_body]
fn best_matching(available: &Vec<String>, preferred: &Option<String>) -> (best: Option<String>)
    ensures
        best.deep_view() == best_matching_tag(available.deep_view(), preferred.deep_view()),
        best matches Some(tag) ==> available.deep_view().contains(tag@),
        preferred is None ==> best is None,
{
    locale_match::bcp47::best_matching_locale(available, preferred).cloned()
}

/// `current_locale::current_locale`: the locale that the operating system
/// reports for this process, or `None` where the query fails. Nothing is
/// claimed of the answer.
#[verifier::external_body]
fn system_locale() -> (tag: Option<String>) {
    current_locale::current_locale().ok()
}

/// The tag used where no available locale matches.
pub open spec fn default_tag() -> Seq<char> {
    "en-US"@
}

/// The tag that stands for a matcher's answer: the answer itself, or the
/// default where there is none.
pub open spec fn tag_or_default(best: Option<Seq<char>>) -> Seq<char> {
    match best {
        Some(tag) => tag,
        None => default_tag(),
    }
}

/// The locale that a lookup reads: the best match among `available` for
/// `preferred`, or the default.
pub open spec fn resolved_tag(available: Seq<Seq<char>>, preferred: Option<Seq<char>>) -> Seq<
    char,
> {
    tag_or_default(best_matching_tag(available, preferred))
}

/// What a matcher's answer comes to under a mode: the answer itself; where
/// there is none, the default in lenient mode and `NoMatchingLocale` in
/// strict mode.
pub open spec fn tag_or_failure(strict_mode: bool, best: Option<Seq<char>>) -> Result<
    Seq<char>,
    CommandErrorView,
> {
    match best {
        Some(tag) => Ok(tag),
        None => if strict_mode {
            Err(CommandErrorView::NoMatchingLocale)
        } else {
            Ok(default_tag())
        },
    }
}

/// The locale that a lookup reads under a mode.
pub open spec fn resolved_with(
    strict_mode: bool,
    available: Seq<Seq<char>>,
    preferred: Option<Seq<char>>,
) -> Result<Seq<char>, CommandErrorView> {
    tag_or_failure(strict_mode, best_matching_tag(available, preferred))
}

/// The mathematical value of a resolved locale.
pub open spec fn tag_view(tag: Result<String, CommandError>) -> Result<
    Seq<char>,
    CommandErrorView,
> {
    match tag {
        Ok(text) => Ok(text@),
        Err(e) => Err(e@),
    }
}

/// The tag used where no available locale matches.
pub fn default_locale() -> (tag: String)
    ensures
        tag@ == default_tag(),
{
    String::from_str("en-US")
}

/// Turns a matcher's answer into a usable tag: the answer itself, or the
/// default where there is none.
pub fn locale_or_default(best: Option<String>) -> (tag: String)
    ensures
        tag@ == tag_or_default(best.deep_view()),
{
    match best {
        Some(tag) => tag,
        None => default_locale(),
    }
}

/// Picks the locale for a user who prefers `preferred` (`None`: the
/// preference is unknown) among the `available` tags, in the order in which
/// they were listed. Always yields a tag: the default is the safety net.
pub fn resolve_locale(available: &Vec<String>, preferred: &Option<String>) -> (tag: String)
    ensures
        tag@ == resolved_tag(available.deep_view(), preferred.deep_view()),
        available.deep_view().contains(tag@) || tag@ == default_tag(),
        preferred is None ==> tag@ == default_tag(),
{
    locale_or_default(best_matching(available, preferred))
}

/// Turns a matcher's answer into a tag under a mode: the answer itself;
/// where there is none, the default in lenient mode and `NoMatchingLocale`
/// in strict mode.
pub fn locale_or_failure(strict_mode: bool, best: Option<String>) -> (tag: Result<
    String,
    CommandError,
>)
    ensures
        tag_view(tag) == tag_or_failure(strict_mode, best.deep_view()),
{
    match best {
        Some(tag) => Ok(tag),
        None => if strict_mode {
            Err(CommandError::NoMatchingLocale)
        } else {
            Ok(default_locale())
        },
    }
}

/// As [`resolve_locale`], under a mode: in strict mode the lack of a match
/// is reported and not made up for by the default.
pub fn resolve_locale_with(
    strict_mode: bool,
    available: &Vec<String>,
    preferred: &Option<String>,
) -> (tag: Result<String, CommandError>)
    ensures
        tag_view(tag) == resolved_with(strict_mode, available.deep_view(), preferred.deep_view()),
        tag matches Ok(text) ==> available.deep_view().contains(text@) || (!strict_mode && text@
            == default_tag()),
        tag matches Err(e) ==> strict_mode && e@ == CommandErrorView::NoMatchingLocale,
{
    locale_or_failure(strict_mode, best_matching(available, preferred))
}

/// Picks the locale for this process among the `available` tags, going by
/// what the operating system reports as the user's locale.
pub fn resolve_system_locale(available: &Vec<String>) -> (tag: String)
    ensures
        available.deep_view().contains(tag@) || tag@ == default_tag(),
        exists|preferred: Option<Seq<char>>|
            tag@ == resolved_tag(available.deep_view(), preferred),
{
    let preferred = system_locale();
    resolve_locale(available, &preferred)
}

/// As [`resolve_system_locale`], under a mode.
pub fn resolve_system_locale_with(strict_mode: bool, available: &Vec<String>) -> (tag: Result<
    String,
    CommandError,
>)
    ensures
        exists|preferred: Option<Seq<char>>|
            tag_view(tag) == resolved_with(strict_mode, available.deep_view(), preferred),
        tag matches Ok(text) ==> available.deep_view().contains(text@) || (!strict_mode && text@
            == default_tag()),
        tag matches Err(e) ==> strict_mode && e@ == CommandErrorView::NoMatchingLocale,
{
    let preferred = system_locale();
    resolve_locale_with(strict_mode, available, &preferred)
}

/// In lenient mode a locale is always resolved, and it is the one that
/// [`resolved_tag`] names; in strict mode the resolution fails exactly
/// where the matcher picks nothing, and agrees with the lenient one
/// everywhere else.
pub proof fn strict_resolution_differs_only_without_match(
    available: Seq<Seq<char>>,
    preferred: Option<Seq<char>>,
)
    ensures
        resolved_with(false, available, preferred) == Ok::<Seq<char>, CommandErrorView>(
            resolved_tag(available, preferred),
        ),
        best_matching_tag(available, preferred) is Some ==> resolved_with(
            true,
            available,
            preferred,
        ) == resolved_with(false, available, preferred),
        best_matching_tag(available, preferred) is None ==> resolved_with(
            true,
            available,
            preferred,
        ) == Err::<Seq<char>, CommandErrorView>(CommandErrorView::NoMatchingLocale),
{
}

} // verus!
