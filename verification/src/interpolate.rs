//! Filling a caller's variables into a message template.

use vstd::prelude::*;
use vstd::string::*;

use crate::error::CommandError;
use crate::error::CommandErrorView;

verus! {

/// The map without variables.
pub open spec fn no_variables() -> Map<Seq<char>, Seq<char>> {
    Map::empty()
}

/// The map that a sequence of pairs builds up when each pair in turn is
/// written into it: of two pairs with one key, the later one stays.
pub open spec fn pairs_map(pairs: Seq<(Seq<char>, Seq<char>)>) -> Map<Seq<char>, Seq<char>>
    decreases pairs.len(),
{
    if pairs.len() == 0 {
        Map::empty()
    } else {
        pairs_map(pairs.drop_last()).insert(pairs.last().0, pairs.last().1)
    }
}

/// The map that a sequence of optional values builds up: as [`pairs_map`],
/// but a pair without a value is passed over.
pub open spec fn collected(entries: Seq<(Seq<char>, Option<Seq<char>>)>) -> Map<
    Seq<char>,
    Seq<char>,
>
    decreases entries.len(),
{
    if entries.len() == 0 {
        Map::empty()
    } else {
        let rest = collected(entries.drop_last());
        match entries.last().1 {
            Some(value) => rest.insert(entries.last().0, value),
            None => rest,
        }
    }
}

/// Whether the first `=` of `token` stands at `at`.
pub open spec fn splits_at(token: Seq<char>, at: int) -> bool {
    &&& 0 <= at < token.len()
    &&& token[at] == '='
    &&& forall|j: int| 0 <= j < at ==> token[j] != '='
}

/// The variable that a token of the form `key=value` sets: what stands
/// before its first `=` is the name, what stands behind it the value. A
/// token without `=` sets none.
pub open spec fn assignment(token: Seq<char>) -> Option<(Seq<char>, Seq<char>)> {
    if exists|at: int| splits_at(token, at) {
        let at = choose|at: int| splits_at(token, at);
        Some((token.take(at), token.skip(at + 1)))
    } else {
        None
    }
}

/// The map that a sequence of tokens builds up: each token that is an
/// assignment is written into it in turn; the others are passed over.
pub open spec fn assigned(tokens: Seq<Seq<char>>) -> Map<Seq<char>, Seq<char>>
    decreases tokens.len(),
{
    if tokens.len() == 0 {
        Map::empty()
    } else {
        let rest = assigned(tokens.drop_last());
        match assignment(tokens.last()) {
            Some((key, value)) => rest.insert(key, value),
            None => rest,
        }
    }
}

/// Whether no two pairs of `pairs` have the same key.
pub open spec fn distinct_keys(pairs: Seq<(Seq<char>, Seq<char>)>) -> bool {
    forall|i: int, j: int| 0 <= i < j < pairs.len() ==> pairs[i].0 != pairs[j].0
}

/// The variables of one call: a mapping from placeholder name to value.
#[derive(Debug)]
pub struct InterpolationMap {
    entries: Vec<(String, String)>,
}

impl View for InterpolationMap {
    type V = Map<Seq<char>, Seq<char>>;

    closed spec fn view(&self) -> Map<Seq<char>, Seq<char>> {
        pairs_map(self.entries.deep_view())
    }
}

/// A key that no pair of `pairs` has is not in their map.
proof fn lemma_absent_key(pairs: Seq<(Seq<char>, Seq<char>)>, key: Seq<char>)
    requires
        forall|i: int| 0 <= i < pairs.len() ==> pairs[i].0 != key,
    ensures
        !pairs_map(pairs).contains_key(key),
    decreases pairs.len(),
{
    if pairs.len() > 0 {
        lemma_absent_key(pairs.drop_last(), key);
    }
}

/// Where no key occurs twice, every pair is in the map as it stands.
proof fn lemma_present_key(pairs: Seq<(Seq<char>, Seq<char>)>, at: int)
    requires
        distinct_keys(pairs),
        0 <= at < pairs.len(),
    ensures
        pairs_map(pairs).contains_key(pairs[at].0),
        pairs_map(pairs)[pairs[at].0] == pairs[at].1,
    decreases pairs.len(),
{
    if at < pairs.len() - 1 {
        lemma_present_key(pairs.drop_last(), at);
    }
}

/// Where no key occurs twice, writing a new value over the pair at `at` is
/// writing it into the map.
proof fn lemma_update_pair(pairs: Seq<(Seq<char>, Seq<char>)>, at: int, value: Seq<char>)
    requires
        distinct_keys(pairs),
        0 <= at < pairs.len(),
    ensures
        pairs_map(pairs.update(at, (pairs[at].0, value))) == pairs_map(pairs).insert(
            pairs[at].0,
            value,
        ),
    decreases pairs.len(),
{
    let key = pairs[at].0;
    let updated = pairs.update(at, (key, value));
    if at == pairs.len() - 1 {
        assert(updated.drop_last() == pairs.drop_last());
        assert(pairs_map(updated) == pairs_map(pairs).insert(key, value));
    } else {
        lemma_update_pair(pairs.drop_last(), at, value);
        assert(updated.drop_last() == pairs.drop_last().update(at, (key, value)));
        assert(updated.last() == pairs.last());
        assert(pairs.last().0 != key);
        assert(pairs_map(updated) == pairs_map(pairs).insert(key, value));
    }
}

/// Where no key occurs twice, the map has as many keys as there are pairs.
proof fn lemma_pairs_map_len(pairs: Seq<(Seq<char>, Seq<char>)>)
    requires
        distinct_keys(pairs),
    ensures
        pairs_map(pairs).dom().finite(),
        pairs_map(pairs).dom().len() == pairs.len(),
    decreases pairs.len(),
{
    if pairs.len() > 0 {
        lemma_pairs_map_len(pairs.drop_last());
        lemma_absent_key(pairs.drop_last(), pairs.last().0);
    }
}

/// Splits a token of the form `key=value` at its first `=`.
pub fn parse_assignment(token: &str) -> (pair: Option<(String, String)>)
    ensures
        pair.deep_view() == assignment(token@),
{
    let len = token.unicode_len();
    let mut at: usize = 0;
    while at < len
        invariant
            at <= len,
            len == token@.len(),
            forall|j: int| 0 <= j < at ==> token@[j] != '=',
        decreases len - at,
    {
        if token.get_char(at) == '=' {
            assert(splits_at(token@, at as int));
            let ghost chosen = choose|i: int| splits_at(token@, i);
            assert(chosen == at);
            let key = String::from_str(token.substring_char(0, at));
            let value = String::from_str(token.substring_char(at + 1, len));
            assert(token@.subrange(0, at as int) == token@.take(at as int));
            assert(token@.subrange(at + 1, len as int) == token@.skip(at + 1));
            return Some((key, value));
        }
        at += 1;
    }
    assert forall|i: int| !splits_at(token@, i) by {}
    None
}

impl InterpolationMap {
    /// Whether the map is in order: no variable is held twice. Every map
    /// that this type's functions make is.
    pub closed spec fn wf(&self) -> bool {
        distinct_keys(self.entries.deep_view())
    }

    /// A map without variables.
    pub fn new() -> (vars: InterpolationMap)
        ensures
            vars.wf(),
            vars@ == no_variables(),
    {
        InterpolationMap { entries: Vec::new() }
    }

    /// The number of variables.
    pub fn len(&self) -> (n: usize)
        requires
            self.wf(),
        ensures
            n == self@.dom().len(),
            self@.dom().finite(),
    {
        proof {
            lemma_pairs_map_len(self.entries.deep_view());
        }
        self.entries.len()
    }

    /// The place of `key` among the entries, if it has one.
    fn position(&self, key: &String) -> (found: Option<usize>)
        ensures
            match found {
                Some(at) => at < self.entries.len() && self.entries.deep_view()[at as int].0
                    == key@,
                None => forall|i: int|
                    0 <= i < self.entries.len() ==> self.entries.deep_view()[i].0 != key@,
            },
    {
        let mut i: usize = 0;
        while i < self.entries.len()
            invariant
                i <= self.entries.len(),
                forall|j: int| 0 <= j < i ==> self.entries.deep_view()[j].0 != key@,
            decreases self.entries.len() - i,
        {
            if self.entries[i].0 == *key {
                return Some(i);
            }
            i += 1;
        }
        None
    }

    /// The value of the variable `key`, if there is one.
    pub fn get(&self, key: &str) -> (value: Option<String>)
        requires
            self.wf(),
        ensures
            match value {
                Some(text) => self@.contains_key(key@) && self@[key@] == text@,
                None => !self@.contains_key(key@),
            },
    {
        let key = String::from_str(key);
        match self.position(&key) {
            Some(at) => {
                proof {
                    lemma_present_key(self.entries.deep_view(), at as int);
                }
                Some(self.entries[at].1.clone())
            },
            None => {
                proof {
                    lemma_absent_key(self.entries.deep_view(), key@);
                }
                None
            },
        }
    }

    /// Sets the variable `key` to `value`; an earlier value of it is replaced.
    pub fn insert(&mut self, key: String, value: String)
        requires
            old(self).wf(),
        ensures
            final(self).wf(),
            final(self)@ == old(self)@.insert(key@, value@),
    {
        let ghost before = self.entries.deep_view();
        match self.position(&key) {
            Some(at) => {
                proof {
                    lemma_update_pair(before, at as int, value@);
                }
                self.entries.set(at, (key, value));
                let ghost after = self.entries.deep_view();
                assert(after == before.update(at as int, (key@, value@)));
                assert forall|i: int, j: int| 0 <= i < j < after.len() implies after[i].0
                    != after[j].0 by {
                    assert(after[i].0 == before[i].0);
                    assert(after[j].0 == before[j].0);
                }
            },
            None => {
                self.entries.push((key, value));
                let ghost after = self.entries.deep_view();
                assert(after.drop_last() == before);
                assert(after.last() == (key@, value@));
                assert forall|i: int, j: int| 0 <= i < j < after.len() implies after[i].0
                    != after[j].0 by {
                    assert(after[i] == before[i]);
                    if j < before.len() {
                        assert(after[j] == before[j]);
                    }
                }
            },
        }
    }

    /// The variables that the tokens of the form `key=value` among
    /// `tokens` set; of two for one name, the later one stays.
    pub fn from_tokens(tokens: &Vec<String>) -> (vars: InterpolationMap)
        ensures
            vars.wf(),
            vars@ == assigned(tokens.deep_view()),
    {
        let mut vars = InterpolationMap::new();
        let mut i: usize = 0;
        while i < tokens.len()
            invariant
                i <= tokens.len(),
                vars.wf(),
                vars@ == assigned(tokens.deep_view().take(i as int)),
            decreases tokens.len() - i,
        {
            let ghost upto = tokens.deep_view().take(i as int + 1);
            assert(upto.drop_last() == tokens.deep_view().take(i as int));
            assert(upto.last() == tokens.deep_view()[i as int]);
            match parse_assignment(tokens[i].as_str()) {
                Some((key, value)) => {
                    vars.insert(key, value);
                },
                None => {},
            }
            i += 1;
        }
        assert(tokens.deep_view().take(i as int) == tokens.deep_view());
        vars
    }

    /// The variables among `entries` that have a value, each under its name;
    /// of two with one name, the later one stays.
    pub fn from_entries(entries: Vec<(String, Option<String>)>) -> (vars: InterpolationMap)
        ensures
            vars.wf(),
            vars@ == collected(entries.deep_view()),
    {
        let mut vars = InterpolationMap::new();
        let mut i: usize = 0;
        while i < entries.len()
            invariant
                i <= entries.len(),
                vars.wf(),
                vars@ == collected(entries.deep_view().take(i as int)),
            decreases entries.len() - i,
        {
            let ghost upto = entries.deep_view().take(i as int + 1);
            assert(upto.drop_last() == entries.deep_view().take(i as int));
            assert(upto.last() == entries.deep_view()[i as int]);
            match &entries[i].1 {
                Some(value) => {
                    vars.insert(entries[i].0.clone(), value.clone());
                },
                None => {},
            }
            i += 1;
        }
        assert(entries.deep_view().take(i as int) == entries.deep_view());
        vars
    }
}

/// What `strfmt::strfmt` makes of `template` with the variables `vars`: the
/// formatted text, or the message of the error that it reports.
pub uninterp spec fn formatted(template: Seq<char>, vars: Map<Seq<char>, Seq<char>>) -> Result<
    Seq<char>,
    Seq<char>,
>;

/// Whether `template` holds no brace at all, so that nothing in it is a
/// placeholder or an escape.
pub open spec fn is_plain(template: Seq<char>) -> bool {
    forall|i: int| 0 <= i < template.len() ==> template[i] != '{' && template[i] != '}'
}

/// The outcome that hands a template back as it is.
pub open spec fn unchanged(template: Seq<char>) -> Result<Seq<char>, Seq<char>> {
    Ok(template)
}

/// The mathematical value of a formatter's outcome.
pub open spec fn text_outcome(outcome: Result<String, String>) -> Result<Seq<char>, Seq<char>> {
    match outcome {
        Ok(text) => Ok(text@),
        Err(detail) => Err(detail@),
    }
}

/// The mathematical value of a command's textual result.
pub open spec fn result_view(result: Result<String, CommandError>) -> Result<
    Seq<char>,
    CommandErrorView,
> {
    match result {
        Ok(text) => Ok(text@),
        Err(e) => Err(e@),
    }
}

/// The result that stands for a formatter's outcome: its text, or the
/// failure that wraps its complaint.
pub open spec fn outcome_result(outcome: Result<Seq<char>, Seq<char>>) -> Result<
    Seq<char>,
    CommandErrorView,
> {
    match outcome {
        Ok(text) => Ok(text),
        Err(detail) => Err(CommandErrorView::MissingVariable { detail }),
    }
}

/// The result of filling `vars` into `template`.
pub open spec fn interpolated(template: Seq<char>, vars: Map<Seq<char>, Seq<char>>) -> Result<
    Seq<char>,
    CommandErrorView,
> {
    outcome_result(formatted(template, vars))
}

/// `strfmt::strfmt`, with the variables as a hash map from `String` to
/// `String`.
///
/// The crate walks the template once, copies what lies outside braces,
/// reads `{{` and `}}` as single braces, and puts each variable's value,
/// laid out as the placeholder's format asks, in the placeholder's place.
/// It reports a malformed placeholder, a name that is no variable, and a
/// format that does not suit a string; the three kinds of error each carry
/// a message, which is all that is kept of them. The result depends on the
/// template and the variables alone. Of the rules, only this is restated:
/// a template without any brace comes back as it is. A placeholder may ask
/// for padding of any width; that the text fits in memory is taken for
/// granted.
#[verifier::external_body]
fn format_with(template: &str, vars: &InterpolationMap) -> (outcome: Result<String, String>)
    requires
        vars.wf(),
    ensures
        text_outcome(outcome) == formatted(template@, vars@),
        is_plain(template@) ==> text_outcome(outcome) == unchanged(template@),
{
    let store: std::collections::HashMap<String, String> = vars.entries.iter().cloned().collect();
    match strfmt::strfmt(template, &store) {
        Ok(text) => Ok(text),
        Err(strfmt::FmtError::Invalid(detail)) => Err(detail),
        Err(strfmt::FmtError::KeyError(detail)) => Err(detail),
        Err(strfmt::FmtError::TypeError(detail)) => Err(detail),
    }
}

/// Turns a formatter's outcome into the command's result: the text as it
/// is, a complaint as `MissingVariable`.
pub fn interpolation_result(outcome: Result<String, String>) -> (result: Result<
    String,
    CommandError,
>)
    ensures
        result_view(result) == outcome_result(text_outcome(outcome)),
{
    match outcome {
        Ok(text) => Ok(text),
        Err(detail) => Err(CommandError::MissingVariable { detail }),
    }
}

/// Fills `vars` into `template`. Fails with `MissingVariable` where a
/// placeholder is malformed or names no variable; variables that the
/// template does not name are ignored.
pub fn apply(template: &str, vars: &InterpolationMap) -> (result: Result<String, CommandError>)
    requires
        vars.wf(),
    ensures
        result_view(result) == interpolated(template@, vars@),
        is_plain(template@) ==> (result matches Ok(text) && text@ == template@),
{
    interpolation_result(format_with(template, vars))
}

} // verus!
