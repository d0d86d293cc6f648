//! Message catalogs: where they lie, how they are loaded, what they translate.

use vstd::prelude::*;
use vstd::string::*;

use crate::error::CommandError;
use crate::error::CommandErrorView;
use crate::frame::is_well_framed;
use crate::frame::well_framed;
use crate::session::SessionContext;
use crate::session::SessionContextView;

verus! {

/// The binary catalog type of the `gettext` crate, carried as an opaque value.
#[verifier::external_type_specification]
#[verifier::external_body]
pub struct ExCatalog(gettext::Catalog);

/// What a parsed catalog translates: for every stored message key that has at
/// least one translation, its first (singular) one.
pub uninterp spec fn catalog_messages(catalog: gettext::Catalog) -> Map<Seq<char>, Seq<char>>;

/// What the `gettext` parser makes of the bytes of a well-framed catalog
/// file, with the plural rule fixed in advance: the messages of the parsed
/// catalog, or `None` where the parser rejects the bytes.
pub uninterp spec fn parsed_messages(bytes: Seq<u8>) -> Option<Map<Seq<char>, Seq<char>>>;

/// `gettext::Catalog::empty`: a catalog that translates nothing.
pub assume_specification[ gettext::Catalog::empty ]() -> (made: gettext::Catalog)
    ensures
        catalog_messages(made) == no_messages(),
;

/// `gettext::Catalog::gettext`: the stored singular translation of `msg_id`,
/// or `msg_id` itself where the catalog has none.
pub assume_specification<'a>[ gettext::Catalog::gettext ](
    catalog: &'a gettext::Catalog,
    msg_id: &'a str,
) -> (text: &'a str)
    ensures
        text@ == translation(catalog_messages(*catalog), msg_id@),
;

/// `gettext::ParseOptions::parse` on a byte slice, after `force_plural`.
///
/// The crate reads the whole slice and builds a catalog from it, or reports
/// an error, which is dropped here. The result depends on the bytes alone.
/// The plural rule is handed in, so that the crate never parses the plural
/// expression of the file's header: only singular translations are read
/// from the catalog, and the expression parser slices its input at places
/// that it has not checked. The crate adds the length and the place that a
/// table entry gives, as `usize`, before it holds the sum against the
/// file's length; only files in which every such sum stays within the file
/// are admitted, so that no sum overflows, whatever the width of `usize`.
#[verifier::external_body]
fn parse_catalog(bytes: &[u8]) -> (parsed: Option<gettext::Catalog>)
    requires
        well_framed(bytes@),
    ensures
        match parsed {
            Some(catalog) => parsed_messages(bytes@) == Some(catalog_messages(catalog)),
            None => parsed_messages(bytes@) is None,
        },
{
    gettext::ParseOptions::new().force_plural(plural_form).parse(bytes).ok()
}

/// The plural form for `n` items where a language has two: the first for
/// one item, the second otherwise.
pub fn plural_form(n: u64) -> (form: usize)
    ensures
        form == (if n == 1 { 0usize } else { 1usize }),
{
    if n == 1 {
        0
    } else {
        1
    }
}

/// The catalog that translates nothing.
pub open spec fn no_messages() -> Map<Seq<char>, Seq<char>> {
    Map::empty()
}

/// The translation of `key` by `messages`: the stored template, or the key
/// itself where none is stored.
pub open spec fn translation(messages: Map<Seq<char>, Seq<char>>, key: Seq<char>) -> Seq<char> {
    if messages.contains_key(key) {
        messages[key]
    } else {
        key
    }
}

/// The messages that loading yields: those of the parsed file, or none where
/// the file could not be read, is not well framed, or is rejected by the
/// parser.
pub open spec fn loaded_messages(contents: Option<Seq<u8>>) -> Map<Seq<char>, Seq<char>> {
    match contents {
        Some(bytes) => if well_framed(bytes) {
            match parsed_messages(bytes) {
                Some(messages) => messages,
                None => no_messages(),
            }
        } else {
            no_messages()
        },
        None => no_messages(),
    }
}

/// Whether a file's contents yield a catalog: the file was read, it is well
/// framed, and the parser accepts it.
pub open spec fn is_usable(contents: Option<Seq<u8>>) -> bool {
    contents matches Some(bytes) && well_framed(bytes) && parsed_messages(bytes) is Some
}

/// The messages that loading yields under a mode: in strict mode a file
/// that yields no catalog is reported as `CatalogUnavailable`.
pub open spec fn loaded_with(strict_mode: bool, contents: Option<Seq<u8>>) -> Result<
    Map<Seq<char>, Seq<char>>,
    CommandErrorView,
> {
    if strict_mode && !is_usable(contents) {
        Err(CommandErrorView::CatalogUnavailable)
    } else {
        Ok(loaded_messages(contents))
    }
}

/// The bytes of a file as a mathematical value; `None` stands for a file
/// that could not be read.
pub open spec fn contents_view(contents: Option<&[u8]>) -> Option<Seq<u8>> {
    match contents {
        Some(bytes) => Some(bytes@),
        None => None,
    }
}

/// The mathematical value of a loaded catalog.
pub open spec fn catalog_view(catalog: Result<MessageCatalog, CommandError>) -> Result<
    Map<Seq<char>, Seq<char>>,
    CommandErrorView,
> {
    match catalog {
        Ok(messages) => Ok(messages@),
        Err(e) => Err(e@),
    }
}

/// The directory, below a locale's own, in which its catalogs lie.
pub open spec fn messages_dir() -> Seq<char> {
    "LC_MESSAGES"@
}

/// The file name of the catalog called `name`.
pub open spec fn catalog_file_name(name: Seq<char>) -> Seq<char> {
    name + ".mo"@
}

/// The path of a catalog, segment by segment: the base directory, the
/// locale's directory, the messages directory, the catalog's file.
pub open spec fn catalog_segments(context: SessionContextView, locale: Seq<char>) -> Seq<
    Seq<char>,
> {
    seq![
        context.base_dir,
        locale,
        messages_dir(),
        catalog_file_name(context.catalog_name),
    ]
}

/// The path of the catalog that `context` names for `locale`, segment by
/// segment, to be joined by whoever opens the file.
pub fn catalog_path(context: &SessionContext, locale: &str) -> (segments: Vec<String>)
    ensures
        segments.deep_view() == catalog_segments(context@, locale@),
{
    let mut file_name = context.catalog_name.clone();
    file_name.append(".mo");
    let segments = vec![
        context.base_dir.clone(),
        String::from_str(locale),
        String::from_str("LC_MESSAGES"),
        file_name,
    ];
    assert(segments.deep_view() =~= catalog_segments(context@, locale@));
    segments
}

/// An immutable mapping from message key to message template.
pub struct MessageCatalog {
    inner: gettext::Catalog,
}

impl View for MessageCatalog {
    type V = Map<Seq<char>, Seq<char>>;

    closed spec fn view(&self) -> Map<Seq<char>, Seq<char>> {
        catalog_messages(self.inner)
    }
}

impl MessageCatalog {
    /// A catalog that translates nothing.
    pub fn empty() -> (catalog: MessageCatalog)
        ensures
            catalog@ == no_messages(),
    {
        MessageCatalog { inner: gettext::Catalog::empty() }
    }

    /// The catalog held in a file's `contents`; `None` stands for a file that
    /// could not be read. Whatever goes wrong, the result is the empty catalog.
    /// The file's frame is checked here; the parser sees well-framed files
    /// only.
    pub fn load(contents: Option<&[u8]>) -> (catalog: MessageCatalog)
        ensures
            catalog@ == loaded_messages(contents_view(contents)),
    {
        match contents {
            Some(bytes) => if is_well_framed(bytes) {
                MessageCatalog::from_parsed(parse_catalog(bytes))
            } else {
                MessageCatalog::empty()
            },
            None => MessageCatalog::empty(),
        }
    }

    /// As [`MessageCatalog::load`], under a mode: in strict mode a file that
    /// could not be read, that is not well framed, or that the parser
    /// rejects, is reported as `CatalogUnavailable` and not replaced by the
    /// empty catalog.
    pub fn load_with(strict_mode: bool, contents: Option<&[u8]>) -> (catalog: Result<
        MessageCatalog,
        CommandError,
    >)
        ensures
            catalog_view(catalog) == loaded_with(strict_mode, contents_view(contents)),
    {
        match contents {
            Some(bytes) => if is_well_framed(bytes) {
                MessageCatalog::from_parsed_with(strict_mode, parse_catalog(bytes))
            } else {
                MessageCatalog::from_parsed_with(strict_mode, None)
            },
            None => MessageCatalog::from_parsed_with(strict_mode, None),
        }
    }

    /// The catalog that stands for a parser's outcome under a mode: the
    /// parsed one; where there is none, the empty one in lenient mode and
    /// `CatalogUnavailable` in strict mode.
    pub fn from_parsed_with(strict_mode: bool, parsed: Option<gettext::Catalog>) -> (catalog:
        Result<MessageCatalog, CommandError>)
        ensures
            catalog_view(catalog) == (match parsed {
                Some(inner) => Ok(catalog_messages(inner)),
                None => if strict_mode {
                    Err(CommandErrorView::CatalogUnavailable)
                } else {
                    Ok(no_messages())
                },
            }),
    {
        match parsed {
            Some(inner) => Ok(MessageCatalog { inner }),
            None => if strict_mode {
                Err(CommandError::CatalogUnavailable)
            } else {
                Ok(MessageCatalog::empty())
            },
        }
    }

    /// The catalog that stands for a parser's outcome: the parsed one, or the
    /// empty one where there is none.
    pub fn from_parsed(parsed: Option<gettext::Catalog>) -> (catalog: MessageCatalog)
        ensures
            catalog@ == (match parsed {
                Some(inner) => catalog_messages(inner),
                None => no_messages(),
            }),
    {
        match parsed {
            Some(inner) => MessageCatalog { inner },
            None => MessageCatalog::empty(),
        }
    }

    /// The template for `key`: its translation, or `key` itself.
    pub fn lookup(&self, key: &str) -> (template: String)
        ensures
            template@ == translation(self@, key@),
    {
        self.inner.gettext(key).to_owned()
    }
}

} // verus!
