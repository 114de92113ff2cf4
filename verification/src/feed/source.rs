//! Where a feed comes from: a web address or a local file.

use vstd::prelude::*;

use crate::helpers::text::starts_with;

verus! {

/// A source for a feed.
#[derive(Debug, PartialEq, Eq, Hash)]
pub enum FeedSource {
    /// A file on this machine, by its absolute path.
    File(String),
    /// A web address that begins with `http://` or `https://`.
    Http(String),
}

/// A [`FeedSource`] as contracts see it.
pub enum FeedSourceView {
    File(Seq<char>),
    Http(Seq<char>),
}

impl View for FeedSource {
    type V = FeedSourceView;

    open spec fn view(&self) -> FeedSourceView {
        match self {
            FeedSource::File(p) => FeedSourceView::File(p@),
            FeedSource::Http(s) => FeedSourceView::Http(s@),
        }
    }
}

impl Clone for FeedSource {
    fn clone(&self) -> (copy: FeedSource)
        ensures
            copy@ == self@,
    {
        match self {
            FeedSource::File(p) => FeedSource::File(p.clone()),
            FeedSource::Http(s) => FeedSource::Http(s.clone()),
        }
    }
}

/// The prefix that marks a file source.
pub open spec fn file_prefix() -> Seq<char> {
    "file://"@
}

/// Whether `s` begins like a web address.
pub open spec fn is_web_address(s: Seq<char>) -> bool {
    "http://"@.is_prefix_of(s) || "https://"@.is_prefix_of(s)
}

/// Whether `p` is an absolute path: it begins at the root.
pub open spec fn is_absolute_path(p: Seq<char>) -> bool {
    p.len() > 0 && p[0] == '/'
}

/// Why a string is no source.
pub enum SourceError {
    /// The string names a file by a path that is not absolute.
    RelativePath(Seq<char>),
    /// The string has none of the prefixes of a source.
    Invalid(Seq<char>),
}

/// What parsing `s` gives: the source, or why `s` is none.
pub open spec fn parse_source(s: Seq<char>) -> Result<FeedSourceView, SourceError> {
    if is_web_address(s) {
        Ok(FeedSourceView::Http(s))
    } else if file_prefix().is_prefix_of(s) {
        let path = s.skip(file_prefix().len() as int);
        if is_absolute_path(path) {
            Ok(FeedSourceView::File(path))
        } else {
            Err(SourceError::RelativePath(path))
        }
    } else {
        Err(SourceError::Invalid(s))
    }
}

/// Whether `message` tells the error `error`. For a path that is not
/// absolute it begins by saying so; what follows shows the path. For an
/// invalid source it says so and repeats the string that was given.
pub open spec fn tells(message: Seq<char>, error: SourceError) -> bool {
    match error {
        SourceError::RelativePath(_) => "File path must be absolute: "@.is_prefix_of(message),
        SourceError::Invalid(s) => message == "Invalid source: "@ + s,
    }
}

/// The string form of a source.
pub open spec fn source_text(source: FeedSourceView) -> Seq<char> {
    match source {
        FeedSourceView::File(p) => file_prefix() + p,
        FeedSourceView::Http(s) => s,
    }
}

/// A source that parsing can give: a web address has one of the two
/// prefixes, a file path is absolute.
pub open spec fn is_valid_source(source: FeedSourceView) -> bool {
    match source {
        FeedSourceView::File(p) => is_absolute_path(p),
        FeedSourceView::Http(s) => is_web_address(s),
    }
}

/// The `Debug` formatting of `std::path::Path`, for the path that `p`
/// spells. Nothing is claimed of the text: it is the path in quotes, escaped
/// as the platform sees fit.
#[verifier::external_body]
fn path_debug(p: &str) -> String {
    format!("{:?}", std::path::Path::new(p))
}

fn is_absolute(p: &str) -> (r: bool)
    ensures
        r == is_absolute_path(p@),
{
    proof {
        reveal_strlit("/");
    }
    let r = starts_with(p, "/");
    proof {
        if is_absolute_path(p@) {
            assert("/"@ =~= p@.subrange(0, 1));
        }
        if r {
            assert(p@.subrange(0, 1)[0] == "/"@[0]);
        }
    }
    r
}

impl FeedSource {
    /// Parses a source from its string form.
    ///
    /// A string that begins with `http://` or `https://` is a web address,
    /// kept whole. One that begins with `file://` names a file: what follows
    /// that one prefix is its path, which must be absolute. Anything else
    /// is refused, and the error says why.
    pub fn from_str(s: &str) -> (r: Result<FeedSource, String>)
        ensures
            match (r, parse_source(s@)) {
                (Ok(source), Ok(expected)) => source@ == expected,
                (Err(message), Err(error)) => tells(message@, error),
                _ => false,
            },
    {
        if starts_with(s, "http://") || starts_with(s, "https://") {
            return Ok(FeedSource::Http(String::from_str(s)));
        }
        if starts_with(s, "file://") {
            proof {
                reveal_strlit("file://");
            }
            let path = s.substring_char(7, s.unicode_len());
            assert(path@ =~= s@.skip(7));
            if !is_absolute(path) {
                let mut message = String::from_str("File path must be absolute: ");
                let shown = path_debug(path);
                message.append(shown.as_str());
                assert("File path must be absolute: "@ =~= message@.subrange(
                    0,
                    "File path must be absolute: "@.len() as int,
                ));
                return Err(message);
            }
            return Ok(FeedSource::File(String::from_str(path)));
        }
        let mut message = String::from_str("Invalid source: ");
        message.append(s);
        Err(message)
    }

    /// The string form of the source, which `from_str` reads back.
    pub fn to_string(&self) -> (text: String)
        ensures
            text@ == source_text(self@),
    {
        match self {
            FeedSource::File(p) => {
                let mut text = String::from_str("file://");
                text.append(p.as_str());
                text
            },
            FeedSource::Http(s) => s.clone(),
        }
    }
}

/// Writing a valid source as a string and parsing that string gives the
/// source back.
pub proof fn lemma_source_round_trip(source: FeedSourceView)
    requires
        is_valid_source(source),
    ensures
        parse_source(source_text(source)) == Ok::<FeedSourceView, SourceError>(source),
{
    reveal_strlit("file://");
    reveal_strlit("http://");
    reveal_strlit("https://");
    match source {
        FeedSourceView::Http(s) => {},
        FeedSourceView::File(p) => {
            let text = file_prefix() + p;
            assert(file_prefix() =~= text.subrange(0, 7));
            assert(text.skip(7) =~= p);
            assert(!"http://"@.is_prefix_of(text)) by {
                if "http://"@.is_prefix_of(text) {
                    assert(text.subrange(0, 7)[0] == "http://"@[0]);
                }
            }
            assert(!"https://"@.is_prefix_of(text)) by {
                if "https://"@.is_prefix_of(text) {
                    assert(text.subrange(0, 8)[0] == "https://"@[0]);
                }
            }
        },
    }
}

} // verus!
