//! Absolute web URLs, parsed by the `url` crate and held as plain values.

use vstd::prelude::*;

verus! {

/// Whether `url::Url::parse` accepts the text.
pub uninterp spec fn url_parses(raw: Seq<char>) -> bool;

/// What `url::Url::scheme` returns for the URL parsed from the text.
pub uninterp spec fn url_scheme(raw: Seq<char>) -> Seq<char>;

/// What `url::Url::path_segments` yields for the URL parsed from the text.
pub uninterp spec fn url_path_segments(raw: Seq<char>) -> Option<Seq<Seq<char>>>;

/// What `url::Url::as_str` returns for the URL parsed from the text.
pub uninterp spec fn url_serialization(raw: Seq<char>) -> Seq<char>;

pub open spec fn strings_view(v: Seq<String>) -> Seq<Seq<char>> {
    v.map_values(|s: String| s@)
}

pub open spec fn opt_strings_view(v: Option<Vec<String>>) -> Option<Seq<Seq<char>>> {
    match v {
        Some(s) => Some(strings_view(s@)),
        None => None,
    }
}

/// The two schemes a web URL may have.
pub open spec fn is_web_scheme(s: Seq<char>) -> bool {
    s == seq!['h', 't', 't', 'p'] || s == seq!['h', 't', 't', 'p', 's']
}

/// A URL as the `url` crate reads it: its text, scheme and path segments.
pub(crate) struct UrlParts {
    pub text: String,
    pub scheme: String,
    pub segments: Option<Vec<String>>,
}

/// Relies on `url::Url::parse` (which texts are URLs), and on `Url::as_str`,
/// `Url::scheme` and `Url::path_segments` of the parsed value. The documentation
/// of `path_segments` promises at least one segment when there are any.
#[verifier::external_body]
fn parse_url(raw: &str) -> (r: Option<UrlParts>)
    ensures
        r is Some <==> url_parses(raw@),
        r matches Some(p) ==> p.text@ == url_serialization(raw@),
        r matches Some(p) ==> p.scheme@ == url_scheme(raw@),
        r matches Some(p) ==> opt_strings_view(p.segments) == url_path_segments(raw@),
        r matches Some(p) ==> (p.segments matches Some(s) ==> s@.len() >= 1),
{
    let u = url::Url::parse(raw).ok()?;
    Some(UrlParts {
        text: u.as_str().to_string(),
        scheme: u.scheme().to_string(),
        segments: u.path_segments().map(|s| s.map(|x| x.to_string()).collect()),
    })
}

/// Why a text is not an accepted web URL.
#[derive(Debug, Clone, Copy, PartialEq, Eq, Structural)]
pub enum UrlError {
    /// The text does not parse as an absolute URL.
    Unparseable,
    /// The scheme is neither `http` nor `https`.
    UnsupportedScheme,
    /// The URL has no hierarchical path.
    NotHierarchical,
}

/// The verdict on a text: accepted, or the first reason it is not.
pub open spec fn url_verdict(raw: Seq<char>) -> Result<(), UrlError> {
    if !url_parses(raw) {
        Err(UrlError::Unparseable)
    } else if !is_web_scheme(url_scheme(raw)) {
        Err(UrlError::UnsupportedScheme)
    } else if url_path_segments(raw) is None {
        Err(UrlError::NotHierarchical)
    } else {
        Ok(())
    }
}

/// An absolute `http` or `https` URL with a hierarchical path.
pub struct WebUrl {
    pub text: String,
    pub scheme: String,
    pub segments: Vec<String>,
}

impl WebUrl {
    pub open spec fn wf(&self) -> bool {
        &&& is_web_scheme(self.scheme@)
        &&& self.segments@.len() >= 1
    }

    /// The path segments as character sequences.
    pub open spec fn segs(&self) -> Seq<Seq<char>> {
        strings_view(self.segments@)
    }

    /// This value is what the `url` crate reads from `raw`.
    pub open spec fn read_from(&self, raw: Seq<char>) -> bool {
        &&& self.text@ == url_serialization(raw)
        &&& self.scheme@ == url_scheme(raw)
        &&& url_path_segments(raw) == Some(self.segs())
    }

    /// The URL's text.
    pub fn as_str(&self) -> (r: &str)
        ensures
            r@ == self.text@,
    {
        self.text.as_str()
    }
}

fn is_web_scheme_exec(s: &str) -> (r: bool)
    ensures
        r == is_web_scheme(s@),
{
    let n = s.unicode_len();
    if n != 4 && n != 5 {
        return false;
    }
    let ok = s.get_char(0) == 'h' && s.get_char(1) == 't' && s.get_char(2) == 't'
        && s.get_char(3) == 'p' && (n == 4 || s.get_char(4) == 's');
    proof {
        if ok {
            if n == 4 {
                assert(s@ =~= seq!['h', 't', 't', 'p']);
            } else {
                assert(s@ =~= seq!['h', 't', 't', 'p', 's']);
            }
        }
    }
    ok
}

/// Accepts `raw` when it parses as an absolute URL whose scheme is `http` or
/// `https`; anything else is refused with the reason.
pub fn validate_url(raw: &str) -> (r: Result<WebUrl, UrlError>)
    ensures
        match r {
            Ok(u) => url_verdict(raw@) is Ok && u.read_from(raw@) && u.wf(),
            Err(e) => url_verdict(raw@) == Err::<(), UrlError>(e),
        },
{
    match parse_url(raw) {
        None => Err(UrlError::Unparseable),
        Some(p) => {
            if !is_web_scheme_exec(p.scheme.as_str()) {
                Err(UrlError::UnsupportedScheme)
            } else {
                match p.segments {
                    None => Err(UrlError::NotHierarchical),
                    Some(segments) => Ok(WebUrl { text: p.text, scheme: p.scheme, segments }),
                }
            }
        },
    }
}

/// The text of an image URL: `https:` followed by the protocol-relative path.
pub open spec fn image_url_text(img_path: Seq<char>) -> Seq<char> {
    seq!['h', 't', 't', 'p', 's', ':'] + img_path
}

/// Turns a protocol-relative path taken from a thread page into an absolute
/// `https` URL.
pub fn img_path_2_url(img_path: &str) -> (r: Result<WebUrl, UrlError>)
    ensures
        match r {
            Ok(u) => url_verdict(image_url_text(img_path@)) is Ok
                && u.read_from(image_url_text(img_path@)) && u.wf(),
            Err(e) => url_verdict(image_url_text(img_path@)) == Err::<(), UrlError>(e),
        },
{
    let mut url = String::from_str("https:");
    proof {
        reveal_strlit("https:");
    }
    url.append(img_path);
    assert(url@ =~= image_url_text(img_path@));
    validate_url(url.as_str())
}

} // verus!
