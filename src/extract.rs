//! The image links of a thread page, found with the `scraper` crate.

use vstd::prelude::*;
use crate::web_url::{image_url_text, img_path_2_url, url_verdict, UrlError, WebUrl};

verus! {

/// What `scraper` finds in the document `html`: `None` when `outer` or
/// `inner` is not a selector; else, for each element that `outer` matches, in
/// document order, the value of attribute `attr` on the first element that
/// `inner` matches in that element's inner HTML, if there is such a value.
pub uninterp spec fn scraped_first_attrs(
    html: Seq<char>,
    outer: Seq<char>,
    inner: Seq<char>,
    attr: Seq<char>,
) -> Option<Seq<Option<Seq<char>>>>;

pub open spec fn links_view(v: Seq<Option<String>>) -> Seq<Option<Seq<char>>> {
    v.map_values(
        |l: Option<String>|
            match l {
                Some(s) => Some(s@),
                None => None,
            },
    )
}

pub open spec fn opt_links_view(v: Option<Vec<Option<String>>>) -> Option<Seq<Option<Seq<char>>>> {
    match v {
        Some(links) => Some(links_view(links@)),
        None => None,
    }
}

/// Relies on `scraper::Html::parse_document`, `Selector::parse`, `Html::select`,
/// `ElementRef::inner_html`, `Html::parse_fragment` and `Element::attr`.
#[verifier::external_body]
fn select_first_attrs(html: &str, outer: &str, inner: &str, attr: &str) -> (r: Option<
    Vec<Option<String>>,
>)
    ensures
        opt_links_view(r) == scraped_first_attrs(html@, outer@, inner@, attr@),
{
    let doc = scraper::Html::parse_document(html);
    let outer = scraper::Selector::parse(outer).ok()?;
    let inner = scraper::Selector::parse(inner).ok()?;
    Some(doc.select(&outer).map(|node| {
        let fragment = scraper::Html::parse_fragment(&node.inner_html());
        let first = fragment.select(&inner).next();
        first.and_then(|a| a.value().attr(attr)).map(|v| v.to_string())
    }).collect())
}

/// Why the links of a thread page cannot be read.
#[derive(Debug, Clone, Copy, PartialEq, Eq, Structural)]
pub enum ExtractError {
    /// A selector of the page format does not parse.
    BadSelector,
    /// The attachment at `index` holds no link.
    MissingLink { index: usize },
    /// The link of the attachment at `index` does not make an image URL.
    BadImageUrl { index: usize, reason: UrlError },
}

/// The link makes an accepted image URL.
pub open spec fn link_ok(link: Option<Seq<char>>) -> bool {
    link matches Some(p) && url_verdict(image_url_text(p)) is Ok
}

/// `r` is the outcome owed for the attachment links `links`: the image URL of
/// each link, in order, or the first link that fails and why.
pub open spec fn links_outcome(links: Seq<Option<Seq<char>>>, r: Result<Vec<WebUrl>, ExtractError>) -> bool {
    match r {
        Ok(urls) => {
            &&& forall|i: int| 0 <= i < links.len() ==> link_ok(#[trigger] links[i])
            &&& urls@.len() == links.len()
            &&& forall|i: int|
                0 <= i < links.len() ==> (#[trigger] urls@[i]).wf() && urls@[i].read_from(
                    image_url_text(links[i]->0),
                )
        },
        Err(ExtractError::MissingLink { index }) => {
            &&& index < links.len()
            &&& forall|j: int| 0 <= j < index ==> link_ok(#[trigger] links[j])
            &&& links[index as int] is None
        },
        Err(ExtractError::BadImageUrl { index, reason }) => {
            &&& index < links.len()
            &&& forall|j: int| 0 <= j < index ==> link_ok(#[trigger] links[j])
            &&& links[index as int] matches Some(p)
            &&& url_verdict(image_url_text(p)) == Err::<(), UrlError>(reason)
        },
        Err(ExtractError::BadSelector) => false,
    }
}

/// The image URLs of the attachment links taken from a thread page: each
/// link prefixed with `https:`. A missing link, or one that makes no URL,
/// means the page is not in the expected format.
pub fn image_urls_from_links(links: &Vec<Option<String>>) -> (r: Result<Vec<WebUrl>, ExtractError>)
    ensures
        links_outcome(links_view(links@), r),
{
    let ghost lv = links_view(links@);
    let mut urls: Vec<WebUrl> = Vec::new();
    let mut i: usize = 0;
    while i < links.len()
        invariant
            lv == links_view(links@),
            i <= links@.len(),
            urls@.len() == i,
            forall|j: int| 0 <= j < i ==> link_ok(#[trigger] lv[j]),
            forall|j: int|
                0 <= j < i ==> (#[trigger] urls@[j]).wf() && urls@[j].read_from(
                    image_url_text(lv[j]->0),
                ),
        decreases links.len() - i,
    {
        match &links[i] {
            None => {
                return Err(ExtractError::MissingLink { index: i });
            },
            Some(path) => {
                match img_path_2_url(path.as_str()) {
                    Ok(u) => {
                        urls.push(u);
                    },
                    Err(reason) => {
                        return Err(ExtractError::BadImageUrl { index: i, reason });
                    },
                }
            },
        }
        i = i + 1;
    }
    Ok(urls)
}

/// The image URLs of a thread page, in document order: the link of the first
/// `a[href]` inside each `div` whose class is `fileText`, prefixed with
/// `https:`.
pub fn images_in_thread_list(html: &str) -> (r: Result<Vec<WebUrl>, ExtractError>)
    ensures
        match scraped_first_attrs(html@, "div[class=\"fileText\"]"@, "a[href]"@, "href"@) {
            None => r == Err::<Vec<WebUrl>, ExtractError>(ExtractError::BadSelector),
            Some(links) => links_outcome(links, r),
        },
{
    match select_first_attrs(html, "div[class=\"fileText\"]", "a[href]", "href") {
        None => Err(ExtractError::BadSelector),
        Some(links) => image_urls_from_links(&links),
    }
}

} // verus!
