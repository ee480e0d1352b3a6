//! Where the images of a thread are saved: the thread's identity, taken from
//! its URL, and the path of each image below the save root.

use vstd::prelude::*;
use crate::web_url::{is_web_scheme, url_parses, url_scheme, url_verdict, validate_url, UrlError, WebUrl};

verus! {

/// The thread id: the second-to-last path segment when there are more than
/// three, else the last one.
pub open spec fn thread_id_of(segs: Seq<Seq<char>>) -> Seq<char>
    recommends
        segs.len() >= 1,
{
    if segs.len() > 3 {
        segs[segs.len() - 2]
    } else {
        segs.last()
    }
}

/// The thread name: the last path segment when there are more than three.
pub open spec fn thread_name_of(segs: Seq<Seq<char>>) -> Option<Seq<char>> {
    if segs.len() > 3 {
        Some(segs.last())
    } else {
        None
    }
}

/// The directory of a thread: `"{name} - {id}"`, or `"{id}"` without a name.
pub open spec fn thread_dir_of(segs: Seq<Seq<char>>) -> Seq<char> {
    match thread_name_of(segs) {
        Some(name) => name + seq![' ', '-', ' '] + thread_id_of(segs),
        None => thread_id_of(segs),
    }
}

/// `part` appended to `base` as one more path component.
pub open spec fn join_path_spec(base: Seq<char>, part: Seq<char>) -> Seq<char> {
    if base.len() == 0 {
        part
    } else if base.last() == '/' {
        base + part
    } else {
        base + seq!['/'] + part
    }
}

/// Where an image is saved: save root, thread directory, then the image's
/// last path segment.
pub open spec fn resolved_path(
    root: Seq<char>,
    thread_segs: Seq<Seq<char>>,
    image_segs: Seq<Seq<char>>,
) -> Seq<char> {
    join_path_spec(join_path_spec(root, thread_dir_of(thread_segs)), image_segs.last())
}

/// The settings of one run, fixed before any network access.
pub struct Enviroment {
    /// Per-image failures are reported and skipped instead of ending the run.
    pub ignore_errors: bool,
    pub thread_url: WebUrl,
    pub save_location: String,
}

impl Enviroment {
    pub open spec fn wf(&self) -> bool {
        &&& self.thread_url.wf()
        &&& thread_id_of(self.thread_url.segs()).len() > 0
    }

    /// Checks the thread URL and fixes the settings; the save location is
    /// `.` unless one is given.
    pub fn new(thread_url: &str, save_location: Option<String>, ignore_errors: bool) -> (r: Result<
        Enviroment,
        ConfigError,
    >)
        ensures
            config_outcome(thread_url@, save_location, ignore_errors, r),
    {
        let url = match validate_url(thread_url) {
            Ok(u) => u,
            Err(e) => {
                return Err(ConfigError::Url(e));
            },
        };
        let (id, _) = thread_id_and_name(&url);
        if id.unicode_len() == 0 {
            return Err(ConfigError::EmptyThreadId);
        }
        let save_location = match save_location {
            Some(s) => s,
            None => {
                let here = String::from_str(".");
                proof {
                    reveal_strlit(".");
                    assert(here@ =~= seq!['.']);
                }
                here
            },
        };
        Ok(Enviroment { ignore_errors, thread_url: url, save_location })
    }
}

/// `r` is what the settings of a run come to: the thread URL read by the
/// `url` crate when it is accepted and names a thread id, else the reason.
pub open spec fn config_outcome(
    thread_url: Seq<char>,
    save_location: Option<String>,
    ignore_errors: bool,
    r: Result<Enviroment, ConfigError>,
) -> bool {
    match r {
        Ok(env) => {
            &&& url_verdict(thread_url) is Ok
            &&& env.thread_url.read_from(thread_url)
            &&& env.wf()
            &&& env.ignore_errors == ignore_errors
            &&& env.save_location@ == match save_location {
                Some(s) => s@,
                None => seq!['.'],
            }
        },
        Err(ConfigError::Url(e)) => url_verdict(thread_url) == Err::<(), UrlError>(e),
        Err(ConfigError::EmptyThreadId) => {
            &&& url_verdict(thread_url) is Ok
            &&& url_path_id_empty(thread_url)
        },
    }
}

/// A thread URL that does not parse, or whose scheme is neither `http` nor
/// `https`, is refused when the settings are made, so before anything is
/// fetched.
pub proof fn lemma_bad_thread_url_refused(
    thread_url: Seq<char>,
    save_location: Option<String>,
    ignore_errors: bool,
    r: Result<Enviroment, ConfigError>,
)
    requires
        !url_parses(thread_url) || !is_web_scheme(url_scheme(thread_url)),
        config_outcome(thread_url, save_location, ignore_errors, r),
    ensures
        r matches Err(ConfigError::Url(e)) && (e == UrlError::Unparseable || e
            == UrlError::UnsupportedScheme),
{
}

/// The thread id that the `url` crate's reading of `raw` gives is empty.
pub open spec fn url_path_id_empty(raw: Seq<char>) -> bool {
    match crate::web_url::url_path_segments(raw) {
        Some(segs) => thread_id_of(segs).len() == 0,
        None => false,
    }
}

/// Why the settings of a run are refused.
#[derive(Debug, Clone, Copy, PartialEq, Eq, Structural)]
pub enum ConfigError {
    /// The thread URL is not an accepted web URL.
    Url(UrlError),
    /// The thread URL names no thread id.
    EmptyThreadId,
}

/// The thread id and, when the URL has more than three path segments, the
/// thread name.
pub fn thread_id_and_name(thread_url: &WebUrl) -> (r: (String, Option<String>))
    requires
        thread_url.wf(),
    ensures
        r.0@ == thread_id_of(thread_url.segs()),
        (match r.1 {
            Some(name) => Some(name@),
            None => None,
        }) == thread_name_of(thread_url.segs()),
{
    let segs = &thread_url.segments;
    let n = segs.len();
    if n > 3 {
        (segs[n - 2].clone(), Some(segs[n - 1].clone()))
    } else {
        (segs[n - 1].clone(), None)
    }
}

fn join_path(base: &str, part: &str) -> (r: String)
    ensures
        r@ == join_path_spec(base@, part@),
{
    let n = base.unicode_len();
    let mut r = String::from_str(base);
    if n > 0 && base.get_char(n - 1) != '/' {
        r.append("/");
        proof {
            reveal_strlit("/");
        }
    }
    r.append(part);
    r
}

/// The file an image is saved to: the save location, then the thread's
/// directory, then the image's last path segment.
pub fn url_to_file_path(img_url: &WebUrl, env: &Enviroment) -> (r: String)
    requires
        img_url.wf(),
        env.thread_url.wf(),
    ensures
        r@ == resolved_path(env.save_location@, env.thread_url.segs(), img_url.segs()),
{
    let (id, name) = thread_id_and_name(&env.thread_url);
    let dir = match name {
        Some(name) => {
            let mut d = name;
            d.append(" - ");
            d.append(id.as_str());
            proof {
                reveal_strlit(" - ");
            }
            d
        },
        None => id,
    };
    let thread_dir = join_path(env.save_location.as_str(), dir.as_str());
    let image_id = &img_url.segments[img_url.segments.len() - 1];
    join_path(thread_dir.as_str(), image_id.as_str())
}

/// Two resolutions of the same inputs give the same path: the destination
/// depends on the save root, the thread URL and the image URL alone.
pub proof fn lemma_resolved_path_deterministic(
    root1: Seq<char>,
    root2: Seq<char>,
    thread1: Seq<Seq<char>>,
    thread2: Seq<Seq<char>>,
    image1: Seq<Seq<char>>,
    image2: Seq<Seq<char>>,
)
    requires
        root1 == root2,
        thread1 == thread2,
        image1 == image2,
    ensures
        resolved_path(root1, thread1, image1) == resolved_path(root2, thread2, image2),
{
}

} // verus!
