//! The download stage of a run: one task per image, the outcome of each, and
//! how the failure policy turns the outcomes into a report and an exit code.

use vstd::prelude::*;
use crate::layout::{resolved_path, url_to_file_path, Enviroment};
use crate::extract::{links_outcome, ExtractError};
use crate::web_url::{strings_view, WebUrl};

verus! {

/// One image to fetch and the file to write it to.
pub struct DownloadTask {
    pub url: String,
    pub path: String,
}

/// The download tasks of a run, one per image URL, in the same order.
pub fn download_tasks(env: &Enviroment, images: &Vec<WebUrl>) -> (r: Vec<DownloadTask>)
    requires
        env.wf(),
        forall|i: int| 0 <= i < images@.len() ==> (#[trigger] images@[i]).wf(),
    ensures
        r@.len() == images@.len(),
        forall|i: int|
            0 <= i < images@.len() ==> {
                &&& (#[trigger] r@[i]).url@ == images@[i].text@
                &&& r@[i].path@ == resolved_path(
                    env.save_location@,
                    env.thread_url.segs(),
                    images@[i].segs(),
                )
            },
{
    let mut tasks: Vec<DownloadTask> = Vec::new();
    let mut i: usize = 0;
    while i < images.len()
        invariant
            env.wf(),
            forall|k: int| 0 <= k < images@.len() ==> (#[trigger] images@[k]).wf(),
            i <= images@.len(),
            tasks@.len() == i,
            forall|k: int|
                0 <= k < i ==> {
                    &&& (#[trigger] tasks@[k]).url@ == images@[k].text@
                    &&& tasks@[k].path@ == resolved_path(
                        env.save_location@,
                        env.thread_url.segs(),
                        images@[k].segs(),
                    )
                },
        decreases images.len() - i,
    {
        let image = &images[i];
        let path = url_to_file_path(image, env);
        tasks.push(DownloadTask { url: image.text.clone(), path });
        i = i + 1;
    }
    tasks
}

/// The step of a download that failed.
#[derive(Debug, Clone, Copy, PartialEq, Eq, Structural)]
pub enum Stage {
    Fetch,
    Write,
}

/// A download that did not end in a saved file.
pub struct Failure {
    pub url: String,
    pub path: String,
    pub reason: String,
    pub stage: Stage,
}

impl View for Failure {
    type V = (Seq<char>, Seq<char>, Seq<char>, Stage);

    open spec fn view(&self) -> Self::V {
        (self.url@, self.path@, self.reason@, self.stage)
    }
}

impl Failure {
    /// An equal copy.
    pub fn duplicate(&self) -> (r: Failure)
        ensures
            r@ == self@,
    {
        Failure {
            url: self.url.clone(),
            path: self.path.clone(),
            reason: self.reason.clone(),
            stage: self.stage,
        }
    }

    /// The diagnostic line of the failure: the image URL when fetching
    /// failed, the file path when writing failed, then the reason.
    pub fn message(&self) -> (r: String)
        ensures
            r@ == failure_message(self@),
    {
        let mut m = match self.stage {
            Stage::Fetch => String::from_str("Failed to get a image("),
            Stage::Write => String::from_str("Failed to save a file("),
        };
        match self.stage {
            Stage::Fetch => m.append(self.url.as_str()),
            Stage::Write => m.append(self.path.as_str()),
        }
        m.append("), reason: ");
        m.append(self.reason.as_str());
        proof {
            reveal_strlit("Failed to get a image(");
            reveal_strlit("Failed to save a file(");
            reveal_strlit("), reason: ");
        }
        m
    }
}

pub open spec fn failure_message(f: (Seq<char>, Seq<char>, Seq<char>, Stage)) -> Seq<char> {
    let (url, path, reason, stage) = f;
    match stage {
        Stage::Fetch => "Failed to get a image("@ + url + "), reason: "@ + reason,
        Stage::Write => "Failed to save a file("@ + path + "), reason: "@ + reason,
    }
}

/// What became of one download task.
pub enum DownloadOutcome {
    /// The image was written to this path.
    Saved(String),
    Failed(Failure),
}

impl DownloadOutcome {
    /// The outcome of a task from the errors of its two steps; writing is
    /// only attempted after a successful fetch.
    pub fn from_steps(task: &DownloadTask, fetch_error: Option<String>, write_error: Option<String>) -> (r: DownloadOutcome)
        ensures
            match fetch_error {
                Some(e) => r matches DownloadOutcome::Failed(f) && f@ == (task.url@, task.path@, e@, Stage::Fetch),
                None => match write_error {
                    Some(e) => r matches DownloadOutcome::Failed(f) && f@ == (task.url@, task.path@, e@, Stage::Write),
                    None => r matches DownloadOutcome::Saved(p) && p@ == task.path@,
                },
            },
    {
        match fetch_error {
            Some(e) => DownloadOutcome::Failed(
                Failure { url: task.url.clone(), path: task.path.clone(), reason: e, stage: Stage::Fetch },
            ),
            None => match write_error {
                Some(e) => DownloadOutcome::Failed(
                    Failure { url: task.url.clone(), path: task.path.clone(), reason: e, stage: Stage::Write },
                ),
                None => DownloadOutcome::Saved(task.path.clone()),
            },
        }
    }
}

/// What a run does with a failed download.
#[derive(Debug, Clone, Copy, PartialEq, Eq, Structural)]
pub enum FailurePolicy {
    /// The first failure is fatal to the run.
    AbortOnFirst,
    /// Failures are reported and the run still succeeds.
    SkipAndReport,
}

impl FailurePolicy {
    /// The policy a run's settings ask for.
    pub fn of(env: &Enviroment) -> (r: FailurePolicy)
        ensures
            r == (if env.ignore_errors {
                FailurePolicy::SkipAndReport
            } else {
                FailurePolicy::AbortOnFirst
            }),
    {
        if env.ignore_errors {
            FailurePolicy::SkipAndReport
        } else {
            FailurePolicy::AbortOnFirst
        }
    }
}

/// The paths of the saved images, in the order of the outcomes.
pub open spec fn saved_paths(outs: Seq<DownloadOutcome>) -> Seq<Seq<char>>
    decreases outs.len(),
{
    if outs.len() == 0 {
        seq![]
    } else {
        let rest = saved_paths(outs.drop_last());
        match outs.last() {
            DownloadOutcome::Saved(p) => rest.push(p@),
            DownloadOutcome::Failed(_) => rest,
        }
    }
}

/// The failures, in the order of the outcomes.
pub open spec fn failures_of(outs: Seq<DownloadOutcome>) -> Seq<(Seq<char>, Seq<char>, Seq<char>, Stage)>
    decreases outs.len(),
{
    if outs.len() == 0 {
        seq![]
    } else {
        let rest = failures_of(outs.drop_last());
        match outs.last() {
            DownloadOutcome::Saved(_) => rest,
            DownloadOutcome::Failed(f) => rest.push(f@),
        }
    }
}

/// The run succeeds: failures are tolerated, or there are none.
pub open spec fn run_succeeds(outs: Seq<DownloadOutcome>, policy: FailurePolicy) -> bool {
    policy == FailurePolicy::SkipAndReport || forall|i: int|
        0 <= i < outs.len() ==> (#[trigger] outs[i]) is Saved
}

/// The exit code of a run: 0 on success, 1 on a fatal error.
pub open spec fn exit_code_of(succeeded: bool) -> i32 {
    if succeeded {
        0
    } else {
        1
    }
}

/// The outcome is the failure `f`.
pub open spec fn failed_with(o: DownloadOutcome, f: (Seq<char>, Seq<char>, Seq<char>, Stage)) -> bool {
    o matches DownloadOutcome::Failed(g) && g@ == f
}

/// The report of a run that succeeded.
pub struct RunReport {
    /// The paths of the saved images.
    pub saved: Vec<String>,
    /// The failures that the policy let pass.
    pub failures: Vec<Failure>,
}

pub open spec fn failures_seq(v: Seq<Failure>) -> Seq<(Seq<char>, Seq<char>, Seq<char>, Stage)> {
    v.map_values(|f: Failure| f@)
}

/// Applies the failure policy to the outcomes of the download tasks, taken
/// in the order they completed. Under `AbortOnFirst` any failure is fatal
/// and the first one is returned; else every saved path and every failure is
/// reported.
pub fn summarize(outcomes: &Vec<DownloadOutcome>, policy: FailurePolicy) -> (r: Result<RunReport, Failure>)
    ensures
        r is Ok <==> run_succeeds(outcomes@, policy),
        r matches Ok(rep) ==> strings_view(rep.saved@) == saved_paths(outcomes@)
            && failures_seq(rep.failures@) == failures_of(outcomes@),
        r matches Err(f) ==> exists|i: int|
            {
                &&& 0 <= i < outcomes@.len()
                &&& forall|j: int| 0 <= j < i ==> (#[trigger] outcomes@[j]) is Saved
                &&& failed_with(#[trigger] outcomes@[i], f@)
            },
{
    let mut saved: Vec<String> = Vec::new();
    let mut failures: Vec<Failure> = Vec::new();
    let mut i: usize = 0;
    while i < outcomes.len()
        invariant
            i <= outcomes@.len(),
            strings_view(saved@) == saved_paths(outcomes@.take(i as int)),
            failures_seq(failures@) == failures_of(outcomes@.take(i as int)),
            policy == FailurePolicy::AbortOnFirst ==> forall|j: int|
                0 <= j < i ==> (#[trigger] outcomes@[j]) is Saved,
        decreases outcomes.len() - i,
    {
        let ghost prev = outcomes@.take(i as int);
        let ghost old_saved = saved@;
        let ghost old_failures = failures@;
        assert(outcomes@.take(i + 1).drop_last() =~= prev);
        assert(outcomes@.take(i + 1).last() == outcomes@[i as int]);
        match &outcomes[i] {
            DownloadOutcome::Saved(p) => {
                saved.push(p.clone());
                assert(strings_view(saved@) =~= strings_view(old_saved).push(p@));
            },
            DownloadOutcome::Failed(f) => {
                if policy == FailurePolicy::AbortOnFirst {
                    return Err(f.duplicate());
                }
                failures.push(f.duplicate());
                assert(failures_seq(failures@) =~= failures_seq(old_failures).push(f@));
            },
        }
        i = i + 1;
    }
    assert(outcomes@.take(outcomes@.len() as int) =~= outcomes@);
    Ok(RunReport { saved, failures })
}

/// The number of outcomes that are saved images.
pub open spec fn saved_count(outs: Seq<DownloadOutcome>) -> nat {
    outs.filter(|o: DownloadOutcome| o is Saved).len()
}

/// The number of outcomes that are failures.
pub open spec fn failed_count(outs: Seq<DownloadOutcome>) -> nat {
    outs.filter(|o: DownloadOutcome| o is Failed).len()
}

proof fn lemma_report_sizes(outs: Seq<DownloadOutcome>)
    ensures
        saved_paths(outs).len() == saved_count(outs),
        failures_of(outs).len() == failed_count(outs),
        saved_count(outs) + failed_count(outs) == outs.len(),
    decreases outs.len(),
{
    reveal(Seq::filter);
    if outs.len() > 0 {
        lemma_report_sizes(outs.drop_last());
    }
}

/// A thread page without attachments yields no image URL, so no download
/// task; the run then succeeds with nothing saved, nothing failed and exit
/// code 0, under either policy.
pub proof fn lemma_empty_thread_saves_nothing(
    links: Seq<Option<Seq<char>>>,
    extracted: Result<Vec<WebUrl>, ExtractError>,
    policy: FailurePolicy,
)
    requires
        links.len() == 0,
        links_outcome(links, extracted),
    ensures
        extracted matches Ok(urls) && urls@.len() == 0,
        run_succeeds(Seq::<DownloadOutcome>::empty(), policy),
        saved_paths(Seq::<DownloadOutcome>::empty()).len() == 0,
        failures_of(Seq::<DownloadOutcome>::empty()).len() == 0,
        exit_code_of(run_succeeds(Seq::<DownloadOutcome>::empty(), policy)) == 0,
{
}

/// Under `AbortOnFirst` one failed download makes the run fail with a
/// non-zero exit code, however many other downloads were saved.
pub proof fn lemma_abort_on_any_failure(outs: Seq<DownloadOutcome>, i: int)
    requires
        0 <= i < outs.len(),
        outs[i] is Failed,
    ensures
        !run_succeeds(outs, FailurePolicy::AbortOnFirst),
        exit_code_of(run_succeeds(outs, FailurePolicy::AbortOnFirst)) != 0,
{
}

/// Under `SkipAndReport` a batch of N saved images and M failures succeeds
/// with exit code 0 and reports N saved paths and M failures.
pub proof fn lemma_skip_reports_all(outs: Seq<DownloadOutcome>)
    ensures
        run_succeeds(outs, FailurePolicy::SkipAndReport),
        exit_code_of(run_succeeds(outs, FailurePolicy::SkipAndReport)) == 0,
        saved_paths(outs).len() == saved_count(outs),
        failures_of(outs).len() == failed_count(outs),
        saved_count(outs) + failed_count(outs) == outs.len(),
{
    lemma_report_sizes(outs);
}

/// The exit code of a run's result: 0 when it succeeded, 1 when it ended in
/// a fatal error.
pub fn exit_code<T, E>(result: &Result<T, E>) -> (r: i32)
    ensures
        r == exit_code_of(result is Ok),
{
    match result {
        Ok(_) => 0,
        Err(_) => 1,
    }
}

} // verus!
