//! The fetch plan: which of a day's two resources — the prompt page and the
//! input payload — still need a download, where each request goes, and where
//! its result is stored. A prompt file counts as complete only when it holds
//! the part-two marker; an input file counts as soon as it exists. Any
//! response with a non-success status aborts the whole run.

use vstd::prelude::*;
use vstd::string::*;
use crate::config::Config;
use crate::extract::{extract_prompt_text, prompt_text_of, selector_ok};
use crate::textops::{contains_seq, contains_substr, dec_int, dec_nat, i64_string, pad2, pad_day,
    u64_string};

verus! {

/// Why a run aborted.
#[derive(Debug, Clone, Copy, PartialEq, Eq, Structural)]
pub enum RunError {
    /// The session credential is empty; no request may be sent.
    EmptySession,
    /// A prompt page came back with a non-success status.
    PromptFetch,
    /// An input payload came back with a non-success status.
    InputFetch,
    /// The article selector was rejected by the HTML engine.
    BadSelector,
}

/// The marker that a stored prompt must hold to count as complete: the
/// fragment that a fully revealed two-part puzzle page carries.
pub open spec fn marker() -> Seq<char> {
    "id=\"part2\""@
}

/// Where a day's prompt text is stored.
pub open spec fn prompt_file_path(path: Seq<char>, day: Seq<char>) -> Seq<char> {
    path + "/prompt/"@ + pad2(day) + ".md"@
}

/// Where a day's input payload is stored.
pub open spec fn input_file_path(path: Seq<char>, day: Seq<char>, extension: Seq<char>) -> Seq<
    char,
> {
    path + "/"@ + pad2(day) + "."@ + extension
}

/// The URL of a day's prompt page.
pub open spec fn prompt_url(year: int, day: Seq<char>) -> Seq<char> {
    "https://adventofcode.com/"@ + dec_int(year) + "/day/"@ + day
}

/// The URL of a day's input payload.
pub open spec fn input_url(year: int, day: Seq<char>) -> Seq<char> {
    prompt_url(year, day) + "/input"@
}

/// Builds the storage path of a day's prompt text.
pub fn build_prompt_file_path(path: &str, day: &str) -> (r: String)
    ensures
        r@ == prompt_file_path(path@, day@),
{
    let mut r = String::from_str(path);
    r.append("/prompt/");
    let padded = pad_day(day);
    r.append(padded.as_str());
    r.append(".md");
    r
}

/// Builds the storage path of a day's input payload.
pub fn build_input_file_path(path: &str, day: &str, extension: &str) -> (r: String)
    ensures
        r@ == input_file_path(path@, day@, extension@),
{
    let mut r = String::from_str(path);
    r.append("/");
    let padded = pad_day(day);
    r.append(padded.as_str());
    r.append(".");
    r.append(extension);
    r
}

/// Builds the URL of a day's prompt page.
pub fn build_prompt_url(year: i64, day: &str) -> (r: String)
    ensures
        r@ == prompt_url(year as int, day@),
{
    let mut r = String::from_str("https://adventofcode.com/");
    let y = i64_string(year);
    r.append(y.as_str());
    r.append("/day/");
    r.append(day);
    r
}

/// Builds the URL of a day's input payload.
pub fn build_input_url(year: i64, day: &str) -> (r: String)
    ensures
        r@ == input_url(year as int, day@),
{
    let mut r = build_prompt_url(year, day);
    r.append("/input");
    r
}

/// The cookie header value that carries the session credential.
pub fn cookie_header(session: &str) -> (r: String)
    ensures
        r@ == "session="@ + session@ + ";"@,
{
    let mut r = String::from_str("session=");
    r.append(session);
    r.append(";");
    r
}

/// A run may only reach the network with a non-empty session credential;
/// this check comes before any request is sent.
pub fn preflight(config: &Config) -> (r: Result<(), RunError>)
    ensures
        r is Ok <==> config.session_present(),
        !config.session_present() ==> r == Err::<(), RunError>(RunError::EmptySession),
{
    if config.session.as_str().is_empty() {
        Err(RunError::EmptySession)
    } else {
        Ok(())
    }
}

/// The labels of all days of one year, in order: "1" through "25".
pub open spec fn all_days() -> Seq<Seq<char>> {
    Seq::new(25, |i: int| dec_nat((i + 1) as nat))
}

/// The days one run covers: the one selected day, or all 25 of the year.
pub fn days_to_fetch(day: Option<String>) -> (r: Vec<String>)
    ensures
        day matches Some(d) ==> r@.map_values(|s: String| s@) == seq![d@],
        day is None ==> r@.map_values(|s: String| s@) == all_days(),
{
    match day {
        Some(d) => {
            let mut v: Vec<String> = Vec::new();
            v.push(d);
            proof {
                assert(v@.map_values(|s: String| s@) =~= seq![v@[0]@]);
            }
            v
        },
        None => {
            let mut v: Vec<String> = Vec::new();
            let mut d: u64 = 1;
            while d <= 25
                invariant
                    1 <= d <= 26,
                    v@.len() == d - 1,
                    forall|k: int| 0 <= k < v@.len() ==> v@[k]@ == dec_nat((k + 1) as nat),
                decreases 26 - d,
            {
                v.push(u64_string(d));
                d += 1;
            }
            proof {
                assert(v@.map_values(|s: String| s@) =~= all_days());
            }
            v
        },
    }
}

/// A stored prompt counts as complete when it holds the part-two marker.
/// `content` is the stored file's text, or `None` when there is no file.
pub open spec fn prompt_complete(content: Option<Seq<char>>) -> bool {
    match content {
        Some(c) => contains_seq(c, marker()),
        None => false,
    }
}

/// Decides from the stored prompt file whether its download can be skipped.
pub fn prompt_is_cached(content: &Option<String>) -> (r: bool)
    ensures
        r == prompt_complete(content.deep_view()),
{
    match content {
        None => false,
        Some(c) => contains_substr(c.as_str(), "id=\"part2\""),
    }
}

/// One pending download: where the request goes and where its result is stored.
pub struct FetchTask {
    /// The URL to request.
    pub url: String,
    /// The file the fetched text is written to.
    pub target: String,
}

/// Model of one pending download.
#[verifier::ext_equal]
pub struct TaskModel {
    pub url: Seq<char>,
    pub target: Seq<char>,
}

impl View for FetchTask {
    type V = TaskModel;

    open spec fn view(&self) -> TaskModel {
        TaskModel { url: self.url@, target: self.target@ }
    }
}

/// A day's plan: a pending download for each resource not already cached.
pub struct DayPlan {
    /// The prompt download, or `None` when the stored prompt is complete.
    pub prompt: Option<FetchTask>,
    /// The input download, or `None` when the input file already exists.
    pub input: Option<FetchTask>,
}

/// Model of a day's plan.
#[verifier::ext_equal]
pub struct DayPlanModel {
    pub prompt: Option<TaskModel>,
    pub input: Option<TaskModel>,
}

impl View for DayPlan {
    type V = DayPlanModel;

    open spec fn view(&self) -> DayPlanModel {
        DayPlanModel {
            prompt: match self.prompt {
                Some(t) => Some(t@),
                None => None,
            },
            input: match self.input {
                Some(t) => Some(t@),
                None => None,
            },
        }
    }
}

/// The plan for one day: the prompt is re-fetched unless its stored file is
/// complete; the input is fetched unless its file exists. Each pending
/// download carries its URL and its storage path.
pub open spec fn spec_day_plan(
    year: int,
    path: Seq<char>,
    extension: Seq<char>,
    day: Seq<char>,
    prompt_file: Option<Seq<char>>,
    input_exists: bool,
) -> DayPlanModel {
    DayPlanModel {
        prompt: if prompt_complete(prompt_file) {
            None
        } else {
            Some(TaskModel { url: prompt_url(year, day), target: prompt_file_path(path, day) })
        },
        input: if input_exists {
            None
        } else {
            Some(
                TaskModel {
                    url: input_url(year, day),
                    target: input_file_path(path, day, extension),
                },
            )
        },
    }
}

/// Plans one day's downloads from the cache state: `prompt_file` is the
/// stored prompt's text (or `None` when there is no file), `input_exists`
/// whether the input file is present.
pub fn plan_day(config: &Config, day: &str, prompt_file: &Option<String>, input_exists: bool) -> (r:
    DayPlan)
    ensures
        r@ == spec_day_plan(
            config.year as int,
            config.path@,
            config.extension@,
            day@,
            prompt_file.deep_view(),
            input_exists,
        ),
{
    let prompt = if prompt_is_cached(prompt_file) {
        None
    } else {
        Some(
            FetchTask {
                url: build_prompt_url(config.year, day),
                target: build_prompt_file_path(config.path.as_str(), day),
            },
        )
    };
    let input = if input_exists {
        None
    } else {
        Some(
            FetchTask {
                url: build_input_url(config.year, day),
                target: build_input_file_path(
                    config.path.as_str(),
                    day,
                    config.extension.as_str(),
                ),
            },
        )
    };
    DayPlan { prompt, input }
}

/// An HTTP status counts as success exactly when it lies in the 2xx range.
pub open spec fn status_success(status: u16) -> bool {
    200 <= status < 300
}

/// Judges an HTTP status code.
pub fn status_is_success(status: u16) -> (r: bool)
    ensures
        r == status_success(status),
{
    200 <= status && status < 300
}

/// What becomes of a fetched prompt page: a non-success status aborts, a
/// rejected selector aborts, and otherwise the stored text is the page's
/// extracted article content.
pub open spec fn spec_prompt_outcome(status: u16, body: Seq<char>) -> Result<Seq<char>, RunError> {
    if !status_success(status) {
        Err(RunError::PromptFetch)
    } else if !selector_ok("article"@) {
        Err(RunError::BadSelector)
    } else {
        Ok(prompt_text_of(body))
    }
}

/// What becomes of a fetched input payload: a non-success status aborts,
/// and otherwise the body is stored verbatim.
pub open spec fn spec_input_outcome(status: u16, body: Seq<char>) -> Result<Seq<char>, RunError> {
    if !status_success(status) {
        Err(RunError::InputFetch)
    } else {
        Ok(body)
    }
}

/// Turns a prompt response into the text to store, or the error that aborts
/// the run.
pub fn prompt_content_from_response(status: u16, body: &str) -> (r: Result<String, RunError>)
    ensures
        r matches Ok(t) ==> spec_prompt_outcome(status, body@) == Ok::<Seq<char>, RunError>(t@),
        r matches Err(e) ==> spec_prompt_outcome(status, body@) == Err::<Seq<char>, RunError>(e),
        r is Ok <==> spec_prompt_outcome(status, body@) is Ok,
{
    if !status_is_success(status) {
        return Err(RunError::PromptFetch);
    }
    match extract_prompt_text(body) {
        None => Err(RunError::BadSelector),
        Some(t) => Ok(t),
    }
}

/// Turns an input response into the text to store, or the error that aborts
/// the run.
pub fn input_content_from_response(status: u16, body: &str) -> (r: Result<String, RunError>)
    ensures
        r matches Ok(t) ==> spec_input_outcome(status, body@) == Ok::<Seq<char>, RunError>(t@),
        r matches Err(e) ==> spec_input_outcome(status, body@) == Err::<Seq<char>, RunError>(e),
        r is Ok <==> spec_input_outcome(status, body@) is Ok,
{
    if status_is_success(status) {
        Ok(String::from_str(body))
    } else {
        Err(RunError::InputFetch)
    }
}

/// The four states a day can end in.
#[derive(Debug, Clone, Copy, PartialEq, Eq, Structural)]
pub enum DayOutcome {
    /// Both resources were downloaded.
    FetchedBoth,
    /// Only the prompt was already cached.
    SkippedPrompt,
    /// Only the input was already cached.
    SkippedInput,
    /// Both resources were already cached.
    SkippedBoth,
}

/// The outcome of one day, from which downloads its plan skipped.
pub open spec fn spec_day_outcome(prompt_skipped: bool, input_skipped: bool) -> DayOutcome {
    if prompt_skipped && input_skipped {
        DayOutcome::SkippedBoth
    } else if prompt_skipped {
        DayOutcome::SkippedPrompt
    } else if input_skipped {
        DayOutcome::SkippedInput
    } else {
        DayOutcome::FetchedBoth
    }
}

/// Reports a day's outcome from which downloads its plan skipped.
pub fn day_outcome(prompt_skipped: bool, input_skipped: bool) -> (r: DayOutcome)
    ensures
        r == spec_day_outcome(prompt_skipped, input_skipped),
{
    match (prompt_skipped, input_skipped) {
        (true, true) => DayOutcome::SkippedBoth,
        (true, false) => DayOutcome::SkippedPrompt,
        (false, true) => DayOutcome::SkippedInput,
        (false, false) => DayOutcome::FetchedBoth,
    }
}

/// The set of files a day's plan writes.
pub open spec fn planned_targets(day_plan: DayPlanModel) -> Set<Seq<char>> {
    (match day_plan.prompt {
        Some(t) => set![t.target],
        None => Set::<Seq<char>>::empty(),
    }).union(
        match day_plan.input {
            Some(t) => set![t.target],
            None => Set::<Seq<char>>::empty(),
        },
    )
}

/// With no cached files, a day's plan downloads both resources and writes
/// exactly the expected two files: the day's prompt path and input path.
pub proof fn law_fresh_day_fetches_both(
    year: int,
    path: Seq<char>,
    extension: Seq<char>,
    day: Seq<char>,
)
    ensures
        spec_day_plan(year, path, extension, day, None, false).prompt == Some(
            TaskModel { url: prompt_url(year, day), target: prompt_file_path(path, day) },
        ),
        spec_day_plan(year, path, extension, day, None, false).input == Some(
            TaskModel {
                url: input_url(year, day),
                target: input_file_path(path, day, extension),
            },
        ),
        planned_targets(spec_day_plan(year, path, extension, day, None, false)) =~= set![
            prompt_file_path(path, day),
            input_file_path(path, day, extension),
        ],
{
}

/// A stored prompt that holds the part-two marker is never re-fetched,
/// whatever the input file's state.
pub proof fn law_complete_prompt_not_refetched(
    year: int,
    path: Seq<char>,
    extension: Seq<char>,
    day: Seq<char>,
    content: Seq<char>,
    input_exists: bool,
)
    requires
        contains_seq(content, marker()),
    ensures
        spec_day_plan(year, path, extension, day, Some(content), input_exists).prompt is None,
{
}

/// A stored prompt that lacks the part-two marker is re-fetched, and the
/// download's target is the stored file itself: it is overwritten.
pub proof fn law_incomplete_prompt_refetched(
    year: int,
    path: Seq<char>,
    extension: Seq<char>,
    day: Seq<char>,
    content: Seq<char>,
    input_exists: bool,
)
    requires
        !contains_seq(content, marker()),
    ensures
        spec_day_plan(year, path, extension, day, Some(content), input_exists).prompt == Some(
            TaskModel { url: prompt_url(year, day), target: prompt_file_path(path, day) },
        ),
{
}

/// An existing input file is never re-fetched, whatever it holds and
/// whatever the prompt file's state.
pub proof fn law_existing_input_not_refetched(
    year: int,
    path: Seq<char>,
    extension: Seq<char>,
    day: Seq<char>,
    prompt_file: Option<Seq<char>>,
)
    ensures
        spec_day_plan(year, path, extension, day, prompt_file, true).input is None,
{
}

/// A response with a non-success status for either resource yields the
/// error that aborts the run; no text is ever stored for it.
pub proof fn law_failed_response_aborts(status: u16, body: Seq<char>)
    requires
        !status_success(status),
    ensures
        spec_prompt_outcome(status, body) == Err::<Seq<char>, RunError>(RunError::PromptFetch),
        spec_input_outcome(status, body) == Err::<Seq<char>, RunError>(RunError::InputFetch),
{
}

/// Model of a run's file store after the selected days, when every pending
/// download is answered with a success status: each day is planned against
/// the store so far; a planned prompt download stores the extracted text of
/// the body its URL was answered with, a planned input download stores that
/// body verbatim, each at its plan's target.
pub open spec fn spec_run_files(
    year: int,
    path: Seq<char>,
    extension: Seq<char>,
    days: Seq<Seq<char>>,
    files: Map<Seq<char>, Seq<char>>,
    bodies: Map<Seq<char>, Seq<char>>,
) -> Map<Seq<char>, Seq<char>>
    decreases days.len(),
{
    if days.len() == 0 {
        files
    } else {
        let day = days[0];
        let stored_prompt = if files.dom().contains(prompt_file_path(path, day)) {
            Some(files[prompt_file_path(path, day)])
        } else {
            None
        };
        let input_exists = files.dom().contains(input_file_path(path, day, extension));
        let day_plan = spec_day_plan(year, path, extension, day, stored_prompt, input_exists);
        let after_prompt = match day_plan.prompt {
            Some(t) => files.insert(t.target, prompt_text_of(bodies[t.url])),
            None => files,
        };
        let after_input = match day_plan.input {
            Some(t) => after_prompt.insert(t.target, bodies[t.url]),
            None => after_prompt,
        };
        spec_run_files(year, path, extension, days.skip(1), after_input, bodies)
    }
}

/// The file paths a run over the selected days is expected to cover: each
/// day's prompt path and input path.
pub open spec fn expected_files(path: Seq<char>, extension: Seq<char>, days: Seq<Seq<char>>) -> Set<
    Seq<char>,
>
    decreases days.len(),
{
    if days.len() == 0 {
        Set::empty()
    } else {
        set![prompt_file_path(path, days[0]), input_file_path(path, days[0], extension)]
            + expected_files(path, extension, days.skip(1))
    }
}

/// A run whose downloads all succeed populates exactly the expected file
/// set: afterwards the store holds what it held before, plus each selected
/// day's prompt path and input path, and nothing else. On an empty store
/// the files afterwards are exactly the expected set.
pub proof fn law_successful_run_populates_expected_files(
    year: int,
    path: Seq<char>,
    extension: Seq<char>,
    days: Seq<Seq<char>>,
    files: Map<Seq<char>, Seq<char>>,
    bodies: Map<Seq<char>, Seq<char>>,
)
    ensures
        spec_run_files(year, path, extension, days, files, bodies).dom() =~= files.dom()
            + expected_files(path, extension, days),
        spec_run_files(year, path, extension, days, Map::empty(), bodies).dom()
            =~= expected_files(path, extension, days),
    decreases days.len(),
{
    law_run_extends_store(year, path, extension, days, files, bodies);
    law_run_extends_store(year, path, extension, days, Map::empty(), bodies);
}

/// One step of the run model adds exactly the current day's two paths to
/// the store's domain, whether each download happens or was already cached.
proof fn law_run_extends_store(
    year: int,
    path: Seq<char>,
    extension: Seq<char>,
    days: Seq<Seq<char>>,
    files: Map<Seq<char>, Seq<char>>,
    bodies: Map<Seq<char>, Seq<char>>,
)
    ensures
        spec_run_files(year, path, extension, days, files, bodies).dom() =~= files.dom()
            + expected_files(path, extension, days),
    decreases days.len(),
{
    if days.len() > 0 {
        let day = days[0];
        let p_path = prompt_file_path(path, day);
        let i_path = input_file_path(path, day, extension);
        let stored_prompt = if files.dom().contains(p_path) {
            Some(files[p_path])
        } else {
            None
        };
        let input_exists = files.dom().contains(i_path);
        let day_plan = spec_day_plan(year, path, extension, day, stored_prompt, input_exists);
        let after_prompt = match day_plan.prompt {
            Some(t) => files.insert(t.target, prompt_text_of(bodies[t.url])),
            None => files,
        };
        let after_input = match day_plan.input {
            Some(t) => after_prompt.insert(t.target, bodies[t.url]),
            None => after_prompt,
        };
        // Either way the day's two paths end up in the store: a skipped
        // download means its file was already there.
        assert(after_input.dom() =~= files.dom() + set![p_path, i_path]);
        law_run_extends_store(year, path, extension, days.skip(1), after_input, bodies);
        assert(spec_run_files(year, path, extension, days, files, bodies) == spec_run_files(
            year,
            path,
            extension,
            days.skip(1),
            after_input,
            bodies,
        ));
    }
}

} // verus!
