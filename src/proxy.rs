use crate::json::{json_array_member, json_str_member, member_array, member_str, text_matches, values_match};
use crate::keyed::{first_key, has_key};
use crate::model::{copy_opt_text, copy_results, same_results, OperationStatus, SavedCriteriaPreset, ScrapingOperation};
use crate::store::{ops_after_add, update_first, with_outcome, AppState};
use crate::text::{joined, text_is};
use vstd::prelude::*;

verus! {

/// The criteria a remote job runs with; both parts absent means the remote default.
#[derive(Clone, Debug)]
pub struct CriteriaChoice {
    pub preset_id: Option<String>,
    pub text: Option<String>,
}

/// The criteria for a job: raw text wins over a preset; a preset is resolved to its stored
/// text, and one that is not stored falls back to the remote default.
pub open spec fn criteria_choice_of(
    presets: Seq<SavedCriteriaPreset>,
    preset_id: Option<String>,
    text: Option<String>,
) -> CriteriaChoice {
    if text is Some {
        CriteriaChoice { preset_id, text }
    } else if preset_id is Some && has_key(presets, preset_id->0@) {
        let p = presets[first_key(presets, preset_id->0@)];
        CriteriaChoice { preset_id: Some(p.id), text: Some(p.criteria) }
    } else {
        CriteriaChoice { preset_id: None, text: None }
    }
}

/// Resolves the criteria selection of one remote job against the stored presets.
pub fn criteria_for_job(state: &AppState, preset_id: Option<String>, text: Option<String>) -> (r:
    CriteriaChoice)
    ensures
        r == criteria_choice_of(state.saved_criteria@, preset_id, text),
{
    if text.is_some() {
        return CriteriaChoice { preset_id, text };
    }
    match &preset_id {
        Some(pid) => match state.find_preset(pid) {
            Some(p) => CriteriaChoice { preset_id: Some(p.id.clone()), text: Some(p.criteria.clone()) },
            None => CriteriaChoice { preset_id: None, text: None },
        },
        None => CriteriaChoice { preset_id: None, text: None },
    }
}

/// What the remote service answered to a scrape request, as far as this library reads it.
#[derive(Clone, Debug)]
pub struct ScrapeReply {
    pub status: Option<String>,
    pub operation: Option<String>,
    pub exec_id: Option<String>,
    pub results: Option<Vec<serde_json::Value>>,
}

impl ScrapeReply {
    /// The string members `status`, `operation` and `exec_id` and the array member `results`
    /// of the answer `v`.
    pub fn from_json(v: &serde_json::Value) -> (r: ScrapeReply)
        ensures
            scrape_reply_reads(r, *v),
    {
        ScrapeReply {
            status: member_str(v, "status"),
            operation: member_str(v, "operation"),
            exec_id: member_str(v, "exec_id"),
            results: member_array(v, "results"),
        }
    }
}

/// `r` holds what the answer `v` has under `status`, `operation`, `exec_id` and `results`.
pub open spec fn scrape_reply_reads(r: ScrapeReply, v: serde_json::Value) -> bool {
    &&& text_matches(r.status, json_str_member(v, "status"@))
    &&& text_matches(r.operation, json_str_member(v, "operation"@))
    &&& text_matches(r.exec_id, json_str_member(v, "exec_id"@))
    &&& values_match(r.results, json_array_member(v, "results"@))
}

/// `t` is present and reads `word`.
pub open spec fn reads(t: Option<String>, word: Seq<char>) -> bool {
    t is Some && t->0@ == word
}

/// The operation recorded for a job that the remote service queued.
pub open spec fn queued_operation(
    operation_id: String,
    target: String,
    target_count: u32,
    now: String,
    exec_id: Option<String>,
) -> ScrapingOperation {
    ScrapingOperation {
        operation_id,
        target_account: target,
        target_count,
        started_at: now,
        status: OperationStatus::Running,
        results: None,
        error_message: None,
        exec_id,
    }
}

/// The operation recorded for a job that the remote service finished at once.
pub open spec fn finished_operation(
    operation_id: String,
    target: String,
    target_count: u32,
    now: String,
    results: Vec<serde_json::Value>,
) -> ScrapingOperation {
    ScrapingOperation {
        operation_id,
        target_account: target,
        target_count,
        started_at: now,
        status: OperationStatus::Completed,
        results: Some(results),
        error_message: None,
        exec_id: None,
    }
}

/// The operations after a scrape answer was folded in: a queued job with an operation id is
/// recorded as running, a job finished at once with results is recorded as completed under
/// `completed_id`, and any other answer changes nothing.
pub open spec fn ops_after_reply(
    ops: Seq<ScrapingOperation>,
    target: String,
    target_count: u32,
    reply: ScrapeReply,
    now: String,
    completed_id: String,
) -> Seq<ScrapingOperation> {
    if reads(reply.status, "queued"@) {
        if reply.operation is Some {
            ops_after_add(
                ops,
                queued_operation(reply.operation->0, target, target_count, now, reply.exec_id),
            )
        } else {
            ops
        }
    } else if reads(reply.status, "completed"@) && reply.results is Some {
        ops_after_add(
            ops,
            finished_operation(completed_id, target, target_count, now, reply.results->0),
        )
    } else {
        ops
    }
}

/// Folds the answer to a scrape request for `target` into the store.
pub fn record_scrape_reply(
    state: &mut AppState,
    target: String,
    target_count: u32,
    reply: ScrapeReply,
    now: String,
    completed_id: String,
)
    ensures
        final(state).scraping_operations@ == ops_after_reply(
            old(state).scraping_operations@,
            target,
            target_count,
            reply,
            now,
            completed_id,
        ),
        final(state).keeps_all_but_operations(old(state)),
{
    let queued = match &reply.status {
        Some(s) => text_is(s.as_str(), "queued"),
        None => false,
    };
    let completed = match &reply.status {
        Some(s) => text_is(s.as_str(), "completed"),
        None => false,
    };
    if queued {
        if let Some(operation_id) = reply.operation {
            state.add_operation(
                ScrapingOperation {
                    operation_id,
                    target_account: target,
                    target_count,
                    started_at: now,
                    status: OperationStatus::Running,
                    results: None,
                    error_message: None,
                    exec_id: reply.exec_id,
                },
            );
        }
    } else if completed {
        if let Some(results) = reply.results {
            state.add_operation(
                ScrapingOperation {
                    operation_id: completed_id,
                    target_account: target,
                    target_count,
                    started_at: now,
                    status: OperationStatus::Completed,
                    results: Some(results),
                    error_message: None,
                    exec_id: None,
                },
            );
        }
    }
}

/// `id` starts with `completed_`.
pub open spec fn is_completed_key(id: Seq<char>) -> bool {
    id.len() >= 10 && id.subrange(0, 10) == "completed_"@
}

/// Folds the answer `v` to a scrape request for `target` into the store, stamped with the
/// current time; a job finished at once is keyed `completed_<unix seconds>`.
pub fn record_remote_scrape(state: &mut AppState, target: String, target_count: u32, v: &serde_json::Value)
    ensures
        final(state).keeps_all_but_operations(old(state)),
        exists|reply: ScrapeReply, now: String, id: String|
            scrape_reply_reads(reply, *v) && is_completed_key(id@) && #[trigger] ops_after_reply(
                old(state).scraping_operations@,
                target,
                target_count,
                reply,
                now,
                id,
            ) == final(state).scraping_operations@,
{
    let reply = ScrapeReply::from_json(v);
    let now = crate::clock::now_rfc3339();
    let seconds = crate::clock::now_unix_seconds_text();
    let completed_id = joined("completed_", seconds.as_str());
    proof {
        reveal_strlit("completed_");
        assert(completed_id@.subrange(0, 10) =~= "completed_"@);
    }
    let ghost r = reply;
    let ghost n = now;
    let ghost c = completed_id;
    record_scrape_reply(state, target, target_count, reply, now, completed_id);
    proof {
        assert(ops_after_reply(old(state).scraping_operations@, target, target_count, r, n, c)
            == state.scraping_operations@);
    }
}

/// Why a proxied request was refused before any network call.
#[derive(Clone, Copy, Debug, PartialEq, Eq, Structural)]
pub enum ProxyError {
    InvalidStateUri,
}

impl ProxyError {
    /// The text shown for this error.
    pub fn message(&self) -> (r: String)
        ensures
            r@ == "Invalid GCS URI: must start with gs://"@,
    {
        "Invalid GCS URI: must start with gs://".to_owned()
    }
}

/// Checks that a session-state reference can be registered: it must be an object-storage
/// reference.
pub fn check_state_uri(uri: &str) -> (r: Result<(), ProxyError>)
    ensures
        r is Ok <==> crate::destination::has_scheme(uri@),
        r is Err ==> r == Err::<(), ProxyError>(ProxyError::InvalidStateUri),
{
    if crate::destination::starts_with_scheme(uri) {
        Ok(())
    } else {
        Err(ProxyError::InvalidStateUri)
    }
}

/// The soft answer of the login-status query when the remote service did not answer in time.
#[derive(Clone, Debug)]
pub struct LoginStatusReply {
    pub status: String,
    pub ok: bool,
    pub message: String,
}

/// The login-status query failed before an answer came: a timeout means there is no login
/// state yet, which is no error; any other failure is reported with `detail`.
pub fn login_status_on_send_error(is_timeout: bool, detail: String) -> (r: Result<
    LoginStatusReply,
    String,
>)
    ensures
        is_timeout ==> r is Ok && r->Ok_0.status@ == "none"@ && !r->Ok_0.ok && r->Ok_0.message@
            == "timeout"@,
        !is_timeout ==> r == Err::<LoginStatusReply, String>(detail),
{
    if is_timeout {
        Ok(LoginStatusReply { status: "none".to_owned(), ok: false, message: "timeout".to_owned() })
    } else {
        Err(detail)
    }
}

/// The next query when looking up the status of a remote job.
#[derive(Clone, Debug)]
pub enum StatusStep {
    /// Ask the primary status endpoint by execution id.
    AskPrimary,
    /// Ask the legacy status endpoint by operation id.
    AskLegacy(String),
    /// No identifier is left to ask by.
    GiveUp,
}

/// Which status query comes next: the primary one while there is an execution id and it has
/// not missed, then the legacy one when an operation id was given.
pub fn next_status_step(exec_id: &str, legacy_operation: &Option<String>, primary_missed: bool) -> (r:
    StatusStep)
    ensures
        !primary_missed && exec_id@.len() > 0 ==> r is AskPrimary,
        primary_missed || exec_id@.len() == 0 ==> match *legacy_operation {
            Some(op) => r == StatusStep::AskLegacy(op),
            None => r is GiveUp,
        },
{
    if !primary_missed && exec_id.unicode_len() > 0 {
        return StatusStep::AskPrimary;
    }
    match legacy_operation {
        Some(op) => StatusStep::AskLegacy(op.clone()),
        None => StatusStep::GiveUp,
    }
}

/// The locally known state of an operation.
#[derive(Clone, Debug)]
pub struct CachedStatus {
    pub status: OperationStatus,
    pub results: Option<Vec<serde_json::Value>>,
    pub error_message: Option<String>,
}

/// `c` is the locally known state of `op`.
pub open spec fn caches(c: CachedStatus, op: ScrapingOperation) -> bool {
    &&& c.status == op.status
    &&& same_results(c.results, op.results)
    &&& c.error_message == op.error_message
}

/// What a status check of a stored operation does next.
#[derive(Clone, Debug)]
pub enum StatusCheck {
    /// No such operation is stored.
    NotFound,
    /// The operation is over: its stored state is the answer.
    Cached(CachedStatus),
    /// The operation is running: ask the remote service by these identifiers, and answer with
    /// the stored state if it cannot be reached.
    Poll { exec_id: String, target: String, operation_id: String, cached: CachedStatus },
}

/// Decides how to check the status of the first operation keyed `operation_id`.
pub fn status_check(state: &AppState, operation_id: &String) -> (r: StatusCheck)
    ensures
        !has_key(state.scraping_operations@, operation_id@) ==> r is NotFound,
        has_key(state.scraping_operations@, operation_id@) ==> {
            let op = state.scraping_operations@[first_key(state.scraping_operations@, operation_id@)];
            if op.status == OperationStatus::Running {
                match r {
                    StatusCheck::Poll { exec_id, target, operation_id: id, cached } => {
                        &&& exec_id@ == (match op.exec_id {
                            Some(e) => e@,
                            None => Seq::<char>::empty(),
                        })
                        &&& target == op.target_account
                        &&& id == op.operation_id
                        &&& caches(cached, op)
                    },
                    _ => false,
                }
            } else {
                match r {
                    StatusCheck::Cached(c) => caches(c, op),
                    _ => false,
                }
            }
        },
{
    match state.get_operation(operation_id) {
        None => StatusCheck::NotFound,
        Some(op) => {
            let cached = CachedStatus {
                status: op.status,
                results: copy_results(&op.results),
                error_message: copy_opt_text(&op.error_message),
            };
            if op.status == OperationStatus::Running {
                let exec_id = match &op.exec_id {
                    Some(e) => e.clone(),
                    None => String::new(),
                };
                StatusCheck::Poll {
                    exec_id,
                    target: op.target_account.clone(),
                    operation_id: op.operation_id.clone(),
                    cached,
                }
            } else {
                StatusCheck::Cached(cached)
            }
        },
    }
}

/// What the remote service answered to a status query, as far as this library reads it.
#[derive(Clone, Debug)]
pub struct StatusReply {
    pub status: Option<String>,
    pub results: Option<Vec<serde_json::Value>>,
    pub message: Option<String>,
}

impl StatusReply {
    /// The string members `status` and `message` and the array member `results` of the
    /// answer `v`.
    pub fn from_json(v: &serde_json::Value) -> (r: StatusReply)
        ensures
            status_reply_reads(r, *v),
    {
        StatusReply {
            status: member_str(v, "status"),
            results: member_array(v, "results"),
            message: member_str(v, "message"),
        }
    }
}

/// `r` holds what the answer `v` has under `status`, `results` and `message`.
pub open spec fn status_reply_reads(r: StatusReply, v: serde_json::Value) -> bool {
    &&& text_matches(r.status, json_str_member(v, "status"@))
    &&& values_match(r.results, json_array_member(v, "results"@))
    &&& text_matches(r.message, json_str_member(v, "message"@))
}

/// The error recorded for a failed job: the service's message, or `Unknown error`.
pub open spec fn failure_text(message: Option<String>) -> Seq<char> {
    match message {
        Some(m) => m@,
        None => "Unknown error"@,
    }
}

/// The operations after the first one keyed `id` took the given outcome.
pub open spec fn ops_after_outcome(
    ops: Seq<ScrapingOperation>,
    id: Seq<char>,
    status: OperationStatus,
    results: Option<Vec<serde_json::Value>>,
    error_message: Option<String>,
) -> Seq<ScrapingOperation> {
    update_first(ops, id, |o: ScrapingOperation| with_outcome(o, status, results, error_message))
}

/// The operations after the first one keyed `id` was marked failed with the error `m`.
pub open spec fn ops_after_failure(ops: Seq<ScrapingOperation>, id: Seq<char>, m: String) -> Seq<
    ScrapingOperation,
> {
    ops_after_outcome(ops, id, OperationStatus::Failed, None, Some(m))
}

/// `after` is `before` once the status answer `reply` for the operation keyed `id` was folded
/// in: completed with results records them, failed records the service's message (or
/// `Unknown error`), and anything else changes nothing.
pub open spec fn status_reply_applied(
    before: Seq<ScrapingOperation>,
    after: Seq<ScrapingOperation>,
    id: Seq<char>,
    reply: StatusReply,
) -> bool {
    if reads(reply.status, "completed"@) && reply.results is Some {
        after == ops_after_outcome(before, id, OperationStatus::Completed, reply.results, None)
    } else if reads(reply.status, "failed"@) {
        exists|m: String| m@ == failure_text(reply.message) && #[trigger] ops_after_failure(before, id, m) == after
    } else {
        after == before
    }
}

/// Folds a status answer into the first operation keyed `operation_id`: completed with
/// results records them, failed records the error, anything else changes nothing. Tells
/// whether the answer carried a status at all.
pub fn record_status_reply(state: &mut AppState, operation_id: &String, reply: StatusReply) -> (answered:
    bool)
    ensures
        answered == reply.status is Some,
        final(state).keeps_all_but_operations(old(state)),
        status_reply_applied(
            old(state).scraping_operations@,
            final(state).scraping_operations@,
            operation_id@,
            reply,
        ),
{
    proof {
        reveal_strlit("completed");
        reveal_strlit("failed");
        assert("completed"@ != "failed"@) by {
            assert("completed"@.len() != "failed"@.len());
        }
    }
    match reply.status {
        None => false,
        Some(status) => {
            if text_is(status.as_str(), "completed") {
                if reply.results.is_some() {
                    state.update_operation(
                        operation_id,
                        OperationStatus::Completed,
                        reply.results,
                        None,
                    );
                }
            } else if text_is(status.as_str(), "failed") {
                let m = match reply.message {
                    Some(m) => m,
                    None => "Unknown error".to_owned(),
                };
                let ghost mm = m;
                state.update_operation(operation_id, OperationStatus::Failed, None, Some(m));
                proof {
                    assert(ops_after_failure(old(state).scraping_operations@, operation_id@, mm)
                        == state.scraping_operations@);
                }
            }
            true
        },
    }
}

/// Folds the status answer `v` into the first operation keyed `operation_id`, as
/// `record_status_reply` does with what `v` holds; tells whether the answer carried a status.
pub fn record_status_answer(state: &mut AppState, operation_id: &String, v: &serde_json::Value) -> (answered:
    bool)
    ensures
        answered == json_str_member(*v, "status"@) is Some,
        final(state).keeps_all_but_operations(old(state)),
        exists|reply: StatusReply|
            status_reply_reads(reply, *v) && #[trigger] status_reply_applied(
                old(state).scraping_operations@,
                final(state).scraping_operations@,
                operation_id@,
                reply,
            ),
{
    let reply = StatusReply::from_json(v);
    let ghost r = reply;
    let answered = record_status_reply(state, operation_id, reply);
    proof {
        assert(status_reply_applied(
            old(state).scraping_operations@,
            state.scraping_operations@,
            operation_id@,
            r,
        ));
    }
    answered
}

} // verus!
