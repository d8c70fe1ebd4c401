//! What the answers of the provider mean: when logs and diffs come from the
//! cache, what a reply turns into, and how a rerun falls back from the
//! failed jobs to all jobs.
use crate::cache::{read, written, ArtifactCache, ArtifactKey, ArtifactKeyModel, Lookup};
use crate::logs::{decode_logs, spec_decode};
use crate::text::join;
use vstd::prelude::*;
use vstd::string::*;

verus! {

/// The status line of a reply: its code and how the transport prints it.
#[derive(Debug, Clone, PartialEq, Eq)]
pub struct Status {
    pub code: u16,
    pub text: String,
}

/// The model of `Status`.
pub struct StatusLine {
    pub code: u16,
    pub text: Seq<char>,
}

impl View for Status {
    type V = StatusLine;

    open spec fn view(&self) -> StatusLine {
        StatusLine { code: self.code, text: self.text@ }
    }
}

impl StatusLine {
    /// The codes from 200 to 299 mean success.
    pub open spec fn is_success(self) -> bool {
        200 <= self.code < 300
    }
}

impl Status {
    /// Whether the code means success.
    pub fn is_success(&self) -> (r: bool)
        ensures
            r == self@.is_success(),
    {
        200 <= self.code && self.code < 300
    }
}

/// A reply, or why there was none.
pub open spec fn reply_model(reply: Result<Status, String>) -> Result<StatusLine, Seq<char>> {
    match reply {
        Ok(status) => Ok(status@),
        Err(e) => Err(e@),
    }
}

/// The characters of a text or of the error in its place.
pub open spec fn text_result(r: Result<String, String>) -> Result<Seq<char>, Seq<char>> {
    match r {
        Ok(text) => Ok(text@),
        Err(e) => Err(e@),
    }
}

/// The characters of the error of an action, if it failed.
pub open spec fn unit_result(r: Result<(), String>) -> Result<(), Seq<char>> {
    match r {
        Ok(_) => Ok(()),
        Err(e) => Err(e@),
    }
}

/// The bytes of a body, if there is one.
pub open spec fn opt_bytes(o: Option<Vec<u8>>) -> Option<Seq<u8>> {
    match o {
        Some(b) => Some(b@),
        None => None,
    }
}

/// What a reply to an action means: success, or a failure worded as
/// `failure`, a colon and the status.
pub open spec fn spec_expect_success(status: StatusLine, failure: Seq<char>) -> Result<
    (),
    Seq<char>,
> {
    if status.is_success() {
        Ok(())
    } else {
        Err(failure + ": "@ + status.text)
    }
}

/// Takes a reply for done where it says success, and words the failure
/// where it does not.
pub fn expect_success(status: &Status, failure: &str) -> (r: Result<(), String>)
    ensures
        unit_result(r) == spec_expect_success(status@, failure@),
{
    if status.is_success() {
        Ok(())
    } else {
        Err(crate::text::join3(failure, ": ", status.text.as_str()))
    }
}

/// Whether a reply comes with a body worth reading: it is an answer, and
/// the answer says success.
pub open spec fn body_wanted(reply: Result<StatusLine, Seq<char>>) -> bool {
    reply matches Ok(status) && status.is_success()
}

/// Says whether the body of a reply is to be read.
pub fn wants_body(reply: &Result<Status, String>) -> (r: bool)
    ensures
        r == body_wanted(reply_model(*reply)),
{
    match reply {
        Ok(status) => status.is_success(),
        Err(_) => false,
    }
}

/// What a rerun asks the provider to do.
#[derive(Clone, Copy, PartialEq, Eq, Structural, Debug)]
pub enum RerunCall {
    /// Run the failed jobs of the run again.
    FailedJobs,
    /// Run every job of the run again.
    AllJobs,
}

/// Where a rerun stands.
#[derive(Debug, PartialEq, Eq)]
pub enum Rerun {
    /// The rerun of the failed jobs alone is to be asked for.
    FailedJobs,
    /// The rerun of all jobs is to be asked for.
    AllJobs,
    Done(Result<(), String>),
}

/// The model of `Rerun`: texts as sequences of characters, lists as sequences of
/// models.
pub enum RerunModel {
    FailedJobs,
    AllJobs,
    Done(Result<(), Seq<char>>),
}

impl View for Rerun {
    type V = RerunModel;

    open spec fn view(&self) -> RerunModel {
        match self {
            Rerun::FailedJobs => RerunModel::FailedJobs,
            Rerun::AllJobs => RerunModel::AllJobs,
            Rerun::Done(r) => RerunModel::Done(unit_result(*r)),
        }
    }
}

/// Whether a reply says that the call succeeded.
pub open spec fn succeeded(reply: Result<StatusLine, Seq<char>>) -> bool {
    reply matches Ok(status) && status.is_success()
}

impl RerunModel {
    /// The call that a rerun asks for next, or `None` where it is over.
    pub open spec fn asks(self) -> Option<RerunCall> {
        match self {
            RerunModel::FailedJobs => Some(RerunCall::FailedJobs),
            RerunModel::AllJobs => Some(RerunCall::AllJobs),
            RerunModel::Done(_) => None,
        }
    }

    /// The outcome of a rerun that is over.
    pub open spec fn outcome(self) -> Option<Result<(), Seq<char>>> {
        match self {
            RerunModel::Done(r) => Some(r),
            _ => None,
        }
    }

    /// Where a rerun stands after a reply. The rerun of the failed jobs
    /// ends the rerun when it succeeds; rejected or unanswered, it leads to
    /// the rerun of all jobs, whose reply decides.
    pub open spec fn next(self, reply: Result<StatusLine, Seq<char>>) -> RerunModel {
        match self {
            RerunModel::FailedJobs => if succeeded(reply) {
                RerunModel::Done(Ok(()))
            } else {
                RerunModel::AllJobs
            },
            RerunModel::AllJobs => match reply {
                Ok(status) => if status.is_success() {
                    RerunModel::Done(Ok(()))
                } else {
                    RerunModel::Done(Err("Failed to rerun workflow: "@ + status.text))
                },
                Err(_) => RerunModel::Done(Err("Failed to rerun workflow"@)),
            },
            RerunModel::Done(r) => RerunModel::Done(r),
        }
    }
}

impl Rerun {
    /// A rerun that has not asked for anything yet.
    pub fn start() -> (r: Rerun)
        ensures
            r@ == RerunModel::FailedJobs,
    {
        Rerun::FailedJobs
    }

    /// The call to make next, or `None` where the rerun is over.
    pub fn asks(&self) -> (r: Option<RerunCall>)
        ensures
            r == self@.asks(),
    {
        match self {
            Rerun::FailedJobs => Some(RerunCall::FailedJobs),
            Rerun::AllJobs => Some(RerunCall::AllJobs),
            Rerun::Done(_) => None,
        }
    }

    /// The outcome of a rerun that is over, or `None` while a call is still
    /// to be made.
    pub fn outcome(self) -> (r: Option<Result<(), String>>)
        ensures
            (match r {
                Some(outcome) => Some(unit_result(outcome)),
                None => None,
            }) == self@.outcome(),
    {
        match self {
            Rerun::Done(r) => Some(r),
            _ => None,
        }
    }

    /// Takes the reply to what was asked for last.
    pub fn next(self, reply: Result<Status, String>) -> (r: Rerun)
        ensures
            r@ == self@.next(reply_model(reply)),
    {
        match self {
            Rerun::FailedJobs => {
                let done = match &reply {
                    Ok(status) => status.is_success(),
                    Err(_) => false,
                };
                if done {
                    Rerun::Done(Ok(()))
                } else {
                    Rerun::AllJobs
                }
            },
            Rerun::AllJobs => match reply {
                Ok(status) => {
                    if status.is_success() {
                        Rerun::Done(Ok(()))
                    } else {
                        Rerun::Done(
                            Err(join("Failed to rerun workflow: ", status.text.as_str())),
                        )
                    }
                },
                Err(_) => Rerun::Done(Err("Failed to rerun workflow".to_string())),
            },
            Rerun::Done(r) => Rerun::Done(r),
        }
    }
}

/// The rerun after a run of replies, each the answer to the call that the
/// rerun asked for before it. Replies that come when the rerun is over
/// change nothing.
pub open spec fn rerun_after(state: RerunModel, replies: Seq<Result<StatusLine, Seq<char>>>)
    -> RerunModel
    decreases replies.len(),
{
    if replies.len() == 0 {
        state
    } else {
        rerun_after(state, replies.drop_last()).next(replies.last())
    }
}

/// The calls that a rerun makes while it is given a run of replies, in the
/// order in which it makes them: before each reply the call that it asks
/// for, as long as it asks for one.
pub open spec fn rerun_calls(state: RerunModel, replies: Seq<Result<StatusLine, Seq<char>>>)
    -> Seq<RerunCall>
    decreases replies.len(),
{
    if replies.len() == 0 {
        Seq::empty()
    } else {
        let before = rerun_after(state, replies.drop_last());
        match before.asks() {
            Some(call) => rerun_calls(state, replies.drop_last()).push(call),
            None => rerun_calls(state, replies.drop_last()),
        }
    }
}

/// A rerun is over after two replies at the latest, and it has succeeded
/// exactly if the first call succeeded or, after that, the second: a
/// rejected rerun of the failed jobs is never reported.
pub proof fn lemma_rerun_falls_back(
    first: Result<StatusLine, Seq<char>>,
    second: Result<StatusLine, Seq<char>>,
)
    ensures
        succeeded(first) ==> RerunModel::FailedJobs.next(first) == RerunModel::Done(Ok(())),
        !succeeded(first) ==> RerunModel::FailedJobs.next(first) == RerunModel::AllJobs,
        RerunModel::FailedJobs.next(first).next(second) is Done,
        RerunModel::FailedJobs.next(first).next(second) == RerunModel::Done(Ok(())) <==> succeeded(
            first,
        ) || succeeded(second),
{
}

/// Where the rerun of the failed jobs is rejected or not answered and the
/// rerun of all jobs is accepted, the rerun makes exactly two calls, the
/// first for the failed jobs and the second for all jobs, each once and in
/// this order, and its outcome is success: that of the second call. The
/// second call is asked for by the rerun itself, and after it none.
pub proof fn lemma_rerun_makes_two_calls(
    first: Result<StatusLine, Seq<char>>,
    second: Result<StatusLine, Seq<char>>,
    more: Seq<Result<StatusLine, Seq<char>>>,
)
    requires
        !succeeded(first),
        succeeded(second),
    ensures
        RerunModel::FailedJobs.asks() == Some(RerunCall::FailedJobs),
        RerunModel::FailedJobs.next(first).asks() == Some(RerunCall::AllJobs),
        RerunModel::FailedJobs.next(first).next(second).asks().is_none(),
        RerunModel::FailedJobs.next(first).next(second).outcome() == Some(
            Ok::<(), Seq<char>>(()),
        ),
        rerun_calls(RerunModel::FailedJobs, seq![first, second] + more) == seq![
            RerunCall::FailedJobs,
            RerunCall::AllJobs,
        ],
        rerun_after(RerunModel::FailedJobs, seq![first, second] + more) == RerunModel::Done(
            Ok(()),
        ),
    decreases more.len(),
{
    let two = seq![first, second];
    let one = seq![first];
    assert(two.drop_last() =~= one);
    assert(two.last() == second);
    let none = Seq::<Result<StatusLine, Seq<char>>>::empty();
    assert(one.drop_last() =~= none);
    assert(one.last() == first);
    assert(rerun_after(RerunModel::FailedJobs, none) == RerunModel::FailedJobs);
    assert(rerun_calls(RerunModel::FailedJobs, none) =~= Seq::<RerunCall>::empty());
    assert(rerun_after(RerunModel::FailedJobs, one) == RerunModel::FailedJobs.next(first));
    assert(rerun_calls(RerunModel::FailedJobs, one) =~= seq![RerunCall::FailedJobs]);
    assert(rerun_after(RerunModel::FailedJobs, two) == RerunModel::Done(Ok(())));
    assert(rerun_calls(RerunModel::FailedJobs, two) =~= seq![
        RerunCall::FailedJobs,
        RerunCall::AllJobs,
    ]);
    if more.len() == 0 {
        assert(two + more =~= two);
    } else {
        lemma_rerun_makes_two_calls(first, second, more.drop_last());
        assert((two + more).drop_last() =~= two + more.drop_last());
        assert((two + more).last() == more.last());
    }
}

/// Where the rerun of the failed jobs is accepted, it is the only call the
/// rerun makes, and the outcome is success.
pub proof fn lemma_rerun_makes_one_call(
    first: Result<StatusLine, Seq<char>>,
    more: Seq<Result<StatusLine, Seq<char>>>,
)
    requires
        succeeded(first),
    ensures
        rerun_calls(RerunModel::FailedJobs, seq![first] + more) == seq![RerunCall::FailedJobs],
        rerun_after(RerunModel::FailedJobs, seq![first] + more) == RerunModel::Done(Ok(())),
    decreases more.len(),
{
    let one = seq![first];
    let none = Seq::<Result<StatusLine, Seq<char>>>::empty();
    assert(one.drop_last() =~= none);
    assert(one.last() == first);
    assert(rerun_after(RerunModel::FailedJobs, none) == RerunModel::FailedJobs);
    assert(rerun_calls(RerunModel::FailedJobs, none) =~= Seq::<RerunCall>::empty());
    assert(rerun_after(RerunModel::FailedJobs, one) == RerunModel::Done(Ok(())));
    assert(rerun_calls(RerunModel::FailedJobs, one) =~= seq![RerunCall::FailedJobs]);
    if more.len() == 0 {
        assert(one + more =~= one);
    } else {
        lemma_rerun_makes_one_call(first, more.drop_last());
        assert((one + more).drop_last() =~= one + more.drop_last());
        assert((one + more).last() == more.last());
    }
}

/// What stands in for logs that do not exist yet.
pub open spec fn logs_placeholder() -> Seq<char> {
    "Logs not available yet. The run may still be in progress or queued."@
}

/// The job whose logs are final and may be kept: the job asked for, if it
/// has finished. The logs of a whole run and of a job that is waiting or
/// running can still grow and are never kept.
pub open spec fn final_job(job_id: Option<u64>, job_completed: bool) -> Option<u64> {
    if job_completed {
        job_id
    } else {
        None
    }
}

/// What a request for logs returns without a fetch, if anything.
pub open spec fn cached_logs(
    entries: Map<ArtifactKeyModel, Seq<char>>,
    job_id: Option<u64>,
    job_completed: bool,
) -> Option<Seq<char>> {
    match final_job(job_id, job_completed) {
        Some(id) => read(entries, ArtifactKeyModel::JobLog(id)),
        None => None,
    }
}

/// What fetched logs are worth keeping: the text of a body that came with
/// success.
pub open spec fn fetched_logs(
    reply: Result<StatusLine, Seq<char>>,
    body: Option<Seq<u8>>,
) -> Option<Seq<char>> {
    match body {
        Some(bytes) => if body_wanted(reply) {
            Some(spec_decode(bytes))
        } else {
            None
        },
        None => None,
    }
}

/// What a request for logs returns after a fetch. Logs that do not exist
/// yet are no error: a placeholder stands in for them.
pub open spec fn logs_result(reply: Result<StatusLine, Seq<char>>, body: Option<Seq<u8>>) -> Result<
    Seq<char>,
    Seq<char>,
> {
    match reply {
        Err(e) => Err("Failed to fetch logs: "@ + e),
        Ok(status) => if status.code == 404 {
            Ok(logs_placeholder())
        } else if !status.is_success() {
            Err("Failed to fetch logs: "@ + status.text)
        } else {
            match body {
                Some(bytes) => Ok(spec_decode(bytes)),
                None => Err("Failed to read logs response"@),
            }
        },
    }
}

/// The cache after fetched logs were taken in: the logs of a finished job
/// are kept, any others are not.
pub open spec fn logs_kept(
    entries: Map<ArtifactKeyModel, Seq<char>>,
    job_id: Option<u64>,
    job_completed: bool,
    reply: Result<StatusLine, Seq<char>>,
    body: Option<Seq<u8>>,
) -> Map<ArtifactKeyModel, Seq<char>> {
    match (final_job(job_id, job_completed), fetched_logs(reply, body)) {
        (Some(id), Some(text)) => written(entries, ArtifactKeyModel::JobLog(id), text),
        _ => entries,
    }
}

/// Says whether the logs asked for are in the cache or have to be fetched.
/// Only the logs of a finished job are ever taken from there.
pub fn get_run_logs_begin(cache: &ArtifactCache, job_id: Option<u64>, job_completed: bool) -> (r:
    Lookup)
    ensures
        r.text() == cached_logs(cache@, job_id, job_completed),
{
    match job_id {
        Some(id) => {
            if job_completed {
                cache.lookup(&ArtifactKey::JobLog(id))
            } else {
                Lookup::Miss
            }
        },
        None => Lookup::Miss,
    }
}

/// Turns the reply to a fetch of logs into what the request returns, and
/// keeps the logs of a finished job. The logs of a job that can still
/// write, the logs of a whole run, the placeholder and failures are not
/// kept.
pub fn get_run_logs_finish(
    cache: &mut ArtifactCache,
    job_id: Option<u64>,
    job_completed: bool,
    reply: Result<Status, String>,
    body: Option<Vec<u8>>,
) -> (r: Result<String, String>)
    ensures
        text_result(r) == logs_result(reply_model(reply), opt_bytes(body)),
        final(cache)@ == logs_kept(
            old(cache)@,
            job_id,
            job_completed,
            reply_model(reply),
            opt_bytes(body),
        ),
{
    match reply {
        Err(e) => Err(join("Failed to fetch logs: ", e.as_str())),
        Ok(status) => {
            if status.code == 404 {
                Ok("Logs not available yet. The run may still be in progress or queued.".to_string())
            } else if !status.is_success() {
                Err(join("Failed to fetch logs: ", status.text.as_str()))
            } else {
                match body {
                    Some(bytes) => {
                        let logs = decode_logs(bytes.as_slice());
                        if let Some(id) = job_id {
                            if job_completed {
                                cache.store(ArtifactKey::JobLog(id), logs.clone());
                            }
                        }
                        Ok(logs)
                    },
                    None => Err("Failed to read logs response".to_string()),
                }
            }
        },
    }
}

/// What a request for a commit's diff returns after a fetch.
pub open spec fn diff_result(
    reply: Result<StatusLine, Seq<char>>,
    body: Option<Seq<char>>,
) -> Result<Seq<char>, Seq<char>> {
    match reply {
        Err(_) => Err("Failed to fetch commit diff"@),
        Ok(status) => if !status.is_success() {
            Err("Failed to fetch commit diff: "@ + status.text)
        } else {
            match body {
                Some(text) => Ok(text),
                None => Err("Failed to read commit diff response"@),
            }
        },
    }
}

/// Says whether the diff of a commit is in the cache or has to be fetched.
pub fn get_commit_diff_begin(cache: &ArtifactCache, sha: &str) -> (r: Lookup)
    ensures
        r.text() == read(cache@, ArtifactKeyModel::CommitDiff(sha@)),
{
    cache.lookup(&ArtifactKey::CommitDiff(sha.to_string()))
}

/// Turns the reply to a fetch of a commit's diff into what the request
/// returns, and keeps the diff.
pub fn get_commit_diff_finish(
    cache: &mut ArtifactCache,
    sha: &str,
    reply: Result<Status, String>,
    body: Option<String>,
) -> (r: Result<String, String>)
    ensures
        text_result(r) == diff_result(reply_model(reply), crate::text::opt_text(body)),
        final(cache)@ == (match text_result(r) {
            Ok(text) => written(old(cache)@, ArtifactKeyModel::CommitDiff(sha@), text),
            Err(_) => old(cache)@,
        }),
{
    match reply {
        Err(_) => Err("Failed to fetch commit diff".to_string()),
        Ok(status) => {
            if !status.is_success() {
                Err(join("Failed to fetch commit diff: ", status.text.as_str()))
            } else {
                match body {
                    Some(text) => {
                        cache.store(ArtifactKey::CommitDiff(sha.to_string()), text.clone());
                        Ok(text)
                    },
                    None => Err("Failed to read commit diff response".to_string()),
                }
            }
        },
    }
}

/// Logs of a finished job that were fetched once are there for every
/// later request: the request that follows returns them without a fetch, to
/// the character, whatever else was fetched in between.
pub proof fn lemma_job_logs_fetched_once(
    entries: Map<ArtifactKeyModel, Seq<char>>,
    id: u64,
    reply: Result<StatusLine, Seq<char>>,
    body: Option<Seq<u8>>,
    later: Seq<(ArtifactKeyModel, Seq<char>)>,
)
    requires
        cached_logs(entries, Some(id), true).is_none(),
        fetched_logs(reply, body).is_some(),
    ensures
        logs_result(reply, body) == Ok::<Seq<char>, Seq<char>>(fetched_logs(reply, body).unwrap()),
        cached_logs(
            crate::cache::written_all(logs_kept(entries, Some(id), true, reply, body), later),
            Some(id),
            true,
        ) == fetched_logs(reply, body),
{
    crate::cache::lemma_first_write_wins(
        entries,
        ArtifactKeyModel::JobLog(id),
        fetched_logs(reply, body).unwrap(),
        later,
    );
}

/// Logs that can still grow are never served from the cache and never put
/// there: for a job that has not finished, and for a whole run, every
/// request is a miss, and what a fetch brings is returned and not kept. Two
/// fetches in a row return what each of them brought.
pub proof fn lemma_unfinished_logs_are_never_kept(
    entries: Map<ArtifactKeyModel, Seq<char>>,
    job_id: Option<u64>,
    job_completed: bool,
    reply: Result<StatusLine, Seq<char>>,
    body: Option<Seq<u8>>,
)
    requires
        job_id.is_none() || !job_completed,
    ensures
        cached_logs(entries, job_id, job_completed).is_none(),
        logs_kept(entries, job_id, job_completed, reply, body) == entries,
        cached_logs(
            logs_kept(entries, job_id, job_completed, reply, body),
            job_id,
            job_completed,
        ).is_none(),
{
}

/// `serde_json::Value`, a parsed answer. What it holds is known by the name
/// `json_texts` alone.
#[verifier::external_type_specification]
#[verifier::external_body]
pub struct ExJsonValue(serde_json::Value);

/// The fields of a JSON object whose values are texts, by name. A value
/// that is no object has none.
pub uninterp spec fn json_texts(value: serde_json::Value) -> Map<Seq<char>, Seq<char>>;

/// The text fields of the value that `serde_json::from_slice` reads from
/// bytes, or `None` where the bytes are no JSON.
pub uninterp spec fn json_of(bytes: Seq<u8>) -> Option<Map<Seq<char>, Seq<char>>>;

/// Reads a JSON value with `serde_json::from_slice`. Whether the bytes are
/// JSON, and what the value then holds, depends on the bytes alone.
#[verifier::external_body]
fn parse_json(bytes: &[u8]) -> (r: Option<serde_json::Value>)
    ensures
        match r {
            Some(value) => json_of(bytes@) == Some(json_texts(value)),
            None => json_of(bytes@).is_none(),
        },
{
    serde_json::from_slice::<serde_json::Value>(bytes).ok()
}

/// The text of the field `name`, by `Value::get` and `Value::as_str`:
/// `None` where the value has no such field or the field holds no text.
#[verifier::external_body]
fn json_text(value: &serde_json::Value, name: &str) -> (r: Option<String>)
    ensures
        crate::text::opt_text(r) == (if json_texts(*value).contains_key(name@) {
            Some(json_texts(*value)[name@])
        } else {
            None
        }),
{
    value.get(name).and_then(|field| field.as_str()).map(|text| text.to_string())
}

/// Who is signed in, as the answer to the question says it: the text of
/// the field `login`.
pub open spec fn spec_user_login(body: Seq<u8>) -> Result<Seq<char>, Seq<char>> {
    match json_of(body) {
        Some(fields) => if fields.contains_key("login"@) {
            Ok(fields["login"@])
        } else {
            Err("No login field in user response"@)
        },
        None => Err("Failed to parse user response"@),
    }
}

/// Reads who is signed in out of the answer to the question.
pub fn user_login(body: &[u8]) -> (r: Result<String, String>)
    ensures
        text_result(r) == spec_user_login(body@),
{
    match parse_json(body) {
        Some(value) => match json_text(&value, "login") {
            Some(login) => Ok(login),
            None => Err("No login field in user response".to_string()),
        },
        None => Err("Failed to parse user response".to_string()),
    }
}

} // verus!
