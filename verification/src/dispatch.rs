//! How a worker takes jobs and hands back results: Redis first, the database
//! as a fallback, and the names under which results are published.
use vstd::prelude::*;
use crate::ids::{id_text, lemma_uuid_text_injective, lemma_uuid_text_len, uuid_text};
use crate::text::join2;

verus! {

/// How long a worker waits on Redis for a job, in seconds.
pub const JOB_WAIT_SECS: u64 = 5;

/// How many jobs a worker runs at once.
pub const MAX_CONCURRENT_JOBS: usize = 10;

/// What a worker does after asking Redis for a job.
pub enum PopStep {
    /// Read this payload as the job.
    ParseJob(String),
    /// Look for a pending job in the database.
    AskDatabase,
    /// There is no job this time.
    NoJob,
}

/// What a worker does after asking the database for a pending job.
pub enum ClaimStep {
    /// Mark the job with this stored identifier as being processed, then read
    /// the payload as the job.
    Claim { job_id: String, payload: String },
    /// There is no job this time.
    NoJob,
}

/// After asking Redis: a job found there is taken, whether or not a database
/// is configured; otherwise the database is asked where there is one.
/// `reply` is the payload that Redis gave, and none where the connection, the
/// pop or the wait gave nothing.
pub fn after_redis(reply: Option<String>, has_database: bool) -> (step: PopStep)
    ensures
        reply is Some ==> step is ParseJob && step->ParseJob_0@ == reply->0@,
        reply is None && has_database ==> step is AskDatabase,
        reply is None && !has_database ==> step is NoJob,
{
    match reply {
        Some(payload) => PopStep::ParseJob(payload),
        None => if has_database {
            PopStep::AskDatabase
        } else {
            PopStep::NoJob
        },
    }
}

/// After asking the database: a pending row is claimed, otherwise there is no
/// job.
pub fn after_database(row: Option<(String, String)>) -> (step: ClaimStep)
    ensures
        row is Some ==> step is Claim && step->job_id@ == (row->0).0@ && step->payload@ == (
        row->0).1@,
        row is None ==> step is NoJob,
{
    match row {
        Some((job_id, payload)) => ClaimStep::Claim { job_id, payload },
        None => ClaimStep::NoJob,
    }
}

/// Where a worker publishes a job's result.
pub struct ResultAddress {
    /// The channel that the result is published on.
    pub channel: String,
    /// The field of the results hash that keeps it.
    pub field: String,
}

/// The channel on which a job's result is published.
pub open spec fn result_channel_of(job_id: u128) -> Seq<char> {
    "job_result:"@ + uuid_text(job_id)
}

/// Law: the results of jobs with different identifiers are published on
/// different channels and kept under different fields.
pub proof fn lemma_distinct_jobs_publish_apart(a: u128, b: u128)
    requires
        a != b,
    ensures
        result_channel_of(a) != result_channel_of(b),
        uuid_text(a) != uuid_text(b),
{
    reveal_strlit("job_result:");
    lemma_uuid_text_len(a);
    lemma_uuid_text_len(b);
    if result_channel_of(a) == result_channel_of(b) {
        assert(result_channel_of(a).subrange(11, 47) =~= uuid_text(a));
        assert(result_channel_of(b).subrange(11, 47) =~= uuid_text(b));
        lemma_uuid_text_injective(a, b);
    }
    if uuid_text(a) == uuid_text(b) {
        lemma_uuid_text_injective(a, b);
    }
}

/// Where a job's result is published: the channel `job_result:` and the job's
/// identifier, and the field named by the identifier.
pub fn result_address(job_id: u128) -> (addr: ResultAddress)
    ensures
        addr.channel@ == result_channel_of(job_id),
        addr.field@ == uuid_text(job_id),
{
    let id = id_text(job_id);
    ResultAddress { channel: join2("job_result:", id.as_str()), field: id }
}

} // verus!
