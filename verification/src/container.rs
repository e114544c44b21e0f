//! Running a job inside a container: the container's image, name, limits and
//! shell command, and how its end and its logs become the job's result.
use vstd::prelude::*;
use vstd::string::*;
use crate::ids::{id_text, lemma_uuid_text_injective, lemma_uuid_text_len, uuid_text};
use crate::models::{command_of, extension_of, image_of, ExecutionJob, ExecutionResult, Language};
use crate::runs::ResultView;
use crate::text::{
    lemma_single_quoted_word_reads_back, shell_word_value, escape_quotes, escape_single_quotes, join2, join_with, join_words, lossy_text, texts,
    utf8_lossy,
};

verus! {

/// How long a container may run, in milliseconds, before its run counts as
/// timed out.
pub const MAX_EXECUTION_TIME_MS: u64 = 5000;

/// The memory a container may use, in bytes (128 MiB).
pub const MEMORY_LIMIT_BYTES: i64 = 128 * 1024 * 1024;

/// The resources a job's container is given.
pub struct ContainerLimits {
    /// Memory, in bytes.
    pub memory: i64,
    /// Memory and swap together, in bytes.
    pub memory_swap: i64,
    /// Processor time, in billionths of a processor.
    pub nano_cpus: i64,
    /// The container's network.
    pub network_mode: String,
    /// The most processes the container may hold.
    pub pids_limit: i64,
}

/// The limits of every job's container: 128 MiB of memory and no swap (memory
/// and swap together are the memory alone), one processor, no network, and at
/// most 64 processes.
pub fn container_limits() -> (limits: ContainerLimits)
    ensures
        limits.memory == MEMORY_LIMIT_BYTES,
        limits.memory_swap == limits.memory,
        limits.nano_cpus == 1_000_000_000,
        limits.network_mode@ == "none"@,
        limits.pids_limit == 64,
{
    ContainerLimits {
        memory: MEMORY_LIMIT_BYTES,
        memory_swap: MEMORY_LIMIT_BYTES,
        nano_cpus: 1_000_000_000,
        network_mode: String::from_str("none"),
        pids_limit: 64,
    }
}

/// The file, inside the container, that holds the job's code.
pub open spec fn container_source_of(lang: Language) -> Seq<char> {
    "main."@ + extension_of(lang)
}

/// The name of a job's container.
pub open spec fn container_name_of(job_id: u128) -> Seq<char> {
    "exec_"@ + uuid_text(job_id)
}

/// Law: jobs with different identifiers get containers with different names.
pub proof fn lemma_distinct_jobs_use_distinct_containers(a: u128, b: u128)
    requires
        a != b,
    ensures
        container_name_of(a) != container_name_of(b),
{
    reveal_strlit("exec_");
    lemma_uuid_text_len(a);
    lemma_uuid_text_len(b);
    if container_name_of(a) == container_name_of(b) {
        assert(container_name_of(a).subrange(5, 41) =~= uuid_text(a));
        assert(container_name_of(b).subrange(5, 41) =~= uuid_text(b));
        lemma_uuid_text_injective(a, b);
    }
}

/// Law: the quoted word that the shell command gives `echo` is read by the
/// shell as exactly the job's code.
pub proof fn lemma_shell_command_writes_the_code(code: Seq<char>, lang: Language)
    ensures
        shell_command_of(code, lang).subrange(5, 5 + escape_quotes(code).len() as int + 2)
            == seq!['\''] + escape_quotes(code) + seq!['\''],
        shell_word_value(seq!['\''] + escape_quotes(code) + seq!['\''], false) == code,
{
    reveal_strlit("echo '");
    reveal_strlit("' > ");
    let e = escape_quotes(code);
    assert(shell_command_of(code, lang).subrange(5, 5 + e.len() as int + 2) =~= seq!['\''] + e + seq![
        '\'',
    ]);
    lemma_single_quoted_word_reads_back(code);
}

/// Law: the container's shell command writes the job's code to `main.<ext>`
/// and then runs the language's own command on that very file: `python
/// main.py`, `node main.js`, or compiling `main.cpp` with `g++ -O3` and running
/// the program built from it.
pub proof fn lemma_container_command_runs_the_code(code: Seq<char>, lang: Language)
    ensures
        lang == Language::Python ==> shell_command_of(code, lang) == "echo '"@ + escape_quotes(
            code,
        ) + "' > main.py && python main.py"@,
        lang == Language::JavaScript ==> shell_command_of(code, lang) == "echo '"@
            + escape_quotes(code) + "' > main.js && node main.js"@,
        lang == Language::Cpp ==> shell_command_of(code, lang) == "echo '"@ + escape_quotes(code)
            + "' > main.cpp && g++ -O3 main.cpp -o prog && ./prog"@,
{
    reveal_strlit("main.");
    reveal_strlit("' > ");
    reveal_strlit(" && ");
    reveal_strlit(" ");
    reveal_strlit("py");
    reveal_strlit("js");
    reveal_strlit("cpp");
    reveal_strlit("python");
    reveal_strlit("node");
    reveal_strlit("g++");
    reveal_strlit("-O3");
    reveal_strlit("-o");
    reveal_strlit("prog");
    reveal_strlit("&&");
    reveal_strlit("./prog");
    reveal_strlit("' > main.py && python main.py");
    reveal_strlit("' > main.js && node main.js");
    reveal_strlit("' > main.cpp && g++ -O3 main.cpp -o prog && ./prog");
    let e = escape_quotes(code);
    let f = container_source_of(lang);
    let words = command_of(lang, f);
    reveal_with_fuel(join_with, 8);
    if lang == Language::Python {
        assert(words.drop_last() =~= seq!["python"@]);
        assert(join_with(words, " "@) =~= "python"@ + " "@ + f);
        assert(shell_command_of(code, lang) =~= "echo '"@ + e + "' > main.py && python main.py"@);
    } else if lang == Language::JavaScript {
        assert(words.drop_last() =~= seq!["node"@]);
        assert(join_with(words, " "@) =~= "node"@ + " "@ + f);
        assert(shell_command_of(code, lang) =~= "echo '"@ + e + "' > main.js && node main.js"@);
    } else {
        let w6 = words.drop_last();
        let w5 = w6.drop_last();
        let w4 = w5.drop_last();
        let w3 = w4.drop_last();
        let w2 = w3.drop_last();
        let w1 = w2.drop_last();
        assert(w1 =~= seq!["g++"@]);
        assert(join_with(w2, " "@) =~= "g++"@ + " "@ + "-O3"@);
        assert(join_with(w3, " "@) =~= join_with(w2, " "@) + " "@ + f);
        assert(join_with(w4, " "@) =~= join_with(w3, " "@) + " "@ + "-o"@);
        assert(join_with(w5, " "@) =~= join_with(w4, " "@) + " "@ + "prog"@);
        assert(join_with(w6, " "@) =~= join_with(w5, " "@) + " "@ + "&&"@);
        assert(join_with(words, " "@) =~= join_with(w6, " "@) + " "@ + "./prog"@);
        assert(shell_command_of(code, lang) =~= "echo '"@ + e
            + "' > main.cpp && g++ -O3 main.cpp -o prog && ./prog"@);
    }
}

/// Law: a container's standard output and error are the log entries of their
/// stream, decoded one by one and appended in order: the logs of two runs of
/// entries are the logs of the first followed by those of the second, and a
/// single entry adds exactly its own decoded text to its own stream.
pub proof fn lemma_logs_append(a: Seq<LogFrame>, b: Seq<LogFrame>)
    ensures
        logs_of(a + b) == (logs_of(a).0 + logs_of(b).0, logs_of(a).1 + logs_of(b).1),
    decreases b.len(),
{
    if b.len() == 0 {
        assert(a + b =~= a);
        assert(logs_of(a).0 + logs_of(b).0 =~= logs_of(a).0);
        assert(logs_of(a).1 + logs_of(b).1 =~= logs_of(a).1);
    } else {
        assert((a + b).drop_last() =~= a + b.drop_last());
        assert((a + b).last() == b.last());
        lemma_logs_append(a, b.drop_last());
        let (ao, ae) = logs_of(a);
        let (bo, be) = logs_of(b.drop_last());
        match b.last() {
            LogFrame::StdOut(m) => {
                assert(ao + (bo + lossy_text(m@)) =~= (ao + bo) + lossy_text(m@));
            },
            LogFrame::StdErr(m) => {
                assert(ae + (be + lossy_text(m@)) =~= (ae + be) + lossy_text(m@));
            },
            _ => {},
        }
    }
}

/// Law: one log entry alone: a standard-output entry gives exactly its decoded
/// text as output and nothing as error, a standard-error entry the reverse, and
/// any other entry nothing at all.
pub proof fn lemma_single_log_frame(f: LogFrame)
    ensures
        f matches LogFrame::StdOut(m) ==> logs_of(seq![f]) == (lossy_text(m@), Seq::<char>::empty()),
        f matches LogFrame::StdErr(m) ==> logs_of(seq![f]) == (Seq::<char>::empty(), lossy_text(m@)),
        (f is Other || f is Unreadable) ==> logs_of(seq![f]) == (Seq::<char>::empty(), Seq::<char>::empty()),
{
    let s = seq![f];
    assert(s.drop_last() =~= Seq::<LogFrame>::empty());
    assert(logs_of(s.drop_last()) == (Seq::<char>::empty(), Seq::<char>::empty()));
    match f {
        LogFrame::StdOut(m) => {
            assert(Seq::<char>::empty() + lossy_text(m@) =~= lossy_text(m@));
        },
        LogFrame::StdErr(m) => {
            assert(Seq::<char>::empty() + lossy_text(m@) =~= lossy_text(m@));
        },
        _ => {},
    }
}

/// The shell command that writes the code to `file` and then runs the
/// language's command line on it.
pub open spec fn shell_command_of(code: Seq<char>, lang: Language) -> Seq<char> {
    let file = container_source_of(lang);
    "echo '"@ + escape_quotes(code) + "' > "@ + file + " && "@ + join_with(
        command_of(lang, file),
        " "@,
    )
}

/// What is needed to start a job's container.
pub struct ContainerPlan {
    pub image: String,
    pub name: String,
    /// The container's command line: a shell that runs `shell_command_of`.
    pub cmd: Vec<String>,
    pub limits: ContainerLimits,
}

/// The container that runs a job: the language's image, a name made from the
/// job's id, and a shell command that writes the code and runs it.
pub fn container_plan(job: &ExecutionJob) -> (plan: ContainerPlan)
    ensures
        plan.image@ == image_of(job.language),
        plan.name@ == container_name_of(job.job_id),
        texts(plan.cmd@) == seq!["sh"@, "-c"@, shell_command_of(job.code@, job.language)],
        plan.limits.memory == MEMORY_LIMIT_BYTES,
        plan.limits.memory_swap == plan.limits.memory,
        plan.limits.nano_cpus == 1_000_000_000,
        plan.limits.network_mode@ == "none"@,
        plan.limits.pids_limit == 64,
{
    let file = join2("main.", job.language.file_extension());
    let run = job.language.execution_cmd(file.as_str());
    let escaped = escape_single_quotes(job.code.as_str());
    let mut shell = join2("echo '", escaped.as_str());
    shell.append("' > ");
    shell.append(file.as_str());
    shell.append(" && ");
    let joined = join_words(&run, " ");
    shell.append(joined.as_str());
    let id = id_text(job.job_id);
    let cmd = vec![String::from_str("sh"), String::from_str("-c"), shell];
    assert(texts(cmd@) =~= seq!["sh"@, "-c"@, shell_command_of(job.code@, job.language)]);
    ContainerPlan {
        image: String::from_str(job.language.docker_image()),
        name: join2("exec_", id.as_str()),
        cmd,
        limits: container_limits(),
    }
}

/// How waiting for a container ended.
pub enum WaitOutcome {
    /// The container stopped with this status code.
    Exited(i64),
    /// The wait reported an error or no status.
    Failed,
}

/// The exit code and error of a container run: past `MAX_EXECUTION_TIME_MS` the
/// run is timed out whatever the wait said; otherwise the container's status
/// code, or a failure.
pub open spec fn verdict_of(time_taken_ms: u64, wait: WaitOutcome) -> (i64, Option<Seq<char>>) {
    if time_taken_ms > MAX_EXECUTION_TIME_MS {
        (-1i64, Some("Execution timed out"@))
    } else {
        match wait {
            WaitOutcome::Exited(code) => (code, None),
            WaitOutcome::Failed => (-1i64, Some("Execution failed or killed"@)),
        }
    }
}

fn verdict(time_taken_ms: u64, wait: WaitOutcome) -> (v: (i64, Option<String>))
    ensures
        v.0 == verdict_of(time_taken_ms, wait).0,
        crate::models::opt_text(v.1) == verdict_of(time_taken_ms, wait).1,
{
    if time_taken_ms > MAX_EXECUTION_TIME_MS {
        (-1, Some(String::from_str("Execution timed out")))
    } else {
        match wait {
            WaitOutcome::Exited(code) => (code, None),
            WaitOutcome::Failed => (-1, Some(String::from_str("Execution failed or killed"))),
        }
    }
}

/// One entry of a container's log.
pub enum LogFrame {
    StdOut(Vec<u8>),
    StdErr(Vec<u8>),
    /// An entry of another stream.
    Other,
    /// An entry that could not be read.
    Unreadable,
}

/// The standard output and error that a container's log entries add up to:
/// each entry of a stream, decoded on its own, appended in order.
pub open spec fn logs_of(frames: Seq<LogFrame>) -> (Seq<char>, Seq<char>)
    decreases frames.len(),
{
    if frames.len() == 0 {
        (Seq::empty(), Seq::empty())
    } else {
        let (out, err) = logs_of(frames.drop_last());
        match frames.last() {
            LogFrame::StdOut(m) => (out + lossy_text(m@), err),
            LogFrame::StdErr(m) => (out, err + lossy_text(m@)),
            _ => (out, err),
        }
    }
}

/// Gathers a container's log entries into its standard output and error.
pub fn collect_logs(frames: &Vec<LogFrame>) -> (logs: (String, String))
    ensures
        (logs.0@, logs.1@) == logs_of(frames@),
{
    let mut stdout = String::new();
    let mut stderr = String::new();
    let mut i: usize = 0;
    while i < frames.len()
        invariant
            i <= frames.len(),
            (stdout@, stderr@) == logs_of(frames@.take(i as int)),
        decreases frames.len() - i,
    {
        proof {
            assert(frames@.take(i as int + 1).drop_last() =~= frames@.take(i as int));
        }
        match &frames[i] {
            LogFrame::StdOut(m) => {
                let text = utf8_lossy(m.as_slice());
                stdout.append(text.as_str());
            },
            LogFrame::StdErr(m) => {
                let text = utf8_lossy(m.as_slice());
                stderr.append(text.as_str());
            },
            _ => {},
        }
        i = i + 1;
    }
    assert(frames@.take(frames.len() as int) =~= frames@);
    (stdout, stderr)
}

/// The result of a job run in a container, from how long it took, how the wait
/// for it ended and what its log held.
pub fn container_result(
    job_id: u128,
    time_taken_ms: u64,
    wait: WaitOutcome,
    frames: &Vec<LogFrame>,
) -> (r: ExecutionResult)
    ensures
        r@ == (ResultView {
            job_id,
            stdout: logs_of(frames@).0,
            stderr: logs_of(frames@).1,
            exit_code: verdict_of(time_taken_ms, wait).0,
            time_taken_ms,
            error: verdict_of(time_taken_ms, wait).1,
        }),
{
    let (exit_code, error) = verdict(time_taken_ms, wait);
    let (stdout, stderr) = collect_logs(frames);
    ExecutionResult { job_id, stdout, stderr, exit_code, time_taken_ms, error }
}

} // verus!
