//! Running a job as a local process: which files and command lines a job
//! needs, and the result that each way a run can end gives.
use vstd::prelude::*;
use vstd::string::*;
use crate::ids::{id_text, lemma_uuid_text_injective, lemma_uuid_text_len, uuid_text};
use crate::models::{command_of, extension_of, opt_text, ExecutionJob, ExecutionResult, Language};
use crate::text::{join2, lossy_text, texts, utf8_lossy};

verus! {

/// How long a locally run program may take, in seconds, before it is abandoned.
pub const RUN_TIMEOUT_SECS: u64 = 10;

/// The compiler that builds C++ sources.
pub open spec fn compiler() -> Seq<char> {
    "g++"@
}

/// The file that holds a job's source.
pub open spec fn source_file_of(job_id: u128, lang: Language) -> Seq<char> {
    "temp_"@ + uuid_text(job_id) + "."@ + extension_of(lang)
}

/// The program that a job's C++ source is compiled into.
pub open spec fn exe_file_of(job_id: u128) -> Seq<char> {
    "temp_"@ + uuid_text(job_id) + ".exe"@
}

/// Law: jobs with different identifiers never share a source file or a
/// compiled program, whatever their languages.
pub proof fn lemma_distinct_jobs_use_distinct_files(a: u128, b: u128, la: Language, lb: Language)
    requires
        a != b,
    ensures
        source_file_of(a, la) != source_file_of(b, lb),
        exe_file_of(a) != exe_file_of(b),
{
    reveal_strlit("temp_");
    lemma_uuid_text_len(a);
    lemma_uuid_text_len(b);
    if source_file_of(a, la) == source_file_of(b, lb) {
        assert(source_file_of(a, la).subrange(5, 41) =~= uuid_text(a));
        assert(source_file_of(b, lb).subrange(5, 41) =~= uuid_text(b));
        lemma_uuid_text_injective(a, b);
    }
    if exe_file_of(a) == exe_file_of(b) {
        assert(exe_file_of(a).subrange(5, 41) =~= uuid_text(a));
        assert(exe_file_of(b).subrange(5, 41) =~= uuid_text(b));
        lemma_uuid_text_injective(a, b);
    }
}

/// Law: a local run writes the code to `temp_<id>.<ext>` and works on exactly
/// that file: Python and JavaScript run their interpreter on it; C++ compiles it
/// with `g++` and the given flag into `temp_<id>.exe` and runs that program.
/// Every file the run creates is removed afterwards.
pub proof fn lemma_plan_runs_the_written_file(job_id: u128, lang: Language, opt: Seq<char>)
    ensures
        lang == Language::Python ==> plan_of(job_id, lang, opt).source_file == "temp_"@
            + uuid_text(job_id) + ".py"@ && plan_of(job_id, lang, opt).compile is None
            && plan_of(job_id, lang, opt).run == seq![
            "python"@,
            plan_of(job_id, lang, opt).source_file,
        ],
        lang == Language::JavaScript ==> plan_of(job_id, lang, opt).source_file == "temp_"@
            + uuid_text(job_id) + ".js"@ && plan_of(job_id, lang, opt).compile is None
            && plan_of(job_id, lang, opt).run == seq![
            "node"@,
            plan_of(job_id, lang, opt).source_file,
        ],
        lang == Language::Cpp ==> plan_of(job_id, lang, opt).source_file == "temp_"@ + uuid_text(
            job_id,
        ) + ".cpp"@ && plan_of(job_id, lang, opt).compile == Some(
            seq![
                "g++"@,
                opt,
                plan_of(job_id, lang, opt).source_file,
                "-o"@,
                "temp_"@ + uuid_text(job_id) + ".exe"@,
            ],
        ) && plan_of(job_id, lang, opt).run == seq!["./"@ + "temp_"@ + uuid_text(job_id) + ".exe"@]
            && plan_of(job_id, lang, opt).cleanup == seq![
            plan_of(job_id, lang, opt).source_file,
            "temp_"@ + uuid_text(job_id) + ".exe"@,
        ],
        lang != Language::Cpp ==> plan_of(job_id, lang, opt).cleanup == seq![
            plan_of(job_id, lang, opt).source_file,
        ],
{
    reveal_strlit(".");
    reveal_strlit("py");
    reveal_strlit("js");
    reveal_strlit("cpp");
    reveal_strlit(".py");
    reveal_strlit(".js");
    reveal_strlit(".cpp");
    let t = "temp_"@ + uuid_text(job_id);
    assert(t + "."@ + "py"@ =~= t + ".py"@);
    assert(t + "."@ + "js"@ =~= t + ".js"@);
    assert(t + "."@ + "cpp"@ =~= t + ".cpp"@);
    assert("./"@ + ("temp_"@ + uuid_text(job_id) + ".exe"@) =~= "./"@ + "temp_"@ + uuid_text(
        job_id,
    ) + ".exe"@);
}

/// Law: a program that ran to its end has everything it wrote reported,
/// decoded, on its own stream, whatever its exit code; its own exit code is
/// reported (`-1` when a signal ended it) and there is no error. Every other
/// ending reports no output, exit code `-1` and an error. Every result carries
/// the job's identifier and the time taken.
pub proof fn lemma_interpreted_result_reports_the_run(job_id: u128, outcome: RunOutcome, time: u64)
    ensures
        interpreted_view(job_id, outcome, time).job_id == job_id,
        interpreted_view(job_id, outcome, time).time_taken_ms == time,
        outcome matches RunOutcome::Exited { stdout, stderr, code } ==> interpreted_view(
            job_id,
            outcome,
            time,
        ).stdout == lossy_text(stdout@) && interpreted_view(job_id, outcome, time).stderr
            == lossy_text(stderr@) && interpreted_view(job_id, outcome, time).error is None && (
        code is Some ==> interpreted_view(job_id, outcome, time).exit_code == code->0 as i64) && (
        code is None ==> interpreted_view(job_id, outcome, time).exit_code == -1),
        !(outcome is Exited) ==> interpreted_view(job_id, outcome, time).stdout.len() == 0
            && interpreted_view(job_id, outcome, time).exit_code == -1 && interpreted_view(
            job_id,
            outcome,
            time,
        ).error is Some,
{
}

/// The files, command lines and clean-up of one local run.
pub struct RunPlan {
    /// Where the job's code is written.
    pub source_file: String,
    /// The compiler's command line, for a language that is compiled first.
    pub compile: Option<Vec<String>>,
    /// The command line that runs the job, its program first.
    pub run: Vec<String>,
    /// The files to remove once the run is over.
    pub cleanup: Vec<String>,
}

/// The plan of a run, as texts.
pub struct PlanView {
    pub source_file: Seq<char>,
    pub compile: Option<Seq<Seq<char>>>,
    pub run: Seq<Seq<char>>,
    pub cleanup: Seq<Seq<char>>,
}

impl RunPlan {
    pub open spec fn view(&self) -> PlanView {
        PlanView {
            source_file: self.source_file@,
            compile: match self.compile {
                Some(c) => Some(texts(c@)),
                None => None,
            },
            run: texts(self.run@),
            cleanup: texts(self.cleanup@),
        }
    }
}

/// The plan of a local run, compiling C++ with the optimisation flag `opt`:
/// C++ is compiled to `exe_file_of` and that program is run; other languages
/// run by their command line on the source file. The source file, and for C++
/// the program, are removed afterwards.
pub open spec fn plan_of(job_id: u128, lang: Language, opt: Seq<char>) -> PlanView {
    let src = source_file_of(job_id, lang);
    let exe = exe_file_of(job_id);
    if lang == Language::Cpp {
        PlanView {
            source_file: src,
            compile: Some(seq![compiler(), opt, src, "-o"@, exe]),
            run: seq!["./"@ + exe],
            cleanup: seq![src, exe],
        }
    } else {
        PlanView { source_file: src, compile: None, run: command_of(lang, src), cleanup: seq![src] }
    }
}

/// The file that holds a job's source.
pub fn source_file_name(job_id: u128, lang: Language) -> (name: String)
    ensures
        name@ == source_file_of(job_id, lang),
{
    let id = id_text(job_id);
    let mut name = join2("temp_", id.as_str());
    name.append(".");
    name.append(lang.file_extension());
    name
}

/// The program that a job's C++ source is compiled into.
pub fn exe_file_name(job_id: u128) -> (name: String)
    ensures
        name@ == exe_file_of(job_id),
{
    let id = id_text(job_id);
    let mut name = join2("temp_", id.as_str());
    name.append(".exe");
    name
}

fn plan_with(job: &ExecutionJob, opt: &str) -> (plan: RunPlan)
    ensures
        plan@ == plan_of(job.job_id, job.language, opt@),
{
    let src = source_file_name(job.job_id, job.language);
    match job.language {
        Language::Cpp => {
            let exe = exe_file_name(job.job_id);
            let compile = vec![
                String::from_str("g++"),
                String::from_str(opt),
                src.clone(),
                String::from_str("-o"),
                exe.clone(),
            ];
            let run = vec![join2("./", exe.as_str())];
            let cleanup = vec![src.clone(), exe];
            let plan = RunPlan { source_file: src, compile: Some(compile), run, cleanup };
            assert(plan@.compile->0 =~= plan_of(job.job_id, job.language, opt@).compile->0);
            assert(plan@.run =~= plan_of(job.job_id, job.language, opt@).run);
            assert(plan@.cleanup =~= plan_of(job.job_id, job.language, opt@).cleanup);
            plan
        },
        _ => {
            let run = job.language.execution_cmd(src.as_str());
            let cleanup = vec![src.clone()];
            let plan = RunPlan { source_file: src, compile: None, run, cleanup };
            assert(plan@.cleanup =~= plan_of(job.job_id, job.language, opt@).cleanup);
            plan
        },
    }
}

/// The plan by which the server runs a job in its own process (C++ built with
/// `-O2`).
pub fn server_plan(job: &ExecutionJob) -> (plan: RunPlan)
    ensures
        plan@ == plan_of(job.job_id, job.language, "-O2"@),
{
    plan_with(job, "-O2")
}

/// The plan by which a worker runs a job without containers (C++ built with
/// `-O3`).
pub fn worker_plan(job: &ExecutionJob) -> (plan: RunPlan)
    ensures
        plan@ == plan_of(job.job_id, job.language, "-O3"@),
{
    plan_with(job, "-O3")
}

/// How a locally run program ended.
pub enum RunOutcome {
    /// The program could not be started; the message is the system's.
    SpawnFailed(String),
    /// The program ended with this output and exit code (none when a signal
    /// ended it).
    Exited { stdout: Vec<u8>, stderr: Vec<u8>, code: Option<i32> },
    /// Waiting for the program failed; the message is the system's.
    WaitFailed(String),
    /// The program outlived `RUN_TIMEOUT_SECS`.
    TimedOut,
}

/// The exit code that is reported for an optional process exit code.
pub open spec fn reported_code(code: Option<i32>) -> i64 {
    match code {
        Some(c) => c as i64,
        None => -1i64,
    }
}

/// The fields of a result, as values.
pub struct ResultView {
    pub job_id: u128,
    pub stdout: Seq<char>,
    pub stderr: Seq<char>,
    pub exit_code: i64,
    pub time_taken_ms: u64,
    pub error: Option<Seq<char>>,
}

impl ExecutionResult {
    pub open spec fn view(&self) -> ResultView {
        ResultView {
            job_id: self.job_id,
            stdout: self.stdout@,
            stderr: self.stderr@,
            exit_code: self.exit_code,
            time_taken_ms: self.time_taken_ms,
            error: opt_text(self.error),
        }
    }
}

/// A result that reports a failure: no output, exit code `-1`.
pub open spec fn failure_view(job_id: u128, stderr: Seq<char>, time: u64, error: Seq<char>) -> ResultView {
    ResultView {
        job_id,
        stdout: Seq::empty(),
        stderr,
        exit_code: -1i64,
        time_taken_ms: time,
        error: Some(error),
    }
}

/// The result of a program that the server ran directly.
pub open spec fn interpreted_view(job_id: u128, outcome: RunOutcome, time: u64) -> ResultView {
    match outcome {
        RunOutcome::SpawnFailed(m) => failure_view(
            job_id,
            "Failed to spawn: "@ + m@,
            time,
            "Process error: "@ + m@,
        ),
        RunOutcome::Exited { stdout, stderr, code } => ResultView {
            job_id,
            stdout: lossy_text(stdout@),
            stderr: lossy_text(stderr@),
            exit_code: reported_code(code),
            time_taken_ms: time,
            error: None,
        },
        RunOutcome::WaitFailed(m) => failure_view(
            job_id,
            "Failed to wait: "@ + m@,
            time,
            "Process error: "@ + m@,
        ),
        RunOutcome::TimedOut => failure_view(
            job_id,
            Seq::empty(),
            time,
            "Execution timed out (10s limit)"@,
        ),
    }
}

fn failure(job_id: u128, stderr: String, time_taken_ms: u64, error: String) -> (r: ExecutionResult)
    ensures
        r@ == failure_view(job_id, stderr@, time_taken_ms, error@),
{
    ExecutionResult {
        job_id,
        stdout: String::new(),
        stderr,
        exit_code: -1,
        time_taken_ms,
        error: Some(error),
    }
}

fn code_or_minus_one(code: Option<i32>) -> (c: i64)
    ensures
        c == reported_code(code),
{
    match code {
        Some(c) => c as i64,
        None => -1,
    }
}

/// The result of a program that the server ran directly, by how it ended.
pub fn interpreted_result(job_id: u128, outcome: RunOutcome, time_taken_ms: u64) -> (r:
    ExecutionResult)
    ensures
        r@ == interpreted_view(job_id, outcome, time_taken_ms),
{
    match outcome {
        RunOutcome::SpawnFailed(m) => failure(
            job_id,
            join2("Failed to spawn: ", m.as_str()),
            time_taken_ms,
            join2("Process error: ", m.as_str()),
        ),
        RunOutcome::Exited { stdout, stderr, code } => ExecutionResult {
            job_id,
            stdout: utf8_lossy(stdout.as_slice()),
            stderr: utf8_lossy(stderr.as_slice()),
            exit_code: code_or_minus_one(code),
            time_taken_ms,
            error: None,
        },
        RunOutcome::WaitFailed(m) => failure(
            job_id,
            join2("Failed to wait: ", m.as_str()),
            time_taken_ms,
            join2("Process error: ", m.as_str()),
        ),
        RunOutcome::TimedOut => failure(
            job_id,
            String::new(),
            time_taken_ms,
            String::from_str("Execution timed out (10s limit)"),
        ),
    }
}

/// The result when the server could not compile a C++ job: the compiler's
/// error output, and the error `Compilation failed`.
pub fn compile_failed_result(job_id: u128, compiler_stderr: &[u8], time_taken_ms: u64) -> (r:
    ExecutionResult)
    ensures
        r@ == failure_view(
            job_id,
            lossy_text(compiler_stderr@),
            time_taken_ms,
            "Compilation failed"@,
        ),
{
    failure(
        job_id,
        utf8_lossy(compiler_stderr),
        time_taken_ms,
        String::from_str("Compilation failed"),
    )
}

/// The result when a worker could not compile a C++ job.
pub fn local_compile_failed_result(job_id: u128, time_taken_ms: u64) -> (r: ExecutionResult)
    ensures
        r@ == failure_view(job_id, "Compilation failed"@, time_taken_ms, "Compilation Error"@),
{
    failure(
        job_id,
        String::from_str("Compilation failed"),
        time_taken_ms,
        String::from_str("Compilation Error"),
    )
}

/// The result of a program that a worker ran without a container.
pub fn local_exit_result(
    job_id: u128,
    stdout: &[u8],
    stderr: &[u8],
    code: Option<i32>,
    time_taken_ms: u64,
) -> (r: ExecutionResult)
    ensures
        r@ == (ResultView {
            job_id,
            stdout: lossy_text(stdout@),
            stderr: lossy_text(stderr@),
            exit_code: reported_code(code),
            time_taken_ms,
            error: None,
        }),
{
    ExecutionResult {
        job_id,
        stdout: utf8_lossy(stdout),
        stderr: utf8_lossy(stderr),
        exit_code: code_or_minus_one(code),
        time_taken_ms,
        error: None,
    }
}

/// The result that a worker reports when running a job failed inside the
/// worker itself.
pub fn internal_error_result(job_id: u128, message: &str) -> (r: ExecutionResult)
    ensures
        r@ == (ResultView {
            job_id,
            stdout: Seq::empty(),
            stderr: Seq::empty(),
            exit_code: -1i64,
            time_taken_ms: 0u64,
            error: Some("Internal Execute Error: "@ + message@),
        }),
{
    ExecutionResult {
        job_id,
        stdout: String::new(),
        stderr: String::new(),
        exit_code: -1,
        time_taken_ms: 0,
        error: Some(join2("Internal Execute Error: ", message)),
    }
}

} // verus!
