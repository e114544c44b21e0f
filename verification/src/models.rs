//! Languages, jobs, results and saved snippets.
use vstd::prelude::*;
use vstd::string::*;
use crate::stamps::Timestamp;
use crate::text::texts;

verus! {

/// A language that submitted code may be written in.
#[derive(Debug, Clone, Copy, PartialEq, Eq, Structural)]
pub enum Language {
    Python,
    Cpp,
    JavaScript,
}

/// The container image that runs code of a language.
pub open spec fn image_of(lang: Language) -> Seq<char> {
    match lang {
        Language::Python => "python:3.10-alpine"@,
        Language::Cpp => "gcc:12"@,
        Language::JavaScript => "node:18-alpine"@,
    }
}

/// The file extension of source files of a language.
pub open spec fn extension_of(lang: Language) -> Seq<char> {
    match lang {
        Language::Python => "py"@,
        Language::Cpp => "cpp"@,
        Language::JavaScript => "js"@,
    }
}

/// The command line that runs the source file `file` of a language.
pub open spec fn command_of(lang: Language, file: Seq<char>) -> Seq<Seq<char>> {
    match lang {
        Language::Python => seq!["python"@, file],
        Language::Cpp => seq!["g++"@, "-O3"@, file, "-o"@, "prog"@, "&&"@, "./prog"@],
        Language::JavaScript => seq!["node"@, file],
    }
}

impl Language {
    pub fn docker_image(&self) -> (image: &'static str)
        ensures
            image@ == image_of(*self),
    {
        match self {
            Language::Python => "python:3.10-alpine",
            Language::Cpp => "gcc:12",
            Language::JavaScript => "node:18-alpine",
        }
    }

    pub fn file_extension(&self) -> (ext: &'static str)
        ensures
            ext@ == extension_of(*self),
    {
        match self {
            Language::Python => "py",
            Language::Cpp => "cpp",
            Language::JavaScript => "js",
        }
    }

    pub fn execution_cmd(&self, filename: &str) -> (cmd: Vec<String>)
        ensures
            texts(cmd@) == command_of(*self, filename@),
    {
        let file = String::from_str(filename);
        match self {
            Language::Python => {
                let cmd = vec![String::from_str("python"), file];
                assert(texts(cmd@) =~= command_of(*self, filename@));
                cmd
            },
            Language::Cpp => {
                let cmd = vec![
                    String::from_str("g++"),
                    String::from_str("-O3"),
                    file,
                    String::from_str("-o"),
                    String::from_str("prog"),
                    String::from_str("&&"),
                    String::from_str("./prog"),
                ];
                assert(texts(cmd@) =~= command_of(*self, filename@));
                cmd
            },
            Language::JavaScript => {
                let cmd = vec![String::from_str("node"), file];
                assert(texts(cmd@) =~= command_of(*self, filename@));
                cmd
            },
        }
    }
}

/// A request to run code.
#[derive(Debug, Clone)]
pub struct ExecutionJob {
    pub job_id: u128,
    pub language: Language,
    pub code: String,
    pub user_id: Option<u128>,
    pub stdin: Option<String>,
}

/// What running a job produced.
#[derive(Debug, Clone)]
pub struct ExecutionResult {
    pub job_id: u128,
    pub stdout: String,
    pub stderr: String,
    pub exit_code: i64,
    pub time_taken_ms: u64,
    pub error: Option<String>,
}

/// A piece of code saved for later.
#[derive(Debug, Clone)]
pub struct CodeSnippet {
    pub id: u128,
    pub user_id: u128,
    pub language: Language,
    pub code: String,
    pub created_at: Timestamp,
}

/// The text of an optional string.
pub open spec fn opt_text(s: Option<String>) -> Option<Seq<char>> {
    match s {
        Some(t) => Some(t@),
        None => None,
    }
}

} // verus!
