//! How jobs and snippets are written to and read back from the database:
//! identifiers and times as text, and the decisions of the read paths.
use vstd::prelude::*;
use crate::ids::{id_text, lemma_id_text_reads_back, parse_id, read_id, uuid_text};
use crate::models::{CodeSnippet, Language};
use crate::stamps::{datetime_text, parsed_or_epoch, Timestamp};

verus! {

/// A text that does not read as an identifier, with the reason the uuid crate
/// gives.
pub struct InvalidId(pub uuid::Error);

/// The columns of a stored snippet other than its language, as texts.
pub struct StoredSnippet {
    pub id: String,
    pub user_id: String,
    pub code: String,
    pub created_at: String,
}

/// A snippet, as values.
pub struct SnippetView {
    pub id: u128,
    pub user_id: u128,
    pub language: Language,
    pub code: Seq<char>,
    pub created_at: (i64, u32),
}

impl CodeSnippet {
    pub open spec fn view(&self) -> SnippetView {
        SnippetView {
            id: self.id,
            user_id: self.user_id,
            language: self.language,
            code: self.code@,
            created_at: self.created_at.parts(),
        }
    }
}

/// Stored columns, as texts.
pub struct StoredView {
    pub id: Seq<char>,
    pub user_id: Seq<char>,
    pub code: Seq<char>,
    pub created_at: Seq<char>,
}

impl StoredSnippet {
    pub open spec fn view(&self) -> StoredView {
        StoredView {
            id: self.id@,
            user_id: self.user_id@,
            code: self.code@,
            created_at: self.created_at@,
        }
    }
}

/// The columns under which a snippet is stored.
pub open spec fn stored_of(s: SnippetView) -> StoredView {
    StoredView {
        id: uuid_text(s.id),
        user_id: uuid_text(s.user_id),
        code: s.code,
        created_at: datetime_text(s.created_at.0, s.created_at.1),
    }
}

/// The snippet that stored columns and a language read as: none unless both
/// identifiers read; a creation time that does not read becomes the epoch.
pub open spec fn restored_of(row: StoredView, language: Language) -> Option<SnippetView> {
    if read_id(row.id) is Some && read_id(row.user_id) is Some {
        Some(
            SnippetView {
                id: read_id(row.id)->0,
                user_id: read_id(row.user_id)->0,
                language,
                code: row.code,
                created_at: parsed_or_epoch(row.created_at),
            },
        )
    } else {
        None
    }
}

/// The columns under which a snippet is stored.
pub fn stored_snippet(snippet: &CodeSnippet) -> (row: StoredSnippet)
    ensures
        row@ == stored_of(snippet@),
{
    StoredSnippet {
        id: id_text(snippet.id),
        user_id: id_text(snippet.user_id),
        code: snippet.code.clone(),
        created_at: snippet.created_at.to_text(),
    }
}

/// The snippet that a stored row reads as, given the language read from the
/// row; the error of the first identifier that does not read otherwise.
pub fn restore_snippet(row: &StoredSnippet, language: Language) -> (s: Result<
    CodeSnippet,
    InvalidId,
>)
    ensures
        s is Ok <==> restored_of(row@, language) is Some,
        s is Ok ==> s->Ok_0@ == restored_of(row@, language)->0,
{
    let id = match parse_id(row.id.as_str()) {
        Ok(v) => v,
        Err(e) => {
            return Err(InvalidId(e));
        },
    };
    let user_id = match parse_id(row.user_id.as_str()) {
        Ok(v) => v,
        Err(e) => {
            return Err(InvalidId(e));
        },
    };
    let created_at = Timestamp::parse_or_epoch(row.created_at.as_str());
    Ok(CodeSnippet { id, user_id, language, code: row.code.clone(), created_at })
}

/// Law: a snippet read back from the row it was stored under has the same
/// identifiers, owner, language and code; its creation time is what chrono
/// reads from the stored text of it.
pub proof fn lemma_stored_snippet_reads_back(s: SnippetView)
    ensures
        restored_of(stored_of(s), s.language) == Some(
            SnippetView {
                created_at: parsed_or_epoch(datetime_text(s.created_at.0, s.created_at.1)),
                ..s
            },
        ),
{
    lemma_id_text_reads_back(s.id);
    lemma_id_text_reads_back(s.user_id);
}

/// A job taken from the database queue: its identifier, read from the stored
/// text, and its payload.
pub fn claimed_job(job_id: &str, payload: String) -> (job: Result<(u128, String), InvalidId>)
    ensures
        job is Ok <==> read_id(job_id@) is Some,
        job is Ok ==> (job->Ok_0).0 == read_id(job_id@)->0 && (job->Ok_0).1@ == payload@,
{
    match parse_id(job_id) {
        Ok(id) => Ok((id, payload)),
        Err(e) => Err(InvalidId(e)),
    }
}

/// The result of a completed job: none when no completed row was found, and
/// otherwise the row's result, which may itself be empty.
pub fn completed_result(row: Option<Option<String>>) -> (result: Option<String>)
    ensures
        result == (match row {
            Some(r) => r,
            None => None,
        }),
{
    match row {
        Some(r) => r,
        None => None,
    }
}

} // verus!
