use vstd::prelude::*;
use crate::types::{Config, Field, TxParseError};

verus! {

/// `needle` occurs in `hay` as a contiguous run of characters.
pub open spec fn has_substring(hay: Seq<char>, needle: Seq<char>) -> bool {
    exists|i: int|
        0 <= i && i + needle.len() <= hay.len() && #[trigger] hay.subrange(i, i + needle.len())
            == needle
}

/// Some line of `lines` holds `id`.
pub open spec fn some_line_has(lines: Seq<String>, id: Seq<char>) -> bool {
    exists|j: int| 0 <= j < lines.len() && has_substring(#[trigger] lines[j]@, id)
}

/// Relevance of a transaction as read from its logs.
#[derive(Clone, Copy, Debug, PartialEq, Eq, Structural)]
pub enum LogClass {
    /// The excluded intermediary program appears.
    Excluded,
    /// The required program appears, and the excluded one does not.
    Relevant,
    /// Neither program appears.
    Unrelated,
}

/// Classification of a log list, the excluded program taking precedence.
pub open spec fn log_class_of(lines: Seq<String>, cfg: Config) -> LogClass {
    if some_line_has(lines, cfg.excluded_id@) {
        LogClass::Excluded
    } else if some_line_has(lines, cfg.required_id@) {
        LogClass::Relevant
    } else {
        LogClass::Unrelated
    }
}

/// Relies on str::contains: true exactly when `needle` matches a sub-slice
/// of `hay`.
#[verifier::external_body]
fn str_contains(hay: &str, needle: &str) -> (r: bool)
    ensures
        r == has_substring(hay@, needle@),
{
    hay.contains(needle)
}

/// Whether any line of `lines` holds `id`.
pub fn any_line_contains(lines: &Vec<String>, id: &String) -> (r: bool)
    ensures
        r == some_line_has(lines@, id@),
{
    let mut j: usize = 0;
    while j < lines.len()
        invariant
            j <= lines.len(),
            forall|k: int| 0 <= k < j ==> !has_substring(#[trigger] lines@[k]@, id@),
        decreases lines.len() - j,
    {
        if str_contains(lines[j].as_str(), id.as_str()) {
            return true;
        }
        j = j + 1;
    }
    false
}

/// Reads the logs' relevance: absent or not-requested logs are an error.
pub fn scan_logs(logs: &Field<Vec<String>>, cfg: &Config) -> (r: Result<LogClass, TxParseError>)
    ensures
        match logs {
            Field::Present(lines) => r == Ok::<LogClass, TxParseError>(log_class_of(lines@, *cfg)),
            _ => r matches Err(TxParseError::LogsUnavailable),
        },
{
    match logs {
        Field::Present(lines) => {
            if any_line_contains(lines, &cfg.excluded_id) {
                Ok(LogClass::Excluded)
            } else if any_line_contains(lines, &cfg.required_id) {
                Ok(LogClass::Relevant)
            } else {
                Ok(LogClass::Unrelated)
            }
        },
        _ => Err(TxParseError::LogsUnavailable),
    }
}

} // verus!
