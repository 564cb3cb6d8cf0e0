use vstd::prelude::*;
use crate::paths::{file_name_of, path_file_name};
use crate::settings::texts_view;
use crate::text::concat3;

verus! {

/// The number of lines that the error log keeps.
pub const MAX_LOG_LINES: usize = 500;

/// The log line for a failed upload of `file` at the time `ts` with the error `err`.
pub open spec fn failure_line(ts: Seq<char>, file: Seq<char>, err: Seq<char>) -> Seq<char> {
    "["@ + ts + "] FAIL "@ + match file_name_of(file) {
        Some(n) => n,
        None => "?"@,
    } + " — "@ + err
}

/// The log after appending `line` to `lines`: the most recent `MAX_LOG_LINES` lines.
pub open spec fn appended_log(lines: Seq<Seq<char>>, line: Seq<char>) -> Seq<Seq<char>> {
    let all = lines.push(line);
    if all.len() > MAX_LOG_LINES {
        all.subrange(all.len() - MAX_LOG_LINES, all.len() as int)
    } else {
        all
    }
}

/// The log line for a failed upload of `file` at the time `ts` with the error `err`.
pub fn failure_log_line(ts: &str, file: &str, err: &str) -> (r: String)
    ensures
        r@ == failure_line(ts@, file@, err@),
{
    let name = match path_file_name(file) {
        Some(n) => n,
        None => String::from_str("?"),
    };
    let mut line = concat3("[", ts, "] FAIL ");
    line.append(name.as_str());
    line.append(" — ");
    line.append(err);
    line
}

/// The log `lines` with `line` appended, trimmed to the most recent `MAX_LOG_LINES` lines.
pub fn append_to_log(lines: Vec<String>, line: String) -> (r: Vec<String>)
    ensures
        texts_view(r@) == appended_log(texts_view(lines@), line@),
{
    let ghost before = texts_view(lines@);
    let mut all = lines;
    let ghost lv = line@;
    all.push(line);
    assert(texts_view(all@) =~= before.push(lv));
    let start: usize = if all.len() > MAX_LOG_LINES {
        all.len() - MAX_LOG_LINES
    } else {
        0
    };
    let mut out: Vec<String> = Vec::new();
    let mut i: usize = start;
    while i < all.len()
        invariant
            start <= i <= all@.len(),
            texts_view(out@) == texts_view(all@).subrange(start as int, i as int),
        decreases all@.len() - i,
    {
        let ghost prev = out@;
        let item = all[i].clone();
        out.push(item);
        assert(out@ == prev.push(all@[i as int]));
        assert(texts_view(out@) =~= texts_view(prev).push(all@[i as int]@));
        i = i + 1;
        assert(texts_view(out@) =~= texts_view(all@).subrange(start as int, i as int));
    }
    assert(texts_view(all@).subrange(0, all@.len() as int) =~= texts_view(all@));
    out
}

/// The log never holds more than `MAX_LOG_LINES` lines, and its last line is the one just
/// appended.
pub proof fn lemma_log_bounded(lines: Seq<Seq<char>>, line: Seq<char>)
    ensures
        appended_log(lines, line).len() <= MAX_LOG_LINES,
        appended_log(lines, line).last() == line,
        lines.len() < MAX_LOG_LINES ==> appended_log(lines, line) == lines.push(line),
{
}

} // verus!
