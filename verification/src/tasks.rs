//! The built-in background task kinds and the text analysis task.
use vstd::prelude::*;
use crate::chars::{append_str, chars_of, char_is_whitespace, spec_is_whitespace, str_eq, trim_bounds};

verus! {

/// The task kinds the built-in executor runs.
#[derive(Clone, Copy, Debug, PartialEq, Eq)]
pub enum NativeTaskKind {
    /// Hand the payload back.
    Echo,
    /// Wait `payload.millis` milliseconds, then hand back `payload.data` (or the payload).
    SleepEcho,
    /// Count the words, lines and characters of `payload.text`.
    AnalyzeText,
    /// Any other kind: not supported.
    Unknown,
}

/// The task kind a name selects.
pub open spec fn spec_task_kind(kind: Seq<char>) -> NativeTaskKind {
    if kind == "echo"@ {
        NativeTaskKind::Echo
    } else if kind == "sleep_echo"@ {
        NativeTaskKind::SleepEcho
    } else if kind == "analyze_text"@ {
        NativeTaskKind::AnalyzeText
    } else {
        NativeTaskKind::Unknown
    }
}

/// The task kind a name selects.
pub fn classify_task_kind(kind: &str) -> (r: NativeTaskKind)
    ensures
        r == spec_task_kind(kind@),
{
    if str_eq(kind, "echo") {
        NativeTaskKind::Echo
    } else if str_eq(kind, "sleep_echo") {
        NativeTaskKind::SleepEcho
    } else if str_eq(kind, "analyze_text") {
        NativeTaskKind::AnalyzeText
    } else {
        NativeTaskKind::Unknown
    }
}

/// The error a task of an unsupported kind finishes with.
pub fn unknown_task_error(kind: &str) -> (r: String)
    ensures
        r@ == "unknown task kind: "@ + kind@,
{
    let mut out = String::new();
    append_str(&mut out, "unknown task kind: ");
    append_str(&mut out, kind);
    assert(Seq::<char>::empty() + "unknown task kind: "@ == "unknown task kind: "@);
    out
}

/// The error `analyze_text` finishes with when the payload has no text.
pub fn missing_text_error() -> (r: String)
    ensures
        r@ == "analyze_text expects payload.text"@,
{
    let mut out = String::new();
    append_str(&mut out, "analyze_text expects payload.text");
    assert(Seq::<char>::empty() + "analyze_text expects payload.text"@ =~= "analyze_text expects payload.text"@);
    out
}

/// What a `sleep_echo` task does: wait `millis` milliseconds, then answer `response`.
pub struct SleepEchoPlan<T> {
    pub millis: u64,
    pub response: T,
}

/// Plan a `sleep_echo` task from its payload, the payload's `millis` when it is a
/// non-negative integer, and its `data` when present: wait `millis` (0 when absent), then
/// answer `data`, or the whole payload when there is none.
pub fn plan_sleep_echo<T>(payload: T, millis: Option<u64>, data: Option<T>) -> (r: SleepEchoPlan<T>)
    ensures
        r.millis == (match millis {
            Some(m) => m,
            None => 0,
        }),
        r.response == (match data {
            Some(d) => d,
            None => payload,
        }),
{
    let millis = match millis {
        Some(m) => m,
        None => 0,
    };
    let response = match data {
        Some(d) => d,
        None => payload,
    };
    SleepEchoPlan { millis, response }
}

/// The text an `analyze_text` task analyzes: the payload's `text` when it is a string,
/// else the task fails with the missing-text error.
pub fn analyze_text_input(text: Option<String>) -> (r: Result<String, String>)
    ensures
        match text {
            Some(t) => r == Ok::<String, String>(t),
            None => r is Err && r->Err_0@ == "analyze_text expects payload.text"@,
        },
{
    match text {
        Some(t) => Ok(t),
        None => Err(missing_text_error()),
    }
}

/// How many characters of the text the analysis previews.
pub const PREVIEW_CHARS: usize = 48;

/// Positions where a whitespace-separated word begins.
pub open spec fn word_starts(s: Seq<char>) -> nat
    decreases s.len(),
{
    if s.len() == 0 {
        0
    } else {
        let i = s.len() - 1;
        word_starts(s.drop_last()) + if !spec_is_whitespace(s[i]) && (i == 0 || spec_is_whitespace(s[i - 1])) {
            1nat
        } else {
            0nat
        }
    }
}

/// Newline characters in the text.
pub open spec fn newline_count(s: Seq<char>) -> nat
    decreases s.len(),
{
    if s.len() == 0 {
        0
    } else {
        newline_count(s.drop_last()) + if s.last() == '\n' { 1nat } else { 0nat }
    }
}

/// How many lines `str::lines` yields: a final line ending adds no empty line.
pub open spec fn spec_line_count(s: Seq<char>) -> nat {
    if s.len() == 0 {
        0
    } else {
        newline_count(s) + if s.last() == '\n' { 0nat } else { 1nat }
    }
}

/// Word, line and character counts of a text, with a short preview.
#[derive(Clone, Debug)]
pub struct TextAnalysis {
    pub word_count: usize,
    pub line_count: usize,
    pub char_count: usize,
    pub preview: String,
}

proof fn lemma_counts_bounded(s: Seq<char>)
    ensures
        word_starts(s) <= s.len(),
        newline_count(s) <= s.len(),
    decreases s.len(),
{
    if s.len() > 0 {
        lemma_counts_bounded(s.drop_last());
    }
}

/// A text with only whitespace has no word.
proof fn lemma_no_words_in_whitespace(s: Seq<char>)
    requires
        forall|i: int| 0 <= i < s.len() ==> spec_is_whitespace(#[trigger] s[i]),
    ensures
        word_starts(s) == 0,
    decreases s.len(),
{
    if s.len() > 0 {
        assert(spec_is_whitespace(s[s.len() - 1]));
        assert forall|i: int| 0 <= i < s.drop_last().len() implies spec_is_whitespace(#[trigger] s.drop_last()[i]) by {
            assert(s.drop_last()[i] == s[i]);
        }
        lemma_no_words_in_whitespace(s.drop_last());
    }
}

/// Analyze a text: words are maximal runs of non-whitespace, lines are as `str::lines`
/// counts them, characters are Unicode scalar values, and the preview is the first
/// `PREVIEW_CHARS` characters.
pub fn analyze_text(text: &str) -> (r: TextAnalysis)
    ensures
        r.word_count == word_starts(text@),
        r.line_count == spec_line_count(text@),
        r.char_count == text@.len(),
        r.preview@ == text@.take(if text@.len() < PREVIEW_CHARS { text@.len() as int } else { PREVIEW_CHARS as int }),
{
    let v = chars_of(text);
    let n = v.len();
    proof {
        lemma_counts_bounded(v@);
    }
    let (start, end) = trim_bounds(&v);
    let mut words: usize = 0;
    let mut newlines: usize = 0;
    let mut i: usize = 0;
    while i < n
        invariant
            i <= n == v@.len(),
            v@ == text@,
            words == word_starts(v@.take(i as int)),
            newlines == newline_count(v@.take(i as int)),
        decreases n - i,
    {
        proof {
            let t = v@.take(i + 1);
            assert(t.drop_last() =~= v@.take(i as int));
            lemma_counts_bounded(t);
            assert(t.len() == i + 1);
            assert(t[i as int] == v@[i as int]);
            if i > 0 {
                assert(t[i - 1] == v@[i - 1]);
            }
        }
        let c = v[i];
        let ws = char_is_whitespace(c);
        if !ws && (i == 0 || char_is_whitespace(v[i - 1])) {
            words = words + 1;
        }
        if c == '\n' {
            newlines = newlines + 1;
        }
        i += 1;
    }
    assert(v@.take(n as int) =~= v@);
    let word_count = if start == end {
        proof {
            assert forall|k: int| 0 <= k < v@.len() implies spec_is_whitespace(#[trigger] v@[k]) by {
                crate::chars::lemma_trim_empty_iff_all_whitespace(v@);
                assert(crate::chars::all_whitespace(v@));
            }
            lemma_no_words_in_whitespace(v@);
        }
        0
    } else {
        words
    };
    let line_count = if n == 0 {
        0
    } else if v[n - 1] == '\n' {
        newlines
    } else {
        proof {
            lemma_counts_bounded(v@.drop_last());
        }
        newlines + 1
    };
    let limit = if n < PREVIEW_CHARS { n } else { PREVIEW_CHARS };
    let preview = crate::chars::string_from_range(&v, 0, limit);
    TextAnalysis { word_count, line_count, char_count: n, preview }
}

/// The number of native worker threads for a machine with `available` hardware threads
/// (if known): one thread is left to the UI, and at least one worker runs.
pub fn default_native_workers(available: Option<usize>) -> (r: usize)
    ensures
        r == (match available {
            Some(p) => if p >= 2 { (p - 1) as usize } else { 1usize },
            None => 1usize,
        }),
        r >= 1,
{
    match available {
        Some(p) => {
            let w = if p >= 1 { p - 1 } else { 0 };
            if w > 1 { w } else { 1 }
        },
        None => 1,
    }
}

} // verus!
