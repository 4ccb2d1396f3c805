//! The editor-to-canvas DSL pipeline.
//!
//! Each frame the canvas hashes the editor's current content and
//! compares it to what it last *saw* and last *evaluated*. A change
//! schedules the next evaluation `EVAL_DEBOUNCE_MS` later; once that
//! deadline has passed, and the content still differs from the last
//! evaluated content, the DSL is parsed exactly once.

use std::collections::hash_map::DefaultHasher;
use std::hash::Hash;
use std::hash::Hasher;
use vstd::prelude::*;
use vstd::std_specs::hash::DefaultHasherAdditionalSpecFns;

verus! {

/// Wait this long (milliseconds) after the last keystroke before
/// re-parsing the DSL.
pub const EVAL_DEBOUNCE_MS: u64 = 300;

/// The writes that hashing a string feeds into a hasher: determined by
/// the string's characters alone.
pub uninterp spec fn str_hash_writes(s: Seq<char>) -> Seq<Seq<u8>>;

/// Feeds `s` into `hasher` through `<str as Hash>::hash`.
///
/// Trusted: the hasher's state afterwards is its state before followed
/// by writes that depend on the characters of `s` only. Which bytes
/// std writes for a `str` is left unsaid.
#[verifier::external_body]
fn hash_str_into(s: &str, hasher: &mut DefaultHasher)
    ensures
        final(hasher)@ == old(hasher)@ + str_hash_writes(s@),
{
    s.hash(hasher);
}

/// The hash that `hash_str` gives a content string.
pub open spec fn content_hash(s: Seq<char>) -> u64 {
    DefaultHasher::spec_finish(Seq::<Seq<u8>>::empty() + str_hash_writes(s))
}

/// Hash of the editor content, used to detect that the user typed.
pub fn hash_str(s: &str) -> (h: u64)
    ensures
        h == content_hash(s@),
{
    let mut hasher = DefaultHasher::new();
    hash_str_into(s, &mut hasher);
    hasher.finish()
}

/// The content hash covers the whole content: it is what a fresh std
/// `DefaultHasher` finishes with after all of `s` has been hashed into
/// it, so two contents are told apart whenever std's hashing of the
/// full strings tells them apart, wherever they differ.
pub proof fn lemma_hash_covers_whole_content(s: Seq<char>, t: Seq<char>)
    ensures
        content_hash(s) == DefaultHasher::spec_finish(str_hash_writes(s)),
        content_hash(s) != content_hash(t) ==> str_hash_writes(s) != str_hash_writes(t),
        DefaultHasher::spec_finish(str_hash_writes(s)) != DefaultHasher::spec_finish(
            str_hash_writes(t),
        ) ==> content_hash(s) != content_hash(t),
{
    assert(Seq::<Seq<u8>>::empty() + str_hash_writes(s) =~= str_hash_writes(s));
    assert(Seq::<Seq<u8>>::empty() + str_hash_writes(t) =~= str_hash_writes(t));
}

/// Debounce state of the DSL pipeline.
#[derive(Clone, Copy, PartialEq, Eq, Structural, Debug)]
pub struct DslPipeline {
    /// Hash of the editor content the previous frame.
    pub last_seen_hash: u64,
    /// Hash of the editor content last fed through the parser.
    pub last_evaled_hash: u64,
    /// When (milliseconds) the debounce fires and the next parse runs.
    pub next_eval_at: Option<u64>,
}

/// The state after the edit-detection half of a frame.
pub open spec fn after_edit_check(s: DslPipeline, hash: u64, now: u64) -> DslPipeline {
    if hash != s.last_seen_hash {
        DslPipeline {
            last_seen_hash: hash,
            next_eval_at: Some((now + EVAL_DEBOUNCE_MS) as u64),
            ..s
        }
    } else {
        s
    }
}

/// Whether a frame in state `s` (after edit detection) parses `hash`
/// at time `now`.
pub open spec fn fires(s: DslPipeline, hash: u64, now: u64) -> bool {
    match s.next_eval_at {
        Some(deadline) => now >= deadline && hash != s.last_evaled_hash,
        None => false,
    }
}

/// One frame of the pipeline: the next state, and whether the content
/// is to be parsed now.
pub open spec fn step(s: DslPipeline, hash: u64, now: u64) -> (DslPipeline, bool) {
    let t = after_edit_check(s, hash, now);
    if fires(t, hash, now) {
        (DslPipeline { next_eval_at: None, last_evaled_hash: hash, ..t }, true)
    } else {
        (t, false)
    }
}

/// A frame can compute its deadline without overflow.
pub open spec fn can_step(s: DslPipeline, hash: u64, now: u64) -> bool {
    hash != s.last_seen_hash ==> now + EVAL_DEBOUNCE_MS <= u64::MAX
}

impl DslPipeline {
    pub fn new() -> (p: Self)
        ensures
            p.last_seen_hash == 0,
            p.last_evaled_hash == 0,
            p.next_eval_at is None,
    {
        DslPipeline { last_seen_hash: 0, last_evaled_hash: 0, next_eval_at: None }
    }

    /// Runs one frame: `hash` is the hash of the editor's current
    /// content and `now` the current time in milliseconds. Returns
    /// whether the content is to be parsed this frame.
    pub fn poll(&mut self, hash: u64, now: u64) -> (parse: bool)
        requires
            can_step(*old(self), hash, now),
        ensures
            (*final(self), parse) == step(*old(self), hash, now),
    {
        if hash != self.last_seen_hash {
            self.last_seen_hash = hash;
            self.next_eval_at = Some(now + EVAL_DEBOUNCE_MS);
        }
        match self.next_eval_at {
            Some(deadline) => {
                if now >= deadline && hash != self.last_evaled_hash {
                    self.next_eval_at = None;
                    self.last_evaled_hash = hash;
                    true
                } else {
                    false
                }
            },
            None => false,
        }
    }
}

/// Severity of a line in the Logger.
#[derive(Clone, Copy, PartialEq, Eq, Structural, Debug)]
pub enum LogLevel {
    Info,
    Warning,
}

/// A line for the Logger.
pub struct LogEntry {
    pub level: LogLevel,
    pub message: String,
}

pub open spec fn parse_report_of(parse_error: Option<Seq<char>>) -> (LogLevel, Seq<char>) {
    match parse_error {
        None => (LogLevel::Info, "Canvas: DSL parsed; scene updated."@),
        Some(err) => (LogLevel::Warning, "Canvas DSL parse error: "@ + err),
    }
}

/// What the Logger reports after a parse: the scene was updated, or the
/// parser's error text (`parse_error`) as a warning.
pub fn dsl_parse_report(parse_error: Option<&str>) -> (entry: LogEntry)
    ensures
        (entry.level, entry.message@) == parse_report_of(
            match parse_error {
                Some(e) => Some(e@),
                None => None,
            },
        ),
{
    match parse_error {
        None => LogEntry {
            level: LogLevel::Info,
            message: String::from_str("Canvas: DSL parsed; scene updated."),
        },
        Some(err) => LogEntry {
            level: LogLevel::Warning,
            message: String::from_str("Canvas DSL parse error: ").concat(err),
        },
    }
}

/// A successful parse is reported as information and a failed one as a
/// warning that ends with the parser's own error text, so distinct
/// errors are reported distinctly.
pub proof fn lemma_parse_report_carries_error(err: Seq<char>, other: Seq<char>)
    ensures
        parse_report_of(None).0 == LogLevel::Info,
        parse_report_of(Some(err)).0 == LogLevel::Warning,
        ({
            let m = parse_report_of(Some(err)).1;
            m.len() >= err.len() && m.subrange(m.len() - err.len(), m.len() as int) == err
        }),
        err != other ==> parse_report_of(Some(err)).1 != parse_report_of(Some(other)).1,
{
    let p = "Canvas DSL parse error: "@;
    let m = p + err;
    assert(m.subrange(m.len() - err.len(), m.len() as int) =~= err);
    if err != other {
        let n = p + other;
        if m == n {
            assert(err =~= m.subrange(p.len() as int, m.len() as int));
            assert(other =~= n.subrange(p.len() as int, n.len() as int));
        }
    }
}

/// An edit is never parsed in the frame that sees it: it schedules the
/// parse `EVAL_DEBOUNCE_MS` later.
pub proof fn lemma_edit_schedules_parse(s: DslPipeline, hash: u64, now: u64)
    requires
        hash != s.last_seen_hash,
        can_step(s, hash, now),
    ensures
        !step(s, hash, now).1,
        step(s, hash, now).0.last_seen_hash == hash,
        step(s, hash, now).0.next_eval_at == Some((now + EVAL_DEBOUNCE_MS) as u64),
        step(s, hash, now).0.last_evaled_hash == s.last_evaled_hash,
{
}

/// A parse happens only once a scheduled deadline has passed, and only
/// for content that differs from what was last evaluated.
pub proof fn lemma_parse_only_after_deadline(s: DslPipeline, hash: u64, now: u64)
    requires
        can_step(s, hash, now),
        step(s, hash, now).1,
    ensures
        hash != s.last_evaled_hash,
        hash == s.last_seen_hash,
        s.next_eval_at matches Some(deadline) && deadline <= now,
        step(s, hash, now).0.last_evaled_hash == hash,
        step(s, hash, now).0.next_eval_at is None,
{
}

/// Frames at the times `times` that all see the content hash `hash`:
/// the state after them and, frame by frame, whether the frame parsed.
pub open spec fn run(s: DslPipeline, hash: u64, times: Seq<u64>) -> (DslPipeline, Seq<bool>)
    decreases times.len(),
{
    if times.len() == 0 {
        (s, Seq::empty())
    } else {
        let (s1, parsed) = step(s, hash, times[0]);
        let (s2, rest) = run(s1, hash, times.drop_first());
        (s2, seq![parsed] + rest)
    }
}

/// Frames that keep seeing content that has no parse pending (it was
/// already seen, and no deadline is set or it is the content last
/// evaluated) never parse and leave the state as it is, however many
/// frames pass.
pub proof fn lemma_settled_content_never_reparsed(s: DslPipeline, hash: u64, times: Seq<u64>)
    requires
        s.last_seen_hash == hash,
        s.next_eval_at is None || s.last_evaled_hash == hash,
    ensures
        run(s, hash, times).0 == s,
        run(s, hash, times).1.len() == times.len(),
        forall|i: int| 0 <= i < times.len() ==> !#[trigger] run(s, hash, times).1[i],
    decreases times.len(),
{
    if times.len() > 0 {
        lemma_settled_content_never_reparsed(s, hash, times.drop_first());
        let rest = run(s, hash, times.drop_first()).1;
        assert forall|i: int| 0 <= i < times.len() implies !#[trigger] run(s, hash, times).1[i] by {
            if i > 0 {
                assert(run(s, hash, times).1[i] == rest[i - 1]);
            }
        }
    }
}

/// Content that has been parsed is not parsed again while it stays the
/// same, however many frames pass.
pub proof fn lemma_parsed_content_not_reparsed(
    s: DslPipeline,
    hash: u64,
    now: u64,
    later: Seq<u64>,
)
    requires
        step(s, hash, now).1,
    ensures
        run(step(s, hash, now).0, hash, later).0 == step(s, hash, now).0,
        forall|i: int| 0 <= i < later.len() ==> !#[trigger] run(step(s, hash, now).0, hash, later).1[i],
{
    lemma_settled_content_never_reparsed(step(s, hash, now).0, hash, later);
}

/// With a parse pending for the content seen, frames that keep seeing it
/// do not parse before the deadline, however many of them pass, and
/// parse exactly once: at the first frame at or after the deadline.
pub proof fn lemma_parse_fires_once_at_deadline(
    s: DslPipeline,
    hash: u64,
    deadline: u64,
    times: Seq<u64>,
)
    requires
        s.last_seen_hash == hash,
        s.next_eval_at == Some(deadline),
        hash != s.last_evaled_hash,
    ensures
        run(s, hash, times).1.len() == times.len(),
        forall|i: int|
            0 <= i < times.len() ==> (#[trigger] run(s, hash, times).1[i] <==> (times[i] >= deadline
                && forall|j: int| 0 <= j < i ==> times[j] < deadline)),
    decreases times.len(),
{
    if times.len() > 0 {
        let rest_times = times.drop_first();
        let (s1, p) = step(s, hash, times[0]);
        let out = run(s, hash, times).1;
        if times[0] < deadline {
            assert(s1 == s && !p);
            lemma_parse_fires_once_at_deadline(s, hash, deadline, rest_times);
            assert forall|i: int| 0 <= i < times.len() implies (#[trigger] out[i] <==> (times[i]
                >= deadline && forall|j: int| 0 <= j < i ==> times[j] < deadline)) by {
                if i > 0 {
                    assert(out[i] == run(s, hash, rest_times).1[i - 1]);
                    if times[i] >= deadline && forall|j: int| 0 <= j < i ==> times[j] < deadline {
                        assert forall|j: int| 0 <= j < i - 1 implies rest_times[j] < deadline by {
                            assert(rest_times[j] == times[j + 1]);
                        }
                    }
                    if out[i] {
                        assert forall|j: int| 0 <= j < i implies times[j] < deadline by {
                            if j > 0 {
                                assert(times[j] == rest_times[j - 1]);
                            }
                        }
                    }
                }
            }
        } else {
            assert(p);
            lemma_settled_content_never_reparsed(s1, hash, rest_times);
            assert forall|i: int| 0 <= i < times.len() implies (#[trigger] out[i] <==> (times[i]
                >= deadline && forall|j: int| 0 <= j < i ==> times[j] < deadline)) by {
                if i > 0 {
                    assert(out[i] == run(s1, hash, rest_times).1[i - 1]);
                    assert(!(times[0] < deadline));
                }
            }
        }
    }
}

/// Once the content settles, the parse fires: an edit seen at `now`,
/// still unchanged at a frame `EVAL_DEBOUNCE_MS` or more later, is
/// parsed then, unless it equals what was last evaluated.
pub proof fn lemma_settled_edit_is_parsed(s: DslPipeline, hash: u64, now: u64, later: u64)
    requires
        hash != s.last_seen_hash,
        hash != s.last_evaled_hash,
        can_step(s, hash, now),
        later >= now + EVAL_DEBOUNCE_MS,
    ensures
        can_step(step(s, hash, now).0, hash, later),
        step(step(s, hash, now).0, hash, later).1,
        step(step(s, hash, now).0, hash, later).0.last_evaled_hash == hash,
{
}

/// Frames that see the same editor content never re-parse it once it
/// has been evaluated: equal content hashes equally.
pub proof fn lemma_same_content_not_reparsed(
    s: DslPipeline,
    content: Seq<char>,
    now: u64,
    later: Seq<u64>,
)
    requires
        step(s, content_hash(content), now).1,
    ensures
        forall|i: int|
            0 <= i < later.len() ==> !#[trigger] run(
                step(s, content_hash(content), now).0,
                content_hash(content),
                later,
            ).1[i],
{
    lemma_parsed_content_not_reparsed(s, content_hash(content), now, later);
}

} // verus!
