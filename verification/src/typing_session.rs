//! The stateful core of one test attempt: the passage, the accumulating input
//! buffer, timing anchors, the mistake count, and the sampled speed history.
//!
//! Monotonic time reaches the session as milliseconds supplied by the caller;
//! the session never reads a clock for elapsed-time arithmetic.

use vstd::prelude::*;

use crate::clock;
use crate::metrics;
use crate::models::TestResult;

verus! {

/// The abstract state of a session, as the contracts speak of it.
pub ghost struct SessionView {
    /// The passage to reproduce.
    pub quote: Seq<char>,
    /// What has been typed so far.
    pub typed: Seq<char>,
    /// When the first character was accepted, if it was.
    pub started_at: Option<u64>,
    /// How many typed characters did not match the expected one.
    pub mistakes: int,
    /// Whether the passage has been completed.
    pub is_complete: bool,
    /// When completion fired, if it did.
    pub completed_at: Option<u64>,
    /// Sampled `(time in ms, speed in centi-WPM)` readings.
    pub wpm_history: Seq<(u64, u64)>,
    /// Speed frozen at completion, in centi-WPM.
    pub final_wpm: int,
    /// Accuracy frozen at completion, in centi-percent.
    pub final_accuracy: int,
    /// Elapsed time frozen at completion, in milliseconds.
    pub final_duration: int,
}

/// Milliseconds from the session start to `now_ms`; zero before the start or
/// if the clock reads earlier than the recorded start.
pub open spec fn elapsed_of(started_at: Option<u64>, now_ms: u64) -> int {
    match started_at {
        Some(t) => if now_ms >= t {
            now_ms - t
        } else {
            0
        },
        None => 0,
    }
}

/// The structural completion test: the buffer is as long as the passage and
/// its last character is right. Only ever reached with a non-empty buffer.
pub open spec fn completion_reached(quote: Seq<char>, typed: Seq<char>) -> bool {
    typed.len() == quote.len() && typed.len() > 0 && typed.last() == quote.last()
}

/// One test attempt in progress or completed.
#[derive(Debug, Clone)]
pub struct TypingSession {
    quote: Vec<char>,
    typed: Vec<char>,
    started_at: Option<u64>,
    mistakes: usize,
    is_complete: bool,
    completed_at: Option<u64>,
    wpm_history: Vec<(u64, u64)>,
    final_wpm: u64,
    final_accuracy: u64,
    final_duration: u64,
}

impl View for TypingSession {
    type V = SessionView;

    closed spec fn view(&self) -> SessionView {
        SessionView {
            quote: self.quote@,
            typed: self.typed@,
            started_at: self.started_at,
            mistakes: self.mistakes as int,
            is_complete: self.is_complete,
            completed_at: self.completed_at,
            wpm_history: self.wpm_history@,
            final_wpm: self.final_wpm as int,
            final_accuracy: self.final_accuracy as int,
            final_duration: self.final_duration as int,
        }
    }
}

/// The state a session starts in, over a given passage.
pub open spec fn fresh_session(quote: Seq<char>) -> SessionView {
    SessionView {
        quote: quote,
        typed: Seq::empty(),
        started_at: None,
        mistakes: 0,
        is_complete: false,
        completed_at: None,
        wpm_history: Seq::empty(),
        final_wpm: 0,
        final_accuracy: 10000,
        final_duration: 0,
    }
}

/// How one `type_char` call relates the state after, `new`, to the state
/// before, `prev`, when the session was not yet complete. The buffer grows by
/// exactly the typed character; the mistake count grows exactly when the
/// character differs from the expected one; completion fires exactly when the
/// structural test passes on the grown buffer, and freezes accuracy, speed
/// and duration.
pub open spec fn type_char_step(
    prev: SessionView,
    new: SessionView,
    c: char,
    now_ms: u64,
    completed: bool,
) -> bool {
    let started = if prev.started_at is Some {
        prev.started_at
    } else {
        Some(now_ms)
    };
    let grown = prev.typed.push(c);
    let hit = prev.typed.len() < prev.quote.len() && prev.quote[prev.typed.len() as int] == c;
    let done = completion_reached(prev.quote, grown);
    let elapsed = elapsed_of(started, now_ms);
    &&& completed == done
    &&& new.quote == prev.quote
    &&& new.typed == grown
    &&& new.started_at == started
    &&& new.mistakes == prev.mistakes + (if hit {
        0int
    } else {
        1int
    })
    &&& new.is_complete == done
    &&& new.wpm_history == prev.wpm_history
    &&& (if done {
        &&& new.completed_at == Some(now_ms)
        &&& new.final_accuracy == metrics::accuracy_centi(
            metrics::count_matching(grown, prev.quote) as int,
            grown.len() as int,
        )
        &&& new.final_wpm == metrics::sat_u64(metrics::wpm_centi(grown.len() as int, elapsed))
        &&& new.final_duration == elapsed
    } else {
        &&& new.completed_at == prev.completed_at
        &&& new.final_accuracy == prev.final_accuracy
        &&& new.final_wpm == prev.final_wpm
        &&& new.final_duration == prev.final_duration
    })
}

/// Where a backward word-delete stops: scanning from the end of the buffer,
/// alphanumeric characters are shed until the character before the scan
/// position is not alphanumeric (that character itself is kept).
pub open spec fn delete_word_boundary(typed: Seq<char>) -> int
    decreases typed.len(),
{
    if typed.len() == 0 {
        0
    } else if is_word_char(typed.last()) {
        delete_word_boundary(typed.drop_last())
    } else {
        typed.len() as int
    }
}

/// An ASCII letter or digit.
pub open spec fn is_word_char(c: char) -> bool {
    ('a' <= c && c <= 'z') || ('A' <= c && c <= 'Z') || ('0' <= c && c <= '9')
}

/// Whether the backward word-delete scan keeps going at `start`: there is a
/// preceding character and it is alphanumeric.
fn word_scan_continues(typed: &Vec<char>, start: usize) -> (r: bool)
    requires
        start <= typed@.len(),
    ensures
        r == (start > 0 && is_word_char(typed@[start - 1])),
{
    if start == 0 {
        return false;
    }
    let ch = typed[start - 1];
    ('a' <= ch && ch <= 'z') || ('A' <= ch && ch <= 'Z') || ('0' <= ch && ch <= '9')
}

impl TypingSession {
    /// Internal consistency of a session value: a completed session passed
    /// the structural test, has its timing anchors, and froze a well-formed
    /// accuracy.
    pub open spec fn wf(self) -> bool {
        &&& self@.is_complete ==> {
            &&& completion_reached(self@.quote, self@.typed)
            &&& self@.started_at is Some
            &&& self@.completed_at is Some
        }
        &&& !self@.is_complete ==> self@.completed_at is None
        &&& 0 <= self@.final_accuracy <= 10000
    }

    pub fn new(quote: Vec<char>) -> (r: Self)
        ensures
            r.wf(),
            r@ == fresh_session(quote@),
    {
        Self {
            quote,
            typed: Vec::new(),
            started_at: None,
            mistakes: 0,
            is_complete: false,
            completed_at: None,
            wpm_history: Vec::new(),
            final_wpm: 0,
            final_accuracy: 10000,
            final_duration: 0,
        }
    }

    /// Record the start of the test at `now_ms`, only if it has not started;
    /// calling again changes nothing.
    pub fn start(&mut self, now_ms: u64)
        requires
            old(self).wf(),
        ensures
            final(self).wf(),
            old(self)@.started_at is Some ==> final(self)@ == old(self)@,
            old(self)@.started_at is None ==> final(self)@ == (SessionView {
                started_at: Some(now_ms),
                ..old(self)@
            }),
    {
        if self.started_at.is_none() {
            self.started_at = Some(now_ms);
        }
    }

    /// Accept one typed character at `now_ms` and report whether this call
    /// completed the test. A completed session ignores the call.
    pub fn type_char(&mut self, c: char, now_ms: u64) -> (completed: bool)
        requires
            old(self).wf(),
            !old(self)@.is_complete ==> old(self)@.mistakes < usize::MAX,
        ensures
            final(self).wf(),
            old(self)@.is_complete ==> !completed && final(self)@ == old(self)@,
            !old(self)@.is_complete ==> type_char_step(
                old(self)@,
                final(self)@,
                c,
                now_ms,
                completed,
            ),
    {
        if self.is_complete {
            return false;
        }

        self.start(now_ms);

        let pos = self.typed.len();
        let hit = pos < self.quote.len() && self.quote[pos] == c;
        if !hit {
            self.mistakes = self.mistakes + 1;
        }

        self.typed.push(c);

        if self.typed.len() == self.quote.len() {
            let last_typed = self.typed[self.typed.len() - 1];
            let last_quote = self.quote[self.quote.len() - 1];
            if last_typed == last_quote {
                self.complete(now_ms);
                return true;
            }
        }

        false
    }

    /// Freeze the session: record the completion time, the accuracy over the
    /// whole buffer, and the elapsed duration and speed.
    fn complete(&mut self, now_ms: u64)
        requires
            old(self).wf(),
            !old(self)@.is_complete,
            old(self)@.started_at is Some,
            completion_reached(old(self)@.quote, old(self)@.typed),
        ensures
            final(self).wf(),
            final(self)@ == (SessionView {
                is_complete: true,
                completed_at: Some(now_ms),
                final_accuracy: metrics::accuracy_centi(
                    metrics::count_matching(old(self)@.typed, old(self)@.quote) as int,
                    old(self)@.typed.len() as int,
                ),
                final_wpm: metrics::sat_u64(
                    metrics::wpm_centi(
                        old(self)@.typed.len() as int,
                        elapsed_of(old(self)@.started_at, now_ms),
                    ),
                ),
                final_duration: elapsed_of(old(self)@.started_at, now_ms),
                ..old(self)@
            }),
    {
        self.is_complete = true;
        self.completed_at = Some(now_ms);

        let correct = metrics::count_correct_chars(&self.typed, &self.quote);
        proof {
            metrics::lemma_count_matching_le_len(self.typed@, self.quote@);
        }
        self.final_accuracy = metrics::calculate_accuracy(correct, self.typed.len());

        let elapsed = self.elapsed_millis(now_ms);
        self.final_duration = elapsed;
        self.final_wpm = metrics::calculate_wpm(self.typed.len(), elapsed);
    }

    /// Milliseconds since the start, zero before the start or if the clock
    /// reads earlier than the recorded start.
    fn elapsed_millis(&self, now_ms: u64) -> (r: u64)
        ensures
            r == elapsed_of(self@.started_at, now_ms),
    {
        match self.started_at {
            Some(t) => if now_ms >= t {
                now_ms - t
            } else {
                0
            },
            None => 0,
        }
    }

    /// Remove the last buffered character; completed sessions and empty
    /// buffers are left unchanged.
    pub fn backspace(&mut self)
        requires
            old(self).wf(),
        ensures
            final(self).wf(),
            old(self)@.is_complete ==> final(self)@ == old(self)@,
            !old(self)@.is_complete ==> final(self)@ == (SessionView {
                typed: if old(self)@.typed.len() > 0 {
                    old(self)@.typed.drop_last()
                } else {
                    old(self)@.typed
                },
                ..old(self)@
            }),
    {
        if !self.is_complete {
            self.typed.pop();
            proof {
                if old(self)@.typed.len() > 0 {
                    assert(self.typed@ =~= old(self)@.typed.drop_last());
                } else {
                    assert(self.typed@ =~= old(self)@.typed);
                }
            }
        }
    }

    /// Delete backward to the start of the current word: alphanumeric
    /// characters are shed from the end of the buffer up to, but not
    /// including, the first other character. A completed session is left
    /// unchanged.
    pub fn delete_word(&mut self)
        requires
            old(self).wf(),
        ensures
            final(self).wf(),
            old(self)@.is_complete ==> final(self)@ == old(self)@,
            !old(self)@.is_complete ==> final(self)@ == (SessionView {
                typed: old(self)@.typed.take(delete_word_boundary(old(self)@.typed)),
                ..old(self)@
            }),
    {
        if self.is_complete {
            return ;
        }

        let ghost whole: Seq<char> = self.typed@;
        let mut start = self.typed.len();
        proof {
            assert(whole.take(whole.len() as int) =~= whole);
        }

        while word_scan_continues(&self.typed, start)
            invariant
                start <= whole.len(),
                self@.typed == whole,
                delete_word_boundary(whole) == delete_word_boundary(whole.take(start as int)),
                self.wf(),
            decreases start,
        {
            proof {
                assert(whole.take(start as int).last() == whole[start - 1]);
                assert(whole.take(start as int).drop_last() =~= whole.take(start - 1));
            }
            start = start - 1;
        }

        proof {
            if start > 0 {
                assert(whole.take(start as int).last() == whole[start - 1]);
                assert(!is_word_char(whole[start - 1]));
                assert(delete_word_boundary(whole.take(start as int)) == start);
            } else {
                assert(whole.take(0).len() == 0);
            }
        }

        self.typed.truncate(start);
        proof {
            assert(self.typed@ =~= whole.take(delete_word_boundary(whole)));
        }
    }

    /// Sample the instantaneous speed at `now_ms` into the history, if the
    /// test is running and the reading is positive. Intended to be called on
    /// a fixed cadence by the driving loop.
    pub fn update_metrics(&mut self, now_ms: u64)
        requires
            old(self).wf(),
        ensures
            final(self).wf(),
            old(self)@.is_complete || old(self)@.started_at is None ==> final(self)@ == old(
                self,
            )@,
            !old(self)@.is_complete && old(self)@.started_at is Some ==> {
                let w = metrics::sat_u64(
                    metrics::wpm_centi(
                        old(self)@.typed.len() as int,
                        elapsed_of(old(self)@.started_at, now_ms),
                    ),
                );
                final(self)@ == (if w > 0 {
                    SessionView {
                        wpm_history: old(self)@.wpm_history.push((now_ms, w as u64)),
                        ..old(self)@
                    }
                } else {
                    old(self)@
                })
            },
    {
        if self.is_complete {
            return ;
        }

        if self.started_at.is_some() {
            let elapsed = self.elapsed_millis(now_ms);
            let wpm = metrics::calculate_wpm(self.typed.len(), elapsed);
            if wpm > 0 {
                self.wpm_history.push((now_ms, wpm));
            }
        }
    }

    /// Replace the passage and clear all progress: the session is as fresh
    /// over the new passage, so it is not complete and reads a zero speed at
    /// every instant.
    pub fn reset(&mut self, new_quote: Vec<char>)
        ensures
            final(self).wf(),
            final(self)@ == fresh_session(new_quote@),
            !final(self)@.is_complete,
            forall|now_ms: u64| final(self).wpm_spec(now_ms) == 0,
    {
        self.quote = new_quote;
        self.typed.clear();
        self.started_at = None;
        self.mistakes = 0;
        self.is_complete = false;
        self.completed_at = None;
        self.wpm_history.clear();
        self.final_wpm = 0;
        self.final_accuracy = 10000;
        self.final_duration = 0;
    }

    /// Clear all progress but keep the passage, with the same guarantees as
    /// [`Self::reset`].
    pub fn restart(&mut self)
        ensures
            final(self).wf(),
            final(self)@ == fresh_session(old(self)@.quote),
            !final(self)@.is_complete,
            forall|now_ms: u64| final(self).wpm_spec(now_ms) == 0,
    {
        self.typed.clear();
        self.started_at = None;
        self.mistakes = 0;
        self.is_complete = false;
        self.completed_at = None;
        self.wpm_history.clear();
        self.final_wpm = 0;
        self.final_accuracy = 10000;
        self.final_duration = 0;
    }

    /// The passage being typed.
    pub fn quote(&self) -> (r: &Vec<char>)
        ensures
            r@ == self@.quote,
    {
        &self.quote
    }

    /// The buffer typed so far.
    pub fn typed(&self) -> (r: &Vec<char>)
        ensures
            r@ == self@.typed,
    {
        &self.typed
    }

    pub fn is_complete(&self) -> (r: bool)
        ensures
            r == self@.is_complete,
    {
        self.is_complete
    }

    pub fn mistakes(&self) -> (r: usize)
        ensures
            r == self@.mistakes,
    {
        self.mistakes
    }

    /// What the speed accessor reads at `now_ms`: the frozen speed once
    /// complete, a live reading once started, zero before the start.
    pub open spec fn wpm_spec(self, now_ms: u64) -> int {
        if self@.is_complete {
            self@.final_wpm
        } else if self@.started_at is Some {
            metrics::sat_u64(
                metrics::wpm_centi(self@.typed.len() as int, elapsed_of(self@.started_at, now_ms)),
            )
        } else {
            0
        }
    }

    /// What the raw-speed accessor reads at `now_ms`: a live reading whenever
    /// the session has started, frozen by nothing.
    pub open spec fn raw_wpm_spec(self, now_ms: u64) -> int {
        if self@.started_at is Some {
            metrics::sat_u64(
                metrics::wpm_centi(self@.typed.len() as int, elapsed_of(self@.started_at, now_ms)),
            )
        } else {
            0
        }
    }

    /// What the accuracy accessor reads: the frozen accuracy once complete,
    /// else the share of matching positions in the buffer (an empty buffer
    /// counting as one attempted position).
    pub open spec fn accuracy_spec(self) -> int {
        if self@.is_complete {
            self@.final_accuracy
        } else {
            metrics::accuracy_centi(
                metrics::count_matching(self@.typed, self@.quote) as int,
                if self@.typed.len() == 0 {
                    1
                } else {
                    self@.typed.len() as int
                },
            )
        }
    }

    /// What the duration accessor reads at `now_ms`: frozen once complete,
    /// live once started, zero before the start.
    pub open spec fn duration_spec(self, now_ms: u64) -> int {
        if self@.is_complete {
            self@.final_duration
        } else {
            elapsed_of(self@.started_at, now_ms)
        }
    }

    /// Current speed in centi-WPM, given the monotonic time in milliseconds.
    pub fn wpm(&self, now_ms: u64) -> (r: u64)
        ensures
            r == self.wpm_spec(now_ms),
    {
        if self.is_complete {
            self.final_wpm
        } else if self.started_at.is_some() {
            let elapsed = self.elapsed_millis(now_ms);
            metrics::calculate_wpm(self.typed.len(), elapsed)
        } else {
            0
        }
    }

    /// Current raw speed in centi-WPM, given the monotonic time in
    /// milliseconds.
    pub fn raw_wpm(&self, now_ms: u64) -> (r: u64)
        ensures
            r == self.raw_wpm_spec(now_ms),
    {
        if self.started_at.is_some() {
            let elapsed = self.elapsed_millis(now_ms);
            metrics::calculate_raw_wpm(self.typed.len(), elapsed)
        } else {
            0
        }
    }

    /// Current accuracy in centi-percent, never above a full hundred percent.
    pub fn accuracy(&self) -> (r: u64)
        requires
            self.wf(),
        ensures
            r == self.accuracy_spec(),
            r <= 10000,
    {
        if self.is_complete {
            self.final_accuracy
        } else {
            let correct = metrics::count_correct_chars(&self.typed, &self.quote);
            proof {
                metrics::lemma_count_matching_le_len(self.typed@, self.quote@);
            }
            let attempted = if self.typed.len() == 0 {
                1
            } else {
                self.typed.len()
            };
            metrics::calculate_accuracy(correct, attempted)
        }
    }

    /// Consistency of the sampled speed history, in centi-percent, never
    /// above a full hundred percent.
    pub fn consistency(&self) -> (r: u64)
        ensures
            r <= 10000,
            metrics::consistency_fits(metrics::speeds_of(self@.wpm_history)) ==> r
                == metrics::consistency_centi(metrics::speeds_of(self@.wpm_history)),
    {
        metrics::calculate_consistency(&self.wpm_history)
    }

    /// Elapsed test time in milliseconds: frozen once complete, live once
    /// started, zero before the start.
    pub fn duration(&self, now_ms: u64) -> (r: u64)
        ensures
            r == self.duration_spec(now_ms),
    {
        if self.is_complete {
            self.final_duration
        } else {
            self.elapsed_millis(now_ms)
        }
    }

    /// The record of this test once it is complete, timestamped from the wall
    /// clock; `None` while the test is still running.
    pub fn final_result(&self, now_ms: u64) -> (r: Option<TestResult>)
        requires
            self.wf(),
        ensures
            self@.is_complete <==> r is Some,
            r matches Some(tr) ==> {
                &&& tr.id is None
                &&& tr.mode@ == "medium"@
                &&& tr.wpm == self@.final_wpm
                &&& tr.raw_wpm == self.raw_wpm_spec(now_ms)
                &&& tr.accuracy == self@.final_accuracy
                &&& tr.consistency <= 10000
                &&& metrics::consistency_fits(metrics::speeds_of(self@.wpm_history))
                    ==> tr.consistency == metrics::consistency_centi(
                    metrics::speeds_of(self@.wpm_history),
                )
                &&& tr.quote_length == self@.quote.len() as i64
                &&& tr.duration_seconds == self@.final_duration / 1000
            },
    {
        if !self.is_complete {
            return None;
        }

        Some(
            TestResult {
                id: None,
                timestamp: clock::now_unix_millis(),
                mode: "medium".to_owned(),
                wpm: self.final_wpm,
                raw_wpm: self.raw_wpm(now_ms),
                accuracy: self.final_accuracy,
                consistency: self.consistency(),
                quote_length: self.quote.len() as i64,
                duration_seconds: (self.final_duration / 1000) as i64,
            },
        )
    }
}

/// Once a session is complete, the speed, accuracy and duration accessors
/// read the frozen values, whatever instant the clock supplies.
pub proof fn lemma_frozen_after_completion(s: TypingSession, now_a: u64, now_b: u64)
    requires
        s.wf(),
        s@.is_complete,
    ensures
        s.wpm_spec(now_a) == s@.final_wpm,
        s.wpm_spec(now_a) == s.wpm_spec(now_b),
        s.accuracy_spec() == s@.final_accuracy,
        s.duration_spec(now_a) == s@.final_duration,
        s.duration_spec(now_a) == s.duration_spec(now_b),
{
}

} // verus!
