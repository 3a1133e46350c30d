//! Getting the selected text: the native provider first, and where it has
//! nothing, a simulated copy whose result is awaited on the clipboard.
//!
//! The native provider reads the accessibility tree and changes nothing. The
//! fallback clears the clipboard and sends a copy key stroke, so it is taken
//! only after the native provider has failed or come back empty.

use crate::error::AppError;
use crate::flags::ShortcutHandlerGuard;
use vstd::prelude::*;

verus! {

/// The longest wait for the clipboard at start-up, in milliseconds.
pub const INITIAL_WAIT_MS: u64 = 1000;

/// The wait for the clipboard never gets shorter than this, in milliseconds.
pub const MIN_WAIT_MS: u64 = 200;

/// By how much the wait gets shorter after a capture, in milliseconds.
pub const WAIT_STEP_MS: u64 = 100;

/// The pause between two looks at the clipboard, in milliseconds.
pub const CHECK_INTERVAL_MS: u64 = 5;

/// The wait that follows a wait of `ms` milliseconds: unchanged after a
/// capture that timed out, and after one that succeeded shorter by one step
/// but not shorter than the minimum.
pub open spec fn next_wait(ms: int, captured: bool) -> int {
    if captured && ms > MIN_WAIT_MS {
        if ms - WAIT_STEP_MS > MIN_WAIT_MS {
            ms - WAIT_STEP_MS
        } else {
            MIN_WAIT_MS as int
        }
    } else {
        ms
    }
}

/// The wait after a run of captures, the first outcome first.
pub open spec fn wait_after(ms: int, outcomes: Seq<bool>) -> int
    decreases outcomes.len(),
{
    if outcomes.len() == 0 {
        ms
    } else {
        next_wait(wait_after(ms, outcomes.drop_last()), outcomes.last())
    }
}

/// The wait never grows, never falls below the minimum, and is left alone by
/// a capture that timed out: this holds of one capture and so of every
/// further one in a run.
pub proof fn lemma_wait_adapts(ms: int, outcomes: Seq<bool>, captured: bool)
    requires
        MIN_WAIT_MS <= ms,
    ensures
        MIN_WAIT_MS <= wait_after(ms, outcomes) <= ms,
        wait_after(ms, outcomes.push(captured)) <= wait_after(ms, outcomes),
        MIN_WAIT_MS <= wait_after(ms, outcomes.push(captured)),
        !captured ==> wait_after(ms, outcomes.push(captured)) == wait_after(ms, outcomes),
    decreases outcomes.len(),
{
    if outcomes.len() > 0 {
        lemma_wait_adapts(ms, outcomes.drop_last(), outcomes.last());
        assert(outcomes.drop_last().push(outcomes.last()) =~= outcomes);
    }
    assert(outcomes.push(captured).drop_last() =~= outcomes);
}

/// A run of successful captures brings the wait down to the minimum and
/// keeps it there.
pub proof fn lemma_wait_converges(ms: int, outcomes: Seq<bool>)
    requires
        MIN_WAIT_MS <= ms,
        forall|i: int| 0 <= i < outcomes.len() ==> outcomes[i],
        ms - MIN_WAIT_MS <= outcomes.len() * WAIT_STEP_MS,
    ensures
        wait_after(ms, outcomes) == MIN_WAIT_MS,
    decreases outcomes.len(),
{
    lemma_wait_steps(ms, outcomes);
}

/// After `n` successful captures the wait is `n` steps shorter, or at the
/// minimum.
proof fn lemma_wait_steps(ms: int, outcomes: Seq<bool>)
    requires
        MIN_WAIT_MS <= ms,
        forall|i: int| 0 <= i < outcomes.len() ==> outcomes[i],
    ensures
        wait_after(ms, outcomes) == (if ms - outcomes.len() * WAIT_STEP_MS > MIN_WAIT_MS {
            ms - outcomes.len() * WAIT_STEP_MS
        } else {
            MIN_WAIT_MS as int
        }),
    decreases outcomes.len(),
{
    if outcomes.len() > 0 {
        lemma_wait_steps(ms, outcomes.drop_last());
    }
}

/// The longest time to wait for the clipboard to change after a simulated
/// copy. It adapts to the fastest capture that still succeeds: each success
/// takes one step off, down to a minimum. It lives in memory only and starts
/// anew with every run of the program.
#[derive(Debug)]
pub struct WaitTime {
    millis: u64,
}

impl View for WaitTime {
    type V = int;

    closed spec fn view(&self) -> int {
        self.millis as int
    }
}

impl WaitTime {
    #[verifier::type_invariant]
    spec fn in_range(self) -> bool {
        MIN_WAIT_MS <= self.millis <= INITIAL_WAIT_MS
    }

    /// The wait at start-up.
    pub fn new() -> (w: WaitTime)
        ensures
            w@ == INITIAL_WAIT_MS,
    {
        WaitTime { millis: INITIAL_WAIT_MS }
    }

    /// The wait in milliseconds, which lies between the minimum and the
    /// initial wait.
    pub fn millis(&self) -> (ms: u64)
        ensures
            ms == self@,
            MIN_WAIT_MS <= ms <= INITIAL_WAIT_MS,
    {
        proof {
            use_type_invariant(self);
        }
        self.millis
    }

    /// How many times the clipboard is looked at before the capture gives
    /// up: once for every check interval that fits into the wait.
    pub fn max_attempts(&self) -> (n: u64)
        ensures
            n == self@ / (CHECK_INTERVAL_MS as int),
            40 <= n <= 200,
    {
        proof {
            use_type_invariant(self);
        }
        self.millis / CHECK_INTERVAL_MS
    }

    /// Adapts the wait to the outcome of a capture.
    pub fn adapt(&mut self, captured: bool)
        ensures
            final(self)@ == next_wait(old(self)@, captured),
            MIN_WAIT_MS <= final(self)@ <= old(self)@,
            !captured ==> final(self)@ == old(self)@,
    {
        proof {
            use_type_invariant(&*self);
        }
        if captured && self.millis > MIN_WAIT_MS {
            let shorter: u64 = self.millis - WAIT_STEP_MS;
            self.millis = if shorter > MIN_WAIT_MS {
                shorter
            } else {
                MIN_WAIT_MS
            };
        }
    }
}

/// What the caller of the clipboard fallback does next.
#[derive(Debug)]
pub enum PollAction {
    /// Wait for one check interval, read the text on the clipboard and hand
    /// it to [`FallbackCapture::on_read`].
    WaitAndRead,
    /// The capture is over, with this text. An empty text says that nothing
    /// was selected; it is no error.
    Finish(String),
}

/// The view of what an attempt to read the clipboard gave: the text, or
/// nothing where the clipboard could not be read.
pub open spec fn read_view(read: Option<String>) -> Seq<char> {
    match read {
        Some(text) => text@,
        None => Seq::<char>::empty(),
    }
}

/// What a look at the clipboard does to a capture that has `remaining`
/// looks left: the looks that are left afterwards, and the text that the
/// capture ends with, if it ends. Text on the clipboard ends it with that
/// text; the last look without text ends it empty.
pub open spec fn look(remaining: nat, read: Seq<char>) -> (nat, Option<Seq<char>>) {
    if read.len() > 0 {
        (0, Some(read))
    } else if remaining <= 1 {
        (0, Some(Seq::<char>::empty()))
    } else {
        ((remaining - 1) as nat, None)
    }
}

/// The text that a capture with `remaining` looks ends with, given what the
/// looks find, in order; `None` while it is still waiting.
pub open spec fn capture(remaining: nat, reads: Seq<Seq<char>>) -> Option<Seq<char>>
    decreases reads.len(),
{
    if reads.len() == 0 {
        None
    } else {
        match look(remaining, reads[0]) {
            (_, Some(text)) => Some(text),
            (left, None) => capture(left, reads.skip(1)),
        }
    }
}

/// A capture is over after as many looks as it has, at the latest, and it
/// ends with the first text that a look finds, or empty where none of its
/// looks finds any.
pub proof fn lemma_capture_ends(remaining: nat, reads: Seq<Seq<char>>)
    requires
        reads.len() >= remaining >= 1,
    ensures
        capture(remaining, reads) is Some,
        (forall|i: int| 0 <= i < remaining ==> (#[trigger] reads[i]).len() == 0) ==> capture(
            remaining,
            reads,
        ) == Some(Seq::<char>::empty()),
        forall|i: int|
            0 <= i < remaining && (#[trigger] reads[i]).len() > 0 && (forall|j: int|
                0 <= j < i ==> (#[trigger] reads[j]).len() == 0) ==> capture(remaining, reads)
                == Some(reads[i]),
    decreases reads.len(),
{
    if reads[0].len() == 0 && remaining > 1 {
        let rest = reads.skip(1);
        let left = (remaining - 1) as nat;
        lemma_capture_ends(left, rest);
        assert forall|i: int|
            0 <= i < remaining && (#[trigger] reads[i]).len() > 0 && (forall|j: int|
                0 <= j < i ==> (#[trigger] reads[j]).len() == 0) implies capture(remaining, reads)
            == Some(reads[i]) by {
            assert(rest[i - 1] == reads[i]);
            assert forall|j: int| 0 <= j < i - 1 implies (#[trigger] rest[j]).len() == 0 by {
                assert(rest[j] == reads[j + 1]);
            }
        }
        if forall|i: int| 0 <= i < remaining ==> (#[trigger] reads[i]).len() == 0 {
            assert forall|i: int| 0 <= i < left implies (#[trigger] rest[i]).len() == 0 by {
                assert(rest[i] == reads[i + 1]);
            }
        }
    }
}

/// A capture through the clipboard, after the clipboard was cleared and the
/// copy key stroke was sent: it looks at the clipboard once per check
/// interval until text appears or the attempts are used up.
#[derive(Debug)]
pub struct FallbackCapture {
    remaining: u64,
}

impl View for FallbackCapture {
    type V = nat;

    /// The number of looks at the clipboard that are left.
    closed spec fn view(&self) -> nat {
        self.remaining as nat
    }
}

impl FallbackCapture {
    /// Begins a capture that may look at the clipboard as often as `wait`
    /// allows, and says what to do first. The copy key stroke is simulated
    /// input, so the capture is begun by the holder of a suspension.
    pub fn start(guard: &ShortcutHandlerGuard, wait: &WaitTime) -> (r: (FallbackCapture, PollAction))
        ensures
            r.0@ == wait@ / (CHECK_INTERVAL_MS as int),
            r.1 is WaitAndRead,
    {
        (FallbackCapture { remaining: wait.max_attempts() }, PollAction::WaitAndRead)
    }

    /// Takes what a look at the clipboard gave and says what to do next.
    ///
    /// Text on the clipboard ends the capture with that text, and the wait
    /// adapts to the success. No text, or a clipboard that could not be read,
    /// uses up one attempt; with the last one the capture ends empty and the
    /// wait is left as it was.
    pub fn on_read(&mut self, read: Option<String>, wait: &mut WaitTime) -> (action: PollAction)
        ensures
            final(self)@ == look(old(self)@, read_view(read)).0,
            match action {
                PollAction::Finish(text) => {
                    &&& look(old(self)@, read_view(read)).1 == Some(text@)
                    &&& final(wait)@ == next_wait(old(wait)@, text@.len() > 0)
                },
                PollAction::WaitAndRead => {
                    &&& look(old(self)@, read_view(read)).1 is None
                    &&& final(wait)@ == old(wait)@
                },
            },
    {
        let text = match read {
            Some(text) => text,
            None => String::new(),
        };
        if !text.as_str().is_empty() {
            self.remaining = 0;
            wait.adapt(true);
            PollAction::Finish(text)
        } else if self.remaining <= 1 {
            self.remaining = 0;
            PollAction::Finish(text)
        } else {
            self.remaining = self.remaining - 1;
            PollAction::WaitAndRead
        }
    }
}

/// What the selection façade does with the answer of the native provider.
#[derive(Debug)]
pub enum Source {
    /// The native provider found text: it is the selection.
    Native(String),
    /// The native provider failed or found nothing: the clipboard fallback
    /// is to be run.
    Fallback,
}

/// Decides between the answer of the native provider and the clipboard
/// fallback. The native answer is taken where it is a text that is not
/// empty; an error of the native provider is a reason to fall back, never a
/// failure of the whole. The selection is got by the holder of a suspension,
/// so that what the fallback simulates is not taken for input of the user.
pub fn get_selection(guard: &ShortcutHandlerGuard, native: Result<String, AppError>) -> (source:
    Source)
    ensures
        match source {
            Source::Native(text) => native matches Ok(t) && t@ == text@ && text@.len() > 0,
            Source::Fallback => native is Err || native->Ok_0@.len() == 0,
        },
{
    match native {
        Ok(text) => {
            if !text.as_str().is_empty() {
                Source::Native(text)
            } else {
                Source::Fallback
            }
        },
        Err(_) => Source::Fallback,
    }
}

} // verus!
