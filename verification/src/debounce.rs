//! Debouncing of one digital input line.
//!
//! The line is wired active-low: a low raw level means the button is
//! physically held down. A poll samples the line once; if the sample
//! disagrees with the confirmed state, the caller waits out the settle
//! window and re-samples, and the re-sample alone decides whether the
//! transition is confirmed or was noise.

use vstd::prelude::*;

verus! {

/// Classification of one poll of a debounced input: a confirmed press, a
/// confirmed release, or no confirmed change.
#[derive(Copy, Clone, PartialEq, Eq, Debug, Structural)]
pub enum Event {
    Pressed,
    Released,
    Nothing,
}

/// Milliseconds a candidate transition must hold before the re-sample that
/// confirms it.
pub const SETTLE_MS: u32 = 30;

/// The confirmed state after one poll step: on a candidate transition the
/// state follows the settle re-sample; with no edge it is unchanged.
pub open spec fn next_state(stable: bool, raw_low: bool, settled_low: bool) -> bool {
    if stable == raw_low {
        stable
    } else {
        settled_low
    }
}

/// The event one poll step emits. `stable` is the confirmed press state
/// before the step, `raw_low` the first raw sample (low = pressed), and
/// `settled_low` the re-sample taken after the settle window.
pub open spec fn poll_event(stable: bool, raw_low: bool, settled_low: bool) -> Event {
    if !stable && raw_low {
        if settled_low {
            Event::Pressed
        } else {
            Event::Nothing
        }
    } else if stable && !raw_low {
        if !settled_low {
            Event::Released
        } else {
            Event::Nothing
        }
    } else {
        Event::Nothing
    }
}

/// One debounced push-button input.
pub struct Button {
    /// Last confirmed (debounced) press state. Starts out "not pressed":
    /// the line is taken to be idle (high) at start-up.
    pressed: bool,
}

impl Button {
    /// A fresh debounced input, bound to one physical pin for the process
    /// lifetime; the line is assumed idle at start-up.
    pub fn new() -> (b: Button)
        ensures
            !b.stable_pressed(),
    {
        Button { pressed: false }
    }

    /// The confirmed press state, as of the last confirmed transition.
    pub closed spec fn stable_pressed(self) -> bool {
        self.pressed
    }

    /// The confirmed press state, readable at run time.
    pub fn is_pressed(&self) -> (r: bool)
        ensures
            r == self.stable_pressed(),
    {
        self.pressed
    }

    /// Overwrite the confirmed state with a fresh raw sample (low =
    /// pressed). `poll` calls this with the settle re-sample.
    pub fn check(&mut self, raw_low: bool)
        ensures
            final(self).stable_pressed() == raw_low,
    {
        self.pressed = raw_low;
    }

    /// Whether a raw sample disagrees with the confirmed state, so that a
    /// poll must wait out the settle window and re-sample before deciding.
    pub fn needs_settle(&self, raw_low: bool) -> (b: bool)
        ensures
            b == (self.stable_pressed() != raw_low),
    {
        self.pressed != raw_low
    }

    /// Classify one poll. `raw_low` is the raw sample taken now and
    /// `settled_low` the re-sample taken after the settle window; the
    /// re-sample is consulted only when `raw_low` disagrees with the
    /// confirmed state (`needs_settle`), so a caller that saw no edge may
    /// pass the single sample twice.
    pub fn poll(&mut self, raw_low: bool, settled_low: bool) -> (e: Event)
        ensures
            final(self).stable_pressed() == next_state(
                old(self).stable_pressed(),
                raw_low,
                settled_low,
            ),
            e == poll_event(old(self).stable_pressed(), raw_low, settled_low),
            (e == Event::Pressed) <==> (!old(self).stable_pressed() && raw_low && settled_low),
            (e == Event::Released) <==> (old(self).stable_pressed() && !raw_low && !settled_low),
            e == Event::Pressed ==> final(self).stable_pressed(),
            e == Event::Released ==> !final(self).stable_pressed(),
    {
        let pressed_now = raw_low;
        if !self.pressed && pressed_now {
            self.check(settled_low);
            if settled_low {
                Event::Pressed
            } else {
                Event::Nothing
            }
        } else if self.pressed && !pressed_now {
            self.check(settled_low);
            if !settled_low {
                Event::Released
            } else {
                Event::Nothing
            }
        } else {
            Event::Nothing
        }
    }
}

/// The confirmed state after polling through a whole run of samples. Each
/// sample pairs the first raw read of a poll with the settle re-sample the
/// poll would use (both low = pressed).
pub open spec fn run_state(init: bool, samples: Seq<(bool, bool)>) -> bool
    decreases samples.len(),
{
    if samples.len() == 0 {
        init
    } else {
        next_state(
            run_state(init, samples.drop_last()),
            samples.last().0,
            samples.last().1,
        )
    }
}

/// The event emitted by the poll that consumes `samples[i]`, starting from
/// confirmed state `init`.
pub open spec fn event_at(init: bool, samples: Seq<(bool, bool)>, i: int) -> Event {
    poll_event(run_state(init, samples.take(i)), samples[i].0, samples[i].1)
}

/// Unrolls `run_state` one poll at a time.
proof fn lemma_run_state_step(init: bool, samples: Seq<(bool, bool)>, i: int)
    requires
        0 <= i < samples.len(),
    ensures
        run_state(init, samples.take(i + 1)) == next_state(
            run_state(init, samples.take(i)),
            samples[i].0,
            samples[i].1,
        ),
{
    assert(samples.take(i + 1).drop_last() =~= samples.take(i));
    assert(samples.take(i + 1).last() == samples[i]);
}

/// Over any run of samples, a poll emits `Pressed` exactly when the
/// confirmed state going into it was "not pressed" and the line read
/// pressed both at the first sample and at the settle re-sample.
pub proof fn lemma_pressed_characterized(init: bool, samples: Seq<(bool, bool)>, i: int)
    requires
        0 <= i < samples.len(),
    ensures
        (event_at(init, samples, i) == Event::Pressed) <==> (!run_state(init, samples.take(i))
            && samples[i].0 && samples[i].1),
{
}

/// Symmetric law for `Released`: it is emitted exactly when the confirmed
/// state going into the poll was "pressed" and the line read released at
/// both samples.
pub proof fn lemma_released_characterized(init: bool, samples: Seq<(bool, bool)>, i: int)
    requires
        0 <= i < samples.len(),
    ensures
        (event_at(init, samples, i) == Event::Released) <==> (run_state(init, samples.take(i))
            && !samples[i].0 && !samples[i].1),
{
}

/// If the confirmed state is "pressed" at poll `lo` and "not pressed" at
/// poll `hi`, some poll in between emitted `Released`.
proof fn lemma_state_fall_emits_release(init: bool, samples: Seq<(bool, bool)>, lo: int, hi: int)
    requires
        0 <= lo <= hi <= samples.len(),
        run_state(init, samples.take(lo)),
        !run_state(init, samples.take(hi)),
    ensures
        exists|k: int| lo <= k < hi && event_at(init, samples, k) == Event::Released,
    decreases hi - lo,
{
    if hi == lo {
        assert(false);
    } else if run_state(init, samples.take(hi - 1)) {
        lemma_run_state_step(init, samples, hi - 1);
        assert(event_at(init, samples, hi - 1) == Event::Released);
    } else {
        lemma_state_fall_emits_release(init, samples, lo, hi - 1);
        let k = choose|k: int| lo <= k < hi - 1 && event_at(init, samples, k) == Event::Released;
        assert(lo <= k < hi && event_at(init, samples, k) == Event::Released);
    }
}

/// A held button never fires twice: between any two `Pressed` events of one
/// run there is a confirmed `Released`.
pub proof fn lemma_no_double_press(init: bool, samples: Seq<(bool, bool)>, i: int, j: int)
    requires
        0 <= i < j < samples.len(),
        event_at(init, samples, i) == Event::Pressed,
        event_at(init, samples, j) == Event::Pressed,
    ensures
        exists|k: int| i < k < j && event_at(init, samples, k) == Event::Released,
{
    lemma_run_state_step(init, samples, i);
    assert(run_state(init, samples.take(i + 1)));
    assert(!run_state(init, samples.take(j)));
    lemma_state_fall_emits_release(init, samples, i + 1, j);
    let k = choose|k: int| i + 1 <= k < j && event_at(init, samples, k) == Event::Released;
    assert(i < k < j && event_at(init, samples, k) == Event::Released);
}

/// The raw level a poll last saw: the settle re-sample when an edge made it
/// settle, the single raw sample otherwise.
pub open spec fn last_level(stable: bool, raw_low: bool, settled_low: bool) -> bool {
    if stable == raw_low {
        raw_low
    } else {
        settled_low
    }
}

/// A line holding steady at the confirmed state's level is quiet: every
/// poll emits `Nothing` and the confirmed state never moves.
proof fn lemma_steady_line_is_quiet(level: bool, samples: Seq<(bool, bool)>)
    requires
        forall|i: int| 0 <= i < samples.len() ==> samples[i] == (level, level),
    ensures
        run_state(level, samples) == level,
        forall|i: int| 0 <= i < samples.len() ==> event_at(level, samples, i) == Event::Nothing,
    decreases samples.len(),
{
    if samples.len() > 0 {
        lemma_steady_line_is_quiet(level, samples.drop_last());
        assert forall|i: int| 0 <= i < samples.len() implies event_at(level, samples, i)
            == Event::Nothing by {
            assert(samples.take(i) =~= samples.drop_last().take(i));
            lemma_steady_line_is_quiet(level, samples.take(i));
        }
    }
}

/// Idempotence of a quiet poll: after a poll that emitted `Nothing`, if the
/// raw level never moves again from the level that poll last saw, every
/// later poll emits `Nothing` and the confirmed state stays put.
pub proof fn lemma_nothing_idempotent(
    stable: bool,
    raw_low: bool,
    settled_low: bool,
    samples: Seq<(bool, bool)>,
)
    requires
        poll_event(stable, raw_low, settled_low) == Event::Nothing,
        forall|i: int| 0 <= i < samples.len() ==> samples[i] == (
            last_level(stable, raw_low, settled_low),
            last_level(stable, raw_low, settled_low),
        ),
    ensures
        run_state(next_state(stable, raw_low, settled_low), samples) == next_state(
            stable,
            raw_low,
            settled_low,
        ),
        forall|i: int|
            0 <= i < samples.len() ==> event_at(
                next_state(stable, raw_low, settled_low),
                samples,
                i,
            ) == Event::Nothing,
{
    assert(next_state(stable, raw_low, settled_low) == last_level(stable, raw_low, settled_low));
    lemma_steady_line_is_quiet(last_level(stable, raw_low, settled_low), samples);
}

} // verus!
