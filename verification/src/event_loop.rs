//! State of the polling loop for the three-button board.
//!
//! Each loop iteration polls every input once, in a fixed declared order,
//! and fully handles each confirmed event before the next input is sampled.
//! The per-event handling is pure loop state: a confirmed press bumps that
//! button's counter and asks the caller to redraw its label; everything
//! else leaves the state alone.

use vstd::prelude::*;

verus! {

use crate::debounce::Event;

/// The three monitored inputs, in the loop's fixed polling order.
#[derive(Copy, Clone, PartialEq, Eq, Debug, Structural)]
pub enum ButtonId {
    Menu,
    Up,
    Down,
}

/// Per-button press counters. They exist to make repeated presses
/// observable and only ever grow.
#[derive(Copy, Clone, PartialEq, Eq, Debug, Structural)]
pub struct Counters {
    pub menu: u64,
    pub up: u64,
    pub down: u64,
}

/// `c` with `id`'s counter bumped by one. Callers rule overflow out, so the
/// truncating cast never bites.
pub open spec fn bump(c: Counters, id: ButtonId) -> Counters {
    match id {
        ButtonId::Menu => Counters { menu: (c.menu + 1) as u64, up: c.up, down: c.down },
        ButtonId::Up => Counters { menu: c.menu, up: (c.up + 1) as u64, down: c.down },
        ButtonId::Down => Counters { menu: c.menu, up: c.up, down: (c.down + 1) as u64 },
    }
}

impl Counters {
    /// The counter owned by `id`.
    pub open spec fn count(self, id: ButtonId) -> u64 {
        match id {
            ButtonId::Menu => self.menu,
            ButtonId::Up => self.up,
            ButtonId::Down => self.down,
        }
    }

    /// All counters start at zero.
    pub fn new() -> (c: Counters)
        ensures
            forall|id: ButtonId| c.count(id) == 0,
    {
        Counters { menu: 0, up: 0, down: 0 }
    }

    /// The counter owned by `id`, readable at run time.
    pub fn get(&self, id: ButtonId) -> (n: u64)
        ensures
            n == self.count(id),
    {
        match id {
            ButtonId::Menu => self.menu,
            ButtonId::Up => self.up,
            ButtonId::Down => self.down,
        }
    }

    /// Handle one classified event of one input, as the loop body does: a
    /// confirmed press bumps exactly that input's counter and asks for a
    /// redraw of its label; `Released` and `Nothing` change nothing and
    /// trigger no redraw.
    pub fn on_event(&mut self, id: ButtonId, e: Event) -> (redraw: bool)
        requires
            e == Event::Pressed ==> old(self).count(id) < u64::MAX,
        ensures
            redraw == (e == Event::Pressed),
            e == Event::Pressed ==> *final(self) == bump(*old(self), id),
            e != Event::Pressed ==> *final(self) == *old(self),
            final(self).count(id) == old(self).count(id) + (if e == Event::Pressed {
                1int
            } else {
                0int
            }),
            forall|j: ButtonId| j != id ==> final(self).count(j) == old(self).count(j),
    {
        if let Event::Pressed = e {
            match id {
                ButtonId::Menu => {
                    self.menu = self.menu + 1;
                },
                ButtonId::Up => {
                    self.up = self.up + 1;
                },
                ButtonId::Down => {
                    self.down = self.down + 1;
                },
            }
            true
        } else {
            false
        }
    }
}

/// How many of the confirmed presses in `s` belong to `id`.
pub open spec fn presses_of(s: Seq<ButtonId>, id: ButtonId) -> nat
    decreases s.len(),
{
    if s.len() == 0 {
        0
    } else {
        presses_of(s.drop_last(), id) + (if s.last() == id {
            1nat
        } else {
            0nat
        })
    }
}

/// The counters after recording each confirmed press in `s`, in order.
pub open spec fn counters_after(c: Counters, s: Seq<ButtonId>) -> Counters
    decreases s.len(),
{
    if s.len() == 0 {
        c
    } else {
        bump(counters_after(c, s.drop_last()), s.last())
    }
}

/// Counter invariant: after any run of confirmed presses with no resets,
/// each button's counter has grown by exactly the number of that button's
/// presses — so presses of one button never move another's counter.
pub proof fn lemma_counter_invariant(c: Counters, s: Seq<ButtonId>, id: ButtonId)
    requires
        forall|j: ButtonId| c.count(j) + #[trigger] presses_of(s, j) <= u64::MAX,
    ensures
        counters_after(c, s).count(id) == c.count(id) + presses_of(s, id),
    decreases s.len(),
{
    if s.len() > 0 {
        assert forall|j: ButtonId| c.count(j) + #[trigger] presses_of(s.drop_last(), j)
            <= u64::MAX by {
            assert(presses_of(s.drop_last(), j) <= presses_of(s, j));
        }
        lemma_counter_invariant(c, s.drop_last(), id);
        lemma_counter_invariant(c, s.drop_last(), s.last());
    }
}

} // verus!
