use crate::vertex::{figure_at, Figure, FIGURE_COUNT};
use vstd::prelude::*;

verus! {

/// The ordinal that follows `i` in the catalog's cycle.
pub open spec fn next_ordinal(i: nat) -> nat {
    (i + 1) % (FIGURE_COUNT as nat)
}

/// The ordinal reached from `i` after `k` advances.
pub open spec fn advanced(i: nat, k: nat) -> nat
    decreases k,
{
    if k == 0 {
        i
    } else {
        next_ordinal(advanced(i, (k - 1) as nat))
    }
}

/// Advancing as many times as the catalog has figures comes back to the
/// starting ordinal, and advancing from the last ordinal wraps to the first.
pub proof fn lemma_advance_cycles(i: nat)
    requires
        i < FIGURE_COUNT,
    ensures
        advanced(i, FIGURE_COUNT as nat) == i,
        next_ordinal((FIGURE_COUNT - 1) as nat) == 0,
{
    reveal_with_fuel(advanced, 7);
}

/// Whether a key went down or came back up.
#[derive(Clone, Copy, Debug, PartialEq, Eq, Structural)]
pub enum KeyState {
    Pressed,
    Released,
}

/// Which figure of the catalog is on display.
///
/// Starts at ordinal 0 (the triangle) and moves one ordinal forward, with
/// wraparound, on each advance.
#[derive(Debug)]
pub struct FigureSelector {
    ordinal: u8,
}

impl View for FigureSelector {
    type V = nat;

    closed spec fn view(&self) -> nat {
        self.ordinal as nat
    }
}

impl FigureSelector {
    #[verifier::type_invariant]
    spec fn inv(self) -> bool {
        self.ordinal < FIGURE_COUNT
    }

    /// A selector on the first figure of the catalog.
    pub fn new() -> (r: FigureSelector)
        ensures
            r@ == 0,
    {
        FigureSelector { ordinal: 0 }
    }

    /// The ordinal of the figure on display.
    pub fn ordinal(&self) -> (r: u8)
        ensures
            r == self@,
            r < FIGURE_COUNT,
    {
        proof {
            use_type_invariant(self);
        }
        self.ordinal
    }

    /// The figure on display.
    pub fn figure(&self) -> (r: Figure)
        ensures
            r == figure_at(self@ as u8),
    {
        Figure::get_figure(self.ordinal)
    }

    /// Moves to the next figure of the catalog, wrapping after the last one.
    pub fn advance(&mut self)
        ensures
            final(self)@ == next_ordinal(old(self)@),
            final(self)@ < FIGURE_COUNT,
    {
        proof {
            use_type_invariant(&*self);
        }
        self.ordinal = (self.ordinal + 1) % FIGURE_COUNT;
    }

    /// Reacts to the advance key: the selection moves on the key's release
    /// only, so that a held key advances once. Returns whether it moved.
    pub fn on_advance_key(&mut self, state: KeyState) -> (moved: bool)
        ensures
            moved == (state == KeyState::Released),
            moved ==> final(self)@ == next_ordinal(old(self)@),
            !moved ==> final(self)@ == old(self)@,
            final(self)@ < FIGURE_COUNT,
    {
        proof {
            use_type_invariant(&*self);
        }
        match state {
            KeyState::Released => {
                self.advance();
                true
            },
            KeyState::Pressed => false,
        }
    }
}

} // verus!
