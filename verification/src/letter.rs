use core::cmp::Ordering;
use vstd::prelude::*;
use vstd::std_specs::cmp::PartialOrdSpecImpl;

verus! {

/// What is known of a letter: in the right place, in the word elsewhere,
/// not in the word, or not guessed yet.
///
/// The states are ordered by how much they reveal:
/// `Unknown < Absent < Present < Correct`.
#[derive(Clone, Copy, Debug, PartialEq, Eq, Structural, Ord)]
pub enum LetterState {
    Unknown,
    Absent,
    Present,
    Correct,
}

/// The rank of a state in the order `Unknown < Absent < Present < Correct`.
pub open spec fn state_rank(s: LetterState) -> int {
    match s {
        LetterState::Correct => 3,
        LetterState::Present => 2,
        LetterState::Absent => 1,
        LetterState::Unknown => 0,
    }
}

/// The more revealing of two states (the first one on a tie).
pub open spec fn best_state(a: LetterState, b: LetterState) -> LetterState {
    if state_rank(b) > state_rank(a) {
        b
    } else {
        a
    }
}

impl LetterState {
    /// The rank of this state: 3 for `Correct`, 2 for `Present`,
    /// 1 for `Absent`, 0 for `Unknown`.
    pub fn rank(&self) -> (r: u8)
        ensures
            r == state_rank(*self),
    {
        match self {
            LetterState::Correct => 3,
            LetterState::Present => 2,
            LetterState::Absent => 1,
            LetterState::Unknown => 0,
        }
    }
}

impl PartialOrd for LetterState {
    fn partial_cmp(&self, other: &Self) -> (r: Option<Ordering>) {
        let a = self.rank();
        let b = other.rank();
        if a < b {
            Some(Ordering::Less)
        } else if a == b {
            Some(Ordering::Equal)
        } else {
            Some(Ordering::Greater)
        }
    }
}

impl PartialOrdSpecImpl for LetterState {
    open spec fn obeys_partial_cmp_spec() -> bool {
        true
    }

    open spec fn partial_cmp_spec(&self, other: &Self) -> Option<Ordering> {
        if state_rank(*self) < state_rank(*other) {
            Some(Ordering::Less)
        } else if state_rank(*self) == state_rank(*other) {
            Some(Ordering::Equal)
        } else {
            Some(Ordering::Greater)
        }
    }
}

} // verus!
