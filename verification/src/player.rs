use vstd::prelude::*;

verus! {

/// Identity of one of the two participants of a game. A search session is
/// always optimized for exactly one of them (the maximizing player).
#[derive(Clone, Copy, PartialEq, Eq, Structural, Debug, Hash)]
pub enum PlayerId {
    PlayerFirst,
    PlayerSecond,
}

} // verus!
