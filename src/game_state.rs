use vstd::prelude::*;

verus! {

/// Score and miss counters of one session.
pub struct GameState {
    pub score: u64,
    pub misses: u64,
}

impl GameState {
    pub fn new() -> (r: GameState)
        ensures
            r.score == 0,
            r.misses == 0,
    {
        GameState { score: 0, misses: 0 }
    }

    /// Counts a caught rectangle; returns the new score for the score display.
    pub fn hit(&mut self) -> (r: u64)
        requires
            old(self).score < u64::MAX,
        ensures
            final(self).score == old(self).score + 1,
            final(self).misses == old(self).misses,
            r == final(self).score,
    {
        self.score = self.score + 1;
        self.score
    }

    /// Counts a rectangle that left the surface; returns the new miss count.
    pub fn miss(&mut self) -> (r: u64)
        requires
            old(self).misses < u64::MAX,
        ensures
            final(self).misses == old(self).misses + 1,
            final(self).score == old(self).score,
            r == final(self).misses,
    {
        self.misses = self.misses + 1;
        self.misses
    }
}

} // verus!
