use vstd::prelude::*;

verus! {

/// A player's skill estimate: the rating, and the rating deviation that says
/// how uncertain the rating is. `N` is the number type that both are held in;
/// the library stores and hands on such numbers and never computes with them.
pub struct RatedPlayer<N> {
    pub rating: N,
    pub rd: N,
}

impl<N: Copy> Clone for RatedPlayer<N> {
    fn clone(&self) -> (copy: RatedPlayer<N>)
        ensures
            copy == *self,
    {
        *self
    }
}

impl<N: Copy> Copy for RatedPlayer<N> {

}

impl<N: Copy> RatedPlayer<N> {
    /// A player with exactly this rating and deviation.
    pub fn from_rating_and_rd(rating: N, rd: N) -> (player: RatedPlayer<N>)
        ensures
            player == (RatedPlayer { rating, rd }),
    {
        RatedPlayer { rating, rd }
    }
}

/// The handle that a rating period gives out for a registered player: the
/// rating and deviation that the player was registered with, and the
/// player's place in the period. The two numbers are a record of the
/// registration, not a live value.
pub struct IndexedRatedPlayer<N> {
    pub rating: N,
    pub rd: N,
    pub index: usize,
}

impl<N: Copy> Clone for IndexedRatedPlayer<N> {
    fn clone(&self) -> (copy: IndexedRatedPlayer<N>)
        ensures
            copy == *self,
    {
        *self
    }
}

impl<N: Copy> Copy for IndexedRatedPlayer<N> {

}

impl<N> IndexedRatedPlayer<N> {
    /// The rating and deviation that the handle carries, without the index.
    pub open spec fn snapshot(&self) -> RatedPlayer<N> {
        RatedPlayer { rating: self.rating, rd: self.rd }
    }
}

impl<N: Copy> IndexedRatedPlayer<N> {
    /// The rating and deviation that the handle carries.
    pub fn without_index(&self) -> (player: RatedPlayer<N>)
        ensures
            player == self.snapshot(),
    {
        RatedPlayer { rating: self.rating, rd: self.rd }
    }
}

} // verus!
