use vstd::prelude::*;

verus! {

/// Number of rungs on each side of the ladder. Every committed ladder holds
/// exactly this many levels; unused rungs are zero-valued, not absent.
pub const LEVEL_CAPACITY: usize = 64;

/// One rung of the price ladder: a price and a size, in raw unscaled
/// integer units. No ordering or uniqueness is enforced between rungs.
#[derive(Clone, Copy, Debug, PartialEq, Eq, Structural)]
pub struct PriceLevel {
    pub price: u64,
    pub size: u64,
}

/// The ladder a freshly created record holds: full capacity, every rung zero.
pub open spec fn zeroed_ladder() -> Seq<PriceLevel> {
    Seq::new(LEVEL_CAPACITY as nat, |i: int| PriceLevel { price: 0, size: 0 })
}

/// Builds the zero-filled ladder that creation commits to both sides.
pub fn make_zeroed_ladder() -> (r: Vec<PriceLevel>)
    ensures
        r@ == zeroed_ladder(),
{
    let mut v: Vec<PriceLevel> = Vec::new();
    let mut i: usize = 0;
    while i < LEVEL_CAPACITY
        invariant
            i <= LEVEL_CAPACITY,
            v@.len() == i,
            forall|j: int| 0 <= j < i ==> v@[j] == (PriceLevel { price: 0, size: 0 }),
        decreases LEVEL_CAPACITY - i,
    {
        v.push(PriceLevel { price: 0, size: 0 });
        i = i + 1;
    }
    proof {
        assert(v@ =~= zeroed_ladder());
    }
    v
}

} // verus!
