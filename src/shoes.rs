//! Picking shoes by size.
use vstd::prelude::*;

verus! {

#[derive(PartialEq, Debug)]
pub struct Shoe {
    pub size: u32,
    pub style: String,
}

/// The shoes of `s` whose size is `size`, in the order they stand in `s`.
pub open spec fn in_size(s: Seq<Shoe>, size: u32) -> Seq<Shoe>
    decreases s.len(),
{
    if s.len() == 0 {
        Seq::empty()
    } else {
        let rest = in_size(s.drop_last(), size);
        if s.last().size == size {
            rest.push(s.last())
        } else {
            rest
        }
    }
}

/// The shoes of `shoes` whose size is `shoe_size`, in their original order.
pub fn shoes_in_my_size(shoes: Vec<Shoe>, shoe_size: u32) -> (r: Vec<Shoe>)
    ensures
        r@ == in_size(shoes@, shoe_size),
{
    let ghost all = shoes@;
    let mut rest = shoes;
    let mut kept: Vec<Shoe> = Vec::new();
    assert(all.subrange(0, 0) =~= Seq::<Shoe>::empty());
    assert(all.subrange(0, all.len() as int) =~= all);
    while rest.len() > 0
        invariant
            rest@.len() <= all.len(),
            rest@ == all.subrange(all.len() - rest@.len(), all.len() as int),
            kept@ == in_size(all.subrange(0, all.len() - rest@.len()), shoe_size),
        decreases rest@.len(),
    {
        let ghost i = all.len() - rest@.len();
        let s = rest.remove(0);
        assert(all.subrange(0, i + 1).drop_last() =~= all.subrange(0, i));
        assert(rest@ =~= all.subrange(i + 1, all.len() as int));
        if s.size == shoe_size {
            kept.push(s);
        }
    }
    kept
}

} // verus!
