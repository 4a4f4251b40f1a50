//! Storage that keeps order.
//!
//! The kernel stores what enters a buffer until it leaves. This module says what
//! it means that it does so in order, whatever is stored, and what follows for
//! everything that entered and left over a history of transfers.

use vstd::prelude::*;

verus! {

/// One transfer, as the storage sees it.
pub ghost enum Move<A> {
    /// These enter at the end.
    In(Seq<A>),
    /// These leave.
    Out(Seq<A>),
}

/// What is stored after one transfer.
pub open spec fn stored_after<A>(stored: Seq<A>, step: Move<A>) -> Seq<A> {
    match step {
        Move::In(entering) => stored + entering,
        Move::Out(leaving) => stored.skip(leaving.len() as int),
    }
}

/// What is stored after a history that started with nothing stored.
pub open spec fn stored<A>(history: Seq<Move<A>>) -> Seq<A>
    decreases history.len(),
{
    if history.len() == 0 {
        Seq::empty()
    } else {
        stored_after(stored(history.drop_last()), history.last())
    }
}

/// The storage keeps order: whatever leaves is what has been stored longest.
pub open spec fn keeps_order<A>(history: Seq<Move<A>>) -> bool
    decreases history.len(),
{
    history.len() > 0 ==> {
        &&& keeps_order(history.drop_last())
        &&& match history.last() {
            Move::In(_) => true,
            Move::Out(leaving) => leaving.is_prefix_of(stored(history.drop_last())),
        }
    }
}

/// Everything that entered over a history.
pub open spec fn entered<A>(history: Seq<Move<A>>) -> Seq<A>
    decreases history.len(),
{
    if history.len() == 0 {
        Seq::empty()
    } else {
        match history.last() {
            Move::In(entering) => entered(history.drop_last()) + entering,
            Move::Out(_) => entered(history.drop_last()),
        }
    }
}

/// Everything that left over a history.
pub open spec fn left<A>(history: Seq<Move<A>>) -> Seq<A>
    decreases history.len(),
{
    if history.len() == 0 {
        Seq::empty()
    } else {
        match history.last() {
            Move::In(_) => left(history.drop_last()),
            Move::Out(leaving) => left(history.drop_last()) + leaving,
        }
    }
}

/// First in, first out: over any interleaving of transfers, what entered is what
/// left followed by what is still stored.
pub proof fn law_first_in_first_out<A>(history: Seq<Move<A>>)
    requires
        keeps_order(history),
    ensures
        entered(history) == left(history) + stored(history),
    decreases history.len(),
{
    if history.len() > 0 {
        let before = history.drop_last();
        law_first_in_first_out(before);
        match history.last() {
            Move::In(entering) => {
                assert(entered(history) =~= left(history) + stored(history));
            },
            Move::Out(leaving) => {
                assert(stored(before) =~= leaving + stored(before).skip(leaving.len() as int));
                assert(entered(history) =~= left(history) + stored(history));
            },
        }
    }
}

} // verus!
