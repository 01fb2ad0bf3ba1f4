//! The order in which a frame's draw calls are submitted: grouped by view,
//! views in ascending handle order, and draw calls of one view in the order
//! they were recorded.
use crate::frame::{FramePayload, FrameTask};
use crate::graphics::{handle_after, handle_lt, ViewHandle};
use vstd::prelude::*;

verus! {

/// Whether the draw calls of `s` are in ascending order of their views.
pub open spec fn sorted_by_view<P: FramePayload>(s: Seq<FrameTask<P>>) -> bool {
    forall|i: int, j: int| 0 <= i < j < s.len() ==> !handle_lt(#[trigger] s[j].view, #[trigger] s[i].view)
}

/// The draw calls of `s` that target `view`, in the order of `s`.
pub open spec fn draws_on<P: FramePayload>(s: Seq<FrameTask<P>>, view: ViewHandle) -> Seq<FrameTask<P>>
    decreases s.len(),
{
    if s.len() == 0 {
        Seq::empty()
    } else if s.last().view == view {
        draws_on(s.drop_last(), view).push(s.last())
    } else {
        draws_on(s.drop_last(), view)
    }
}

/// Selecting the draw calls of a view distributes over concatenation.
pub proof fn lemma_draws_on_add<P: FramePayload>(
    a: Seq<FrameTask<P>>,
    b: Seq<FrameTask<P>>,
    view: ViewHandle,
)
    ensures
        draws_on(a + b, view) == draws_on(a, view) + draws_on(b, view),
    decreases b.len(),
{
    if b.len() == 0 {
        assert(a + b =~= a);
        assert(draws_on(a, view) + draws_on(b, view) =~= draws_on(a, view));
    } else {
        assert((a + b).drop_last() =~= a + b.drop_last());
        lemma_draws_on_add(a, b.drop_last(), view);
        assert((a + b).last() == b.last());
        if b.last().view == view {
            assert(draws_on(a + b, view) =~= draws_on(a, view) + draws_on(b, view));
        } else {
            assert(draws_on(a + b, view) =~= draws_on(a, view) + draws_on(b, view));
        }
    }
}

/// No draw call of `s` targets `view`: none is selected.
pub proof fn lemma_draws_on_none<P: FramePayload>(s: Seq<FrameTask<P>>, view: ViewHandle)
    requires
        forall|k: int| 0 <= k < s.len() ==> (#[trigger] s[k]).view != view,
    ensures
        draws_on(s, view) == Seq::<FrameTask<P>>::empty(),
    decreases s.len(),
{
    if s.len() > 0 {
        lemma_draws_on_none(s.drop_last(), view);
    }
}

/// A selected draw call is a draw call of `s` that targets `view`.
pub proof fn lemma_draws_on_member<P: FramePayload>(s: Seq<FrameTask<P>>, view: ViewHandle, i: int)
    requires
        0 <= i < draws_on(s, view).len(),
    ensures
        exists|k: int| 0 <= k < s.len() && s[k] == draws_on(s, view)[i] && s[k].view == view,
    decreases s.len(),
{
    if s.len() > 0 {
        let prev = draws_on(s.drop_last(), view);
        if s.last().view == view && i == prev.len() {
            assert(s[s.len() - 1] == draws_on(s, view)[i]);
        } else {
            lemma_draws_on_member(s.drop_last(), view, i);
            let k = choose|k: int|
                0 <= k < s.drop_last().len() && s.drop_last()[k] == prev[i] && s.drop_last()[k].view
                    == view;
            assert(s[k] == draws_on(s, view)[i]);
        }
    }
}

/// The draw order is determined: two sequences of draw calls that are both
/// sorted by view and hold the same draw calls for every view, in the same
/// order, are equal. So sorting an already sorted sequence leaves it as is.
pub proof fn law_draw_order_unique<P: FramePayload>(s1: Seq<FrameTask<P>>, s2: Seq<FrameTask<P>>)
    requires
        sorted_by_view(s1),
        sorted_by_view(s2),
        forall|view: ViewHandle| #[trigger] draws_on(s1, view) == draws_on(s2, view),
    ensures
        s1 == s2,
    decreases s1.len() + s2.len(),
{
    if s1.len() == 0 && s2.len() == 0 {
        assert(s1 =~= s2);
    } else if s1.len() == 0 {
        let b = s2.last();
        assert(draws_on(s1, b.view) == draws_on(s2, b.view));
        assert(false);
    } else if s2.len() == 0 {
        let a = s1.last();
        assert(draws_on(s1, a.view) == draws_on(s2, a.view));
        assert(false);
    } else {
        let a = s1.last();
        let b = s2.last();
        let n1 = s1.len() - 1;
        let n2 = s2.len() - 1;
        if handle_lt(a.view, b.view) {
            assert(draws_on(s1, b.view) == draws_on(s2, b.view));
            let i = draws_on(s2, b.view).len() - 1;
            lemma_draws_on_member(s1, b.view, i);
            let k = choose|k: int|
                0 <= k < s1.len() && s1[k] == draws_on(s1, b.view)[i] && s1[k].view == b.view;
            if k < n1 {
                assert(!handle_lt(s1[n1].view, s1[k].view));
            }
            assert(false);
        }
        if handle_lt(b.view, a.view) {
            assert(draws_on(s1, a.view) == draws_on(s2, a.view));
            let i = draws_on(s1, a.view).len() - 1;
            lemma_draws_on_member(s2, a.view, i);
            let k = choose|k: int|
                0 <= k < s2.len() && s2[k] == draws_on(s2, a.view)[i] && s2[k].view == a.view;
            if k < n2 {
                assert(!handle_lt(s2[n2].view, s2[k].view));
            }
            assert(false);
        }
        assert(a.view == b.view);
        assert(draws_on(s1, a.view) == draws_on(s2, a.view));
        assert(draws_on(s1, a.view).last() == a);
        assert(draws_on(s2, a.view).last() == b);
        assert forall|view: ViewHandle| #[trigger]
            draws_on(s1.drop_last(), view) == draws_on(s2.drop_last(), view) by {
            assert(draws_on(s1, view) == draws_on(s2, view));
            if view == a.view {
                assert(draws_on(s1.drop_last(), view) =~= draws_on(s1, view).drop_last());
                assert(draws_on(s2.drop_last(), view) =~= draws_on(s2, view).drop_last());
            }
        }
        law_draw_order_unique(s1.drop_last(), s2.drop_last());
        assert(s1 =~= s1.drop_last().push(a));
        assert(s2 =~= s2.drop_last().push(b));
    }
}

/// Sorts draw calls by view, keeping the recorded order of the draw calls
/// of each view.
pub fn sort_by_view<P: FramePayload>(draws: &mut Vec<FrameTask<P>>)
    ensures
        final(draws)@.len() == old(draws)@.len(),
        sorted_by_view(final(draws)@),
        forall|view: ViewHandle| #[trigger]
            draws_on(final(draws)@, view) == draws_on(old(draws)@, view),
        forall|k: int|
            0 <= k < final(draws)@.len() ==> old(draws)@.contains(#[trigger] final(draws)@[k]),
{
    let ghost input = draws@;
    let mut out: Vec<FrameTask<P>> = Vec::new();
    let mut i: usize = 0;
    while i < draws.len()
        invariant
            draws@ == input,
            i <= input.len(),
            out@.len() == i,
            sorted_by_view(out@),
            forall|view: ViewHandle| #[trigger]
                draws_on(out@, view) == draws_on(input.take(i as int), view),
            forall|k: int| 0 <= k < out@.len() ==> input.contains(#[trigger] out@[k]),
        decreases input.len() - i,
    {
        let x = draws[i];
        let mut p: usize = out.len();
        while p > 0 && handle_after(out[p - 1].view, x.view)
            invariant
                p <= out@.len(),
                forall|k: int| p <= k < out@.len() ==> handle_lt(x.view, #[trigger] out@[k].view),
            decreases p,
        {
            p = p - 1;
        }
        let ghost before = out@;
        out.insert(p, x);
        proof {
            let a = before.subrange(0, p as int);
            let b = before.subrange(p as int, before.len() as int);
            assert(before =~= a + b);
            assert(out@ =~= a + seq![x] + b);
            assert forall|k: int| 0 <= k < a.len() implies !handle_lt(x.view, #[trigger] a[k].view) by {
                assert(before[k] == a[k]);
                if p > 0 {
                    assert(before[p - 1] == a[p - 1]);
                }
            }
            assert forall|j: int, l: int| 0 <= j < l < out@.len() implies !handle_lt(
                #[trigger] out@[l].view,
                #[trigger] out@[j].view,
            ) by {
                if j < p && l < p {
                    assert(out@[j] == before[j] && out@[l] == before[l]);
                } else if j < p && l == p {
                    assert(out@[j] == a[j]);
                } else if j < p && l > p {
                    assert(out@[j] == before[j] && out@[l] == before[l - 1]);
                } else if j == p {
                    assert(out@[l] == before[l - 1]);
                } else {
                    assert(out@[j] == before[j - 1] && out@[l] == before[l - 1]);
                }
            }
            assert(input.take(i + 1).drop_last() =~= input.take(i as int));
            assert(input.take(i + 1).last() == x);
            assert forall|view: ViewHandle| #[trigger]
                draws_on(out@, view) == draws_on(input.take(i + 1), view) by {
                lemma_draws_on_add(a + seq![x], b, view);
                lemma_draws_on_add(a, seq![x], view);
                lemma_draws_on_add(a, b, view);
                assert(seq![x].drop_last() =~= Seq::<FrameTask<P>>::empty());
                assert(seq![x].last() == x);
                reveal_with_fuel(draws_on, 2);
                let prev = draws_on(input.take(i as int), view);
                assert(draws_on(before, view) == prev);
                assert(draws_on(before, view) == draws_on(a, view) + draws_on(b, view));
                if view == x.view {
                    assert forall|k: int| 0 <= k < b.len() implies (#[trigger] b[k]).view != view by {
                        assert(b[k] == before[p + k]);
                    }
                    lemma_draws_on_none(b, view);
                    assert(draws_on(seq![x], view) =~= seq![x]);
                    assert(draws_on(input.take(i + 1), view) == prev.push(x));
                    assert(draws_on(a, view) + draws_on(b, view) =~= draws_on(a, view));
                    assert(draws_on(out@, view) =~= prev.push(x));
                } else {
                    assert(draws_on(seq![x], view) =~= Seq::<FrameTask<P>>::empty());
                    assert(draws_on(input.take(i + 1), view) == prev);
                    assert(draws_on(out@, view) =~= prev);
                }
            }
            assert forall|k: int| 0 <= k < out@.len() implies input.contains(#[trigger] out@[k]) by {
                if k < p {
                    assert(out@[k] == before[k]);
                } else if k == p {
                    assert(out@[k] == input[i as int]);
                } else {
                    assert(out@[k] == before[k - 1]);
                }
            }
        }
        i = i + 1;
    }
    assert(input.take(i as int) =~= input);
    *draws = out;
}

} // verus!
