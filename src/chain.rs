use vstd::prelude::*;

verus! {

/// Number of fixed-timestep physics sub-steps run per rendered frame.
pub const STEPS_PER_FRAME: usize = 100;

/// The arms of `s` whose delete flag in `clicked` is not set, in their
/// original order.
pub open spec fn kept<A>(s: Seq<A>, clicked: Seq<bool>) -> Seq<A>
    decreases s.len(),
{
    if s.len() == 0 || clicked.len() == 0 {
        Seq::empty()
    } else {
        let rest = kept(s.drop_first(), clicked.drop_first());
        if clicked[0] {
            rest
        } else {
            seq![s[0]] + rest
        }
    }
}

/// How many physics sub-steps a frame runs: none while paused.
pub fn steps_for_frame(paused: bool) -> (n: usize)
    ensures
        n == (if paused { 0 } else { STEPS_PER_FRAME }),
{
    if paused {
        0
    } else {
        STEPS_PER_FRAME
    }
}

proof fn lemma_kept_step<A>(s: Seq<A>, c: Seq<bool>, i: int)
    requires
        s.len() == c.len(),
        0 <= i < s.len(),
    ensures
        kept(s.subrange(i, s.len() as int), c.subrange(i, c.len() as int)) == (if c[i] {
            kept(s.subrange(i + 1, s.len() as int), c.subrange(i + 1, c.len() as int))
        } else {
            seq![s[i]] + kept(s.subrange(i + 1, s.len() as int), c.subrange(i + 1, c.len() as int))
        }),
{
    let ss = s.subrange(i, s.len() as int);
    let cs = c.subrange(i, c.len() as int);
    assert(ss.drop_first() =~= s.subrange(i + 1, s.len() as int));
    assert(cs.drop_first() =~= c.subrange(i + 1, c.len() as int));
}

/// Removes every arm whose delete flag is set, keeping the others in order.
pub fn remove_clicked<A>(arms: &mut Vec<A>, clicked: &Vec<bool>)
    requires
        old(arms).len() == clicked.len(),
    ensures
        final(arms)@ == kept(old(arms)@, clicked@),
{
    let ghost s = arms@;
    let n = arms.len();
    let mut i: usize = n;
    assert(s.subrange(n as int, n as int) =~= Seq::<A>::empty());
    assert(s.subrange(0, n as int) =~= s);
    while i > 0
        invariant
            n == s.len(),
            n == clicked@.len(),
            i <= n,
            arms@ == s.subrange(0, i as int) + kept(
                s.subrange(i as int, n as int),
                clicked@.subrange(i as int, n as int),
            ),
        decreases i,
    {
        i = i - 1;
        proof {
            lemma_kept_step(s, clicked@, i as int);
        }
        let ghost rest = kept(s.subrange(i + 1, n as int), clicked@.subrange(i + 1, n as int));
        assert(s.subrange(0, i + 1) =~= s.subrange(0, i as int).push(s[i as int]));
        if clicked[i] {
            arms.remove(i);
            assert(arms@ =~= s.subrange(0, i as int) + rest);
        } else {
            assert(arms@ =~= s.subrange(0, i as int) + (seq![s[i as int]] + rest));
        }
    }
    assert(s.subrange(0, 0) + kept(s, clicked@) =~= kept(s, clicked@));
    assert(s.subrange(0, n as int) =~= s);
    assert(clicked@.subrange(0, n as int) =~= clicked@);
}

proof fn lemma_kept_none_clicked<A>(s: Seq<A>, c: Seq<bool>)
    requires
        s.len() == c.len(),
        forall|j: int| 0 <= j < c.len() ==> !c[j],
    ensures
        kept(s, c) == s,
    decreases s.len(),
{
    if s.len() > 0 {
        lemma_kept_none_clicked(s.drop_first(), c.drop_first());
        assert(seq![s[0]] + s.drop_first() =~= s);
    }
}

/// Deleting one arm: when exactly the arm at `k` is flagged, the chain loses
/// that arm and no other, one shorter and with the rest in their order.
pub proof fn lemma_remove_one_click<A>(s: Seq<A>, clicked: Seq<bool>, k: int)
    requires
        s.len() == clicked.len(),
        0 <= k < s.len(),
        clicked[k],
        forall|j: int| 0 <= j < clicked.len() && j != k ==> !clicked[j],
    ensures
        kept(s, clicked) == s.remove(k),
        kept(s, clicked).len() == s.len() - 1,
    decreases s.len(),
{
    if k == 0 {
        lemma_kept_none_clicked(s.drop_first(), clicked.drop_first());
        assert(s.drop_first() =~= s.remove(0));
    } else {
        lemma_remove_one_click(s.drop_first(), clicked.drop_first(), k - 1);
        assert(seq![s[0]] + s.drop_first().remove(k - 1) =~= s.remove(k));
    }
}

} // verus!
