use vstd::prelude::*;

verus! {

/// The contents after pushing the values of `vs`, in order, onto a container
/// holding `s`. Each step matches the success case of `FastVec::push`, whose
/// contract appends the pushed value to the view.
pub open spec fn push_sequence<T>(s: Seq<T>, vs: Seq<T>) -> Seq<T>
    decreases vs.len(),
{
    if vs.len() == 0 {
        s
    } else {
        push_sequence(s.push(vs.first()), vs.drop_first())
    }
}

/// The values yielded, in order, by `k` pops from a container holding `s`.
/// Each step matches the contract of `FastVec::pop`: a pop on contents of
/// length above zero yields the last element and drops it from the view, and
/// a pop on empty contents yields nothing.
pub open spec fn pop_sequence<T>(s: Seq<T>, k: nat) -> Seq<T>
    decreases k,
{
    if k == 0 || s.len() == 0 {
        Seq::empty()
    } else {
        seq![s.last()] + pop_sequence(s.drop_last(), (k - 1) as nat)
    }
}

/// Pushing the values of `vs` in order appends them, in order, after the
/// elements already held.
pub proof fn lemma_push_sequence_appends<T>(s: Seq<T>, vs: Seq<T>)
    ensures
        push_sequence(s, vs) == s + vs,
    decreases vs.len(),
{
    if vs.len() == 0 {
        assert(push_sequence(s, vs) =~= s + vs);
    } else {
        lemma_push_sequence_appends(s.push(vs.first()), vs.drop_first());
        assert(s.push(vs.first()) + vs.drop_first() =~= s + vs);
    }
}

/// The LIFO law: pushing the values `v1 .. vk` onto an empty container and
/// then popping `k` times yields exactly `vk, .., v1`, the pushed values in
/// reverse order.
pub proof fn lemma_lifo<T>(vs: Seq<T>)
    ensures
        pop_sequence(push_sequence(Seq::empty(), vs), vs.len()) == vs.reverse(),
{
    lemma_push_sequence_appends(Seq::empty(), vs);
    assert(push_sequence(Seq::empty(), vs) =~= vs);
    lemma_pop_sequence_reverses(vs);
}

/// Popping as many times as there are elements yields the whole contents in
/// reverse order.
pub proof fn lemma_pop_sequence_reverses<T>(s: Seq<T>)
    ensures
        pop_sequence(s, s.len()) == s.reverse(),
    decreases s.len(),
{
    if s.len() == 0 {
        assert(pop_sequence(s, s.len()) =~= s.reverse());
    } else {
        lemma_pop_sequence_reverses(s.drop_last());
        assert(pop_sequence(s, s.len()) =~= s.reverse()) by {
            assert forall|i: int| 0 <= i < s.len() implies (seq![s.last()]
                + s.drop_last().reverse())[i] == s.reverse()[i] by {
                if i > 0 {
                    assert(s.drop_last().reverse()[i - 1] == s.drop_last()[s.len() - 1 - i]);
                }
            }
        }
    }
}

/// No data loss when an append migrates or grows the storage: after a
/// successful `push`, whose contract appends the value to the view, every
/// element already stored is still readable at its old position and the new
/// value stands at the old length.
pub proof fn lemma_push_preserves_positions<T>(s: Seq<T>, x: T)
    ensures
        s.push(x).len() == s.len() + 1,
        forall|i: int| 0 <= i < s.len() ==> s.push(x)[i] == s[i],
        s.push(x)[s.len() as int] == x,
{
}

} // verus!
