use vstd::prelude::*;

verus! {

use crate::fastvec::FastVec;

/// Ceiling on how far the trace driver lets a container grow: a push is only
/// attempted while fewer elements than this are held.
pub const CAP_GROWTH: usize = 256;

/// The contents left in a container holding `cur` after a driver run over
/// `data`, byte by byte: a byte of 0 modulo 3 resets the container, 1 modulo
/// 3 pushes the following byte (0 when the trace ends here) unless the
/// ceiling is reached, and 2 modulo 3 pops.
pub open spec fn trace_contents(cur: Seq<u8>, data: Seq<u8>) -> Seq<u8>
    decreases data.len(),
{
    if data.len() == 0 {
        cur
    } else if data.first() % 3 == 0 {
        trace_contents(Seq::empty(), data.drop_first())
    } else if data.first() % 3 == 1 {
        if cur.len() < CAP_GROWTH {
            if data.len() == 1 {
                cur.push(0)
            } else {
                trace_contents(cur.push(data[1]), data.skip(2))
            }
        } else {
            trace_contents(cur, data.drop_first())
        }
    } else {
        if cur.len() == 0 {
            trace_contents(cur, data.drop_first())
        } else {
            trace_contents(cur.drop_last(), data.drop_first())
        }
    }
}

/// Drives a container with `N` inline slots through the operation trace that
/// `data` encodes and returns it. Every operation acts on a well-formed
/// container, every push below the growth ceiling succeeds, and the returned
/// contents are exactly the trace's interpretation.
pub fn do_test<const N: usize>(data: &[u8]) -> (r: FastVec<u8, N>)
    requires
        1 <= N,
        N < usize::MAX / 2,
    ensures
        r.well_formed(),
        r@ == trace_contents(Seq::empty(), data@),
{
    let mut v = FastVec::<u8, N>::new();
    proof {
        assert(data@.skip(0) =~= data@);
    }
    let mut i: usize = 0;
    while i < data.len()
        invariant
            1 <= N,
            N < usize::MAX / 2,
            v.well_formed(),
            i <= data@.len(),
            v.spec_cap() == N || v.spec_cap() < 2 * CAP_GROWTH,
            trace_contents(v@, data@.skip(i as int)) == trace_contents(Seq::empty(), data@),
        decreases data@.len() - i,
    {
        let op = data[i];
        let ghost pre = data@.skip(i as int);
        proof {
            assert(pre.first() == op);
        }
        i = i + 1;
        if op % 3 == 0 {
            v = FastVec::<u8, N>::new();
            proof {
                assert(pre.drop_first() =~= data@.skip(i as int));
            }
        } else if op % 3 == 1 {
            if v.len() < CAP_GROWTH {
                let ghost cur = v@;
                proof {
                    v.lemma_container_invariants();
                }
                if i < data.len() {
                    let value = data[i];
                    proof {
                        assert(pre[1] == value);
                        assert(pre.skip(2) =~= data@.skip(i + 1));
                    }
                    i = i + 1;
                    let res = v.push(value);
                    proof {
                        assert(res is Ok);
                        assert(v@ == cur.push(value));
                    }
                } else {
                    let res = v.push(0);
                    proof {
                        assert(res is Ok);
                        assert(pre.len() == 1);
                        assert(data@.skip(i as int) =~= Seq::<u8>::empty());
                    }
                }
            } else {
                proof {
                    assert(pre.drop_first() =~= data@.skip(i as int));
                }
            }
        } else {
            let _ = v.pop();
            proof {
                assert(pre.drop_first() =~= data@.skip(i as int));
            }
        }
    }
    proof {
        assert(data@.skip(i as int) =~= Seq::<u8>::empty());
    }
    v
}

/// Runs the trace driver at several inline capacities, exercising migration
/// at different fill levels.
pub fn do_test_all(data: &[u8]) {
    do_test::<1>(data);
    do_test::<2>(data);
    do_test::<7>(data);
    do_test::<8>(data);
}

} // verus!
