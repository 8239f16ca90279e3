//! Walking a queue in playback order.
use crate::models::Track;
use crate::tracklist::{lemma_playback_order_unique, positions};
use std::collections::BTreeMap;
use vstd::prelude::*;
use vstd::std_specs::btree::increasing_seq;
use vstd::std_specs::cmp::OrdSpec;
use vstd::std_specs::iter::IteratorSpec;

verus! {

/// The occupied positions with the track at each, in playback order.
pub(crate) fn entries(queue: &BTreeMap<u32, Track>) -> (out: Vec<(u32, &Track)>)
    ensures
        out@.len() == positions(queue@).len(),
        forall|i: int|
            0 <= i < out@.len() ==> {
                &&& (#[trigger] out@[i]).0 == positions(queue@)[i]
                &&& queue@.contains_key(out@[i].0)
                &&& *out@[i].1 == queue@[out@[i].0]
            },
{
    let mut out: Vec<(u32, &Track)> = Vec::new();
    let ghost all = queue.iter().remaining();
    for entry in it: queue.iter()
        invariant
            it.seq() == all,
            all == queue.iter().remaining(),
            increasing_seq(all.map_values(|kv: (&u32, &Track)| *kv.0)),
            out@.len() == it.index(),
            forall|i: int|
                0 <= i < out@.len() ==> {
                    &&& (#[trigger] out@[i]).0 == *all[i].0
                    &&& queue@.contains_key(out@[i].0)
                    &&& *out@[i].1 == queue@[out@[i].0]
                },
    {
        proof {
            assert(entry == all[it.index()]);
            assert(queue@.contains_key(*all[it.index()].0));
        }
        out.push((*entry.0, entry.1));
    }
    proof {
        let keys = all.map_values(|kv: (&u32, &Track)| *kv.0);
        assert forall|i: int, j: int| 0 <= i < j < keys.len() implies keys[i] < keys[j] by {
            assert(keys[i].cmp_spec(&keys[j]) is Less);
        }
        assert forall|p: u32| keys.contains(p) <==> (queue@.contains_key(p) && p
            < 0x1_0000_0000) by {
            if keys.contains(p) {
                let i = choose|i: int| 0 <= i < keys.len() && keys[i] == p;
                assert(queue@.contains_key(*all[i].0));
            }
            if queue@.contains_key(p) {
                assert(all.contains((&p, &queue@[p])));
                let i = choose|i: int| 0 <= i < all.len() && all[i] == (&p, &queue@[p]);
                assert(keys[i] == p);
            }
        }
        lemma_playback_order_unique(queue@, keys, 0x1_0000_0000);
    }
    out
}

} // verus!
