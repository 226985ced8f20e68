use vstd::prelude::*;
use crate::json::JsonValue;
use super::domain::{Segment, Variant};
use super::status::ExperimentStatus;

verus! {

/// Key of the evaluation cache: company id and experiment key.
pub type ExperimentCacheKey = (String, String);

/// A stored experiment; `variants` and `segments` hold JSON text.
pub struct ExperimentRow {
    pub experiment_id: String,
    pub key: String,
    pub description: Option<String>,
    pub status: ExperimentStatus,
    pub primary_metric: String,
    pub variants: String,
    pub segments: String,
    pub started_at: Option<i64>,
    pub stopped_at: Option<i64>,
    pub created_at: i64,
    pub updated_at: i64,
    pub company_id: String,
}

/// The columns the experiment list reads.
pub struct ExperimentListRow {
    pub experiment_id: String,
    pub key: String,
    pub description: Option<String>,
    pub status: ExperimentStatus,
    pub primary_metric: String,
    pub started_at: Option<i64>,
    pub stopped_at: Option<i64>,
    pub created_at: i64,
    pub updated_at: i64,
}

/// Evaluation-ready view of a running experiment: its segments in priority
/// order and each variant's config by variant key.
pub struct CachedExperiment {
    pub experiment_id: String,
    pub variant_configs: Vec<(String, JsonValue)>,
    pub segments: Vec<Segment>,
}

/// Segments in ascending priority.
pub open spec fn sorted_by_priority(s: Seq<Segment>) -> bool {
    forall|i: int, j: int| 0 <= i <= j < s.len() ==> #[trigger] s[i].priority <= #[trigger] s[j].priority
}

/// The segments with priority `p`, in their order.
pub open spec fn of_priority(s: Seq<Segment>, p: i32) -> Seq<Segment>
    decreases s.len(),
{
    if s.len() == 0 {
        s
    } else {
        let r = of_priority(s.drop_last(), p);
        if s.last().priority == p {
            r.push(s.last())
        } else {
            r
        }
    }
}

/// The config of the last variant with key `key`, as collecting
/// `(key, config)` pairs into a map keeps it.
pub open spec fn last_config_for(vs: Seq<Variant>, key: Seq<char>) -> Option<JsonValue>
    decreases vs.len(),
{
    if vs.len() == 0 {
        None
    } else if vs.last().key@ == key {
        Some(vs.last().config)
    } else {
        last_config_for(vs.drop_last(), key)
    }
}

/// No two pairs share a key.
pub open spec fn keys_unique(pairs: Seq<(String, JsonValue)>) -> bool {
    forall|i: int, j: int| 0 <= i < j < pairs.len() ==> #[trigger] pairs[i].0@ != #[trigger] pairs[j].0@
}

/// `pairs` maps each key of `vs` to its last config, and nothing else.
pub open spec fn configs_of(pairs: Seq<(String, JsonValue)>, vs: Seq<Variant>) -> bool {
    &&& keys_unique(pairs)
    &&& forall|i: int| 0 <= i < pairs.len() ==> last_config_for(vs, (#[trigger] pairs[i]).0@) == Some(pairs[i].1)
    &&& forall|j: int| 0 <= j < vs.len() ==> exists|i: int| 0 <= i < pairs.len() && #[trigger] pairs[i].0@ == (#[trigger] vs[j]).key@
}

proof fn lemma_of_priority_append(a: Seq<Segment>, b: Seq<Segment>, p: i32)
    ensures
        of_priority(a + b, p) == of_priority(a, p) + of_priority(b, p),
    decreases b.len(),
{
    if b.len() == 0 {
        assert(a + b =~= a);
        assert(of_priority(a, p) + of_priority(b, p) =~= of_priority(a, p));
    } else {
        lemma_of_priority_append(a, b.drop_last(), p);
        assert((a + b).drop_last() =~= a + b.drop_last());
        if b.last().priority == p {
            assert(of_priority(a, p) + of_priority(b.drop_last(), p).push(b.last()) =~= (
            of_priority(a, p) + of_priority(b.drop_last(), p)).push(b.last()));
        }
    }
}

proof fn lemma_of_priority_none(s: Seq<Segment>, p: i32)
    requires
        forall|j: int| 0 <= j < s.len() ==> #[trigger] s[j].priority != p,
    ensures
        of_priority(s, p) == Seq::<Segment>::empty(),
    decreases s.len(),
{
    if s.len() > 0 {
        lemma_of_priority_none(s.drop_last(), p);
    }
}

proof fn lemma_of_priority_single(x: Segment, p: i32)
    ensures
        of_priority(seq![x], p) == (if x.priority == p {
            seq![x]
        } else {
            Seq::<Segment>::empty()
        }),
{
    assert(seq![x].drop_last() =~= Seq::<Segment>::empty());
    assert(of_priority(Seq::<Segment>::empty(), p) == Seq::<Segment>::empty());
    assert(seq![x].last() == x);
    if x.priority == p {
        assert(Seq::<Segment>::empty().push(x) =~= seq![x]);
    }
}

proof fn lemma_insert_keeps_order(out: Seq<Segment>, k: int, x: Segment, p: i32)
    requires
        0 <= k <= out.len(),
        sorted_by_priority(out),
        forall|j: int| 0 <= j < k ==> #[trigger] out[j].priority <= x.priority,
        forall|j: int| k <= j < out.len() ==> #[trigger] out[j].priority > x.priority,
    ensures
        sorted_by_priority(out.insert(k, x)),
        of_priority(out.insert(k, x), p) == if x.priority == p {
            of_priority(out, p).push(x)
        } else {
            of_priority(out, p)
        },
{
    let pre = out.take(k);
    let post = out.skip(k);
    assert(out.insert(k, x) =~= pre + seq![x] + post);
    assert(out =~= pre + post);
    lemma_of_priority_append(pre + seq![x], post, p);
    lemma_of_priority_append(pre, seq![x], p);
    lemma_of_priority_append(pre, post, p);
    lemma_of_priority_single(x, p);
    if x.priority == p {
        assert forall|j: int| 0 <= j < post.len() implies #[trigger] post[j].priority != p by {
            assert(post[j] == out[j + k]);
        }
        lemma_of_priority_none(post, p);
        assert(of_priority(pre, p) + seq![x] + Seq::<Segment>::empty() =~= (of_priority(pre, p)
            + Seq::<Segment>::empty()).push(x));
    } else {
        assert(of_priority(pre, p) + Seq::<Segment>::empty() + of_priority(post, p) =~= of_priority(
            pre,
            p,
        ) + of_priority(post, p));
    }
    let ins = out.insert(k, x);
    assert forall|i: int, j: int| 0 <= i <= j < ins.len() implies #[trigger] ins[i].priority
        <= #[trigger] ins[j].priority by {
        if i < k && j < k {
            assert(ins[i] == out[i] && ins[j] == out[j]);
        } else if i < k && j == k {
            assert(ins[i] == out[i]);
        } else if i < k {
            assert(ins[i] == out[i] && ins[j] == out[j - 1]);
        } else if i == k && j > k {
            assert(ins[j] == out[j - 1]);
        } else if i > k {
            assert(ins[i] == out[i - 1] && ins[j] == out[j - 1]);
        }
    }
}

/// Orders segments by ascending priority, keeping the given order among
/// segments of equal priority (as a stable sort by priority does).
pub fn sort_segments_by_priority(segments: Vec<Segment>) -> (r: Vec<Segment>)
    ensures
        sorted_by_priority(r@),
        forall|p: i32| #[trigger] of_priority(r@, p) == of_priority(segments@, p),
{
    let ghost orig = segments@;
    let mut rest = segments;
    let mut out: Vec<Segment> = Vec::new();
    let ghost mut done: int = 0;
    while rest.len() > 0
        invariant
            0 <= done <= orig.len(),
            rest@ == orig.skip(done),
            sorted_by_priority(out@),
            forall|p: i32| #[trigger] of_priority(out@, p) == of_priority(orig.take(done), p),
        decreases rest@.len(),
    {
        let x = rest.remove(0);
        proof {
            assert(x == orig[done]);
            assert(rest@ =~= orig.skip(done + 1));
        }
        let mut k: usize = 0;
        while k < out.len() && out[k].priority <= x.priority
            invariant
                k <= out@.len(),
                forall|j: int| 0 <= j < k ==> #[trigger] out@[j].priority <= x.priority,
            decreases out@.len() - k,
        {
            k = k + 1;
        }
        proof {
            assert forall|j: int| k <= j < out@.len() implies #[trigger] out@[j].priority
                > x.priority by {
                assert(out@[k as int].priority > x.priority);
                assert(out@[k as int].priority <= out@[j].priority);
            }
            assert forall|p: i32| #[trigger] of_priority(out@.insert(k as int, x), p) == of_priority(
                orig.take(done + 1),
                p,
            ) by {
                lemma_insert_keeps_order(out@, k as int, x, p);
                assert(orig.take(done + 1).drop_last() =~= orig.take(done));
            }
            lemma_insert_keeps_order(out@, k as int, x, 0);
        }
        out.insert(k, x);
        proof {
            done = done + 1;
        }
    }
    proof {
        assert(orig.take(done) =~= orig);
    }
    out
}

impl CachedExperiment {
    /// The cached form of a stored experiment whose variants and segments
    /// have been read: segments sorted by priority (stably), and each
    /// variant key mapped to the config of its last variant.
    pub fn from_parts(experiment_id: String, variants: Vec<Variant>, segments: Vec<Segment>) -> (r:
        CachedExperiment)
        ensures
            r.experiment_id == experiment_id,
            configs_of(r.variant_configs@, variants@),
            sorted_by_priority(r.segments@),
            forall|p: i32| #[trigger] of_priority(r.segments@, p) == of_priority(segments@, p),
    {
        let ghost orig = variants@;
        let mut rest = variants;
        let mut pairs: Vec<(String, JsonValue)> = Vec::new();
        let ghost mut done: int = 0;
        while rest.len() > 0
            invariant
                0 <= done <= orig.len(),
                rest@ == orig.skip(done),
                configs_of(pairs@, orig.take(done)),
            decreases rest@.len(),
        {
            let x = rest.remove(0);
            let ghost prefix = orig.take(done);
            let ghost next = orig.take(done + 1);
            proof {
                assert(x == orig[done]);
                assert(rest@ =~= orig.skip(done + 1));
                assert(next.drop_last() =~= prefix);
                assert(next.last() == x);
            }
            let mut j: usize = 0;
            while j < pairs.len() && pairs[j].0 != x.key
                invariant
                    j <= pairs@.len(),
                    forall|m: int| 0 <= m < j ==> #[trigger] pairs@[m].0@ != x.key@,
                decreases pairs@.len() - j,
            {
                j = j + 1;
            }
            let ghost old_pairs = pairs@;
            if j < pairs.len() {
                pairs.set(j, (x.key, x.config));
                proof {
                    assert forall|i: int| 0 <= i < pairs@.len() implies last_config_for(
                        next,
                        (#[trigger] pairs@[i]).0@,
                    ) == Some(pairs@[i].1) by {
                        if i != j {
                            assert(pairs@[i] == old_pairs[i]);
                        }
                    }
                    assert forall|m: int| 0 <= m < next.len() implies exists|i: int|
                        0 <= i < pairs@.len() && #[trigger] pairs@[i].0@ == (#[trigger] next[m]).key@ by {
                        if m < done {
                            assert(next[m] == prefix[m]);
                            let i = choose|i: int|
                                0 <= i < old_pairs.len() && #[trigger] old_pairs[i].0@ == (
                                #[trigger] prefix[m]).key@;
                            assert(pairs@[i].0@ == old_pairs[i].0@);
                        } else {
                            assert(pairs@[j as int].0@ == next[m].key@);
                        }
                    }
                    assert forall|a: int, b: int| 0 <= a < b < pairs@.len() implies #[trigger] pairs@[a].0@
                        != #[trigger] pairs@[b].0@ by {
                        assert(pairs@[a].0@ == old_pairs[a].0@);
                        assert(pairs@[b].0@ == old_pairs[b].0@);
                    }
                }
            } else {
                pairs.push((x.key, x.config));
                proof {
                    assert forall|i: int| 0 <= i < pairs@.len() implies last_config_for(
                        next,
                        (#[trigger] pairs@[i]).0@,
                    ) == Some(pairs@[i].1) by {
                        if i < old_pairs.len() {
                            assert(pairs@[i] == old_pairs[i]);
                        }
                    }
                    assert forall|m: int| 0 <= m < next.len() implies exists|i: int|
                        0 <= i < pairs@.len() && #[trigger] pairs@[i].0@ == (#[trigger] next[m]).key@ by {
                        if m < done {
                            assert(next[m] == prefix[m]);
                            let i = choose|i: int|
                                0 <= i < old_pairs.len() && #[trigger] old_pairs[i].0@ == (
                                #[trigger] prefix[m]).key@;
                            assert(pairs@[i] == old_pairs[i]);
                        } else {
                            assert(pairs@[old_pairs.len() as int].0@ == next[m].key@);
                        }
                    }
                    assert forall|a: int, b: int| 0 <= a < b < pairs@.len() implies #[trigger] pairs@[a].0@
                        != #[trigger] pairs@[b].0@ by {
                        assert(pairs@[a] == old_pairs[a]);
                        if b < old_pairs.len() {
                            assert(pairs@[b] == old_pairs[b]);
                        }
                    }
                }
            }
            proof {
                done = done + 1;
            }
        }
        proof {
            assert(orig.take(done) =~= orig);
        }
        CachedExperiment {
            experiment_id,
            variant_configs: pairs,
            segments: sort_segments_by_priority(segments),
        }
    }
}

} // verus!
