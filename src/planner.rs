use vstd::prelude::*;

use vstd::arithmetic::div_mod::{lemma_div_plus_one, lemma_div_pos_is_pos};

use crate::oid::Oid;

verus! {

/// The checkpoint that closes one window: the window's last commit, unless
/// it is the target itself.
pub open spec fn boundary(last: Oid, target: Oid) -> Seq<Oid> {
    if last == target {
        seq![]
    } else {
        seq![last]
    }
}

/// The window boundaries of `walk`: the walk is cut into consecutive windows
/// of `size` commits (the last window may be shorter) and each window
/// contributes its last, oldest commit, unless that commit is `target`.
pub open spec fn window_ends(walk: Seq<Oid>, size: nat, target: Oid) -> Seq<Oid>
    decreases walk.len(),
{
    if walk.len() == 0 || size == 0 {
        seq![]
    } else if walk.len() <= size {
        boundary(walk.last(), target)
    } else {
        boundary(walk[size - 1], target) + window_ends(walk.skip(size as int), size, target)
    }
}

/// The checkpoints for reaching `target` by a walk of the commits not yet on
/// the remote, newest first: `target` itself, then one boundary per window.
pub open spec fn checkpoints(target: Oid, walk: Seq<Oid>, size: nat) -> Seq<Oid> {
    seq![target] + window_ends(walk, size, target)
}

/// Computes the checkpoints between `from` and the commits already on the
/// remote. `walk` is the repository's traversal from `from`, newest first,
/// with the acknowledged commit and its ancestors left out; only the window
/// boundaries are kept.
pub fn batch_rev_walk(batch_size: usize, from: Oid, walk: &Vec<Oid>) -> (r: Vec<Oid>)
    requires
        batch_size > 0,
    ensures
        r@ == checkpoints(from, walk@, batch_size as nat),
{
    let mut oids: Vec<Oid> = Vec::new();
    oids.push(from);
    let n = walk.len();
    let mut i: usize = 0;
    assert(walk@.skip(0) =~= walk@);
    assert(oids@ =~= seq![from]);
    while i < n
        invariant
            n == walk@.len(),
            i <= n,
            batch_size > 0,
            oids@ + window_ends(walk@.skip(i as int), batch_size as nat, from)
                == checkpoints(from, walk@, batch_size as nat),
        decreases n - i,
    {
        let ghost rest = walk@.skip(i as int);
        let end: usize = if n - i <= batch_size { n } else { i + batch_size };
        let last = walk[end - 1];
        proof {
            if n - i > batch_size {
                assert(rest.skip(batch_size as int) =~= walk@.skip(end as int));
                assert(rest[batch_size - 1] == last);
            } else {
                assert(rest.last() == last);
                assert(walk@.skip(end as int) =~= Seq::<Oid>::empty());
            }
        }
        let old_oids = Ghost(oids@);
        if last != from {
            oids.push(last);
        }
        proof {
            assert(oids@ =~= old_oids@ + boundary(last, from));
            assert(old_oids@ + (boundary(last, from) + window_ends(walk@.skip(end as int), batch_size as nat, from))
                =~= oids@ + window_ends(walk@.skip(end as int), batch_size as nat, from));
        }
        i = end;
    }
    proof {
        assert(walk@.skip(n as int) =~= Seq::<Oid>::empty());
        assert(oids@ + Seq::<Oid>::empty() =~= oids@);
    }
    oids
}

proof fn lemma_window_ends_count(walk: Seq<Oid>, size: nat, target: Oid)
    requires
        size > 0,
    ensures
        window_ends(walk, size, target).len() <= (walk.len() + size - 1) / (size as int),
    decreases walk.len(),
{
    if walk.len() == 0 {
        lemma_div_pos_is_pos(size - 1, size as int);
    } else {
        lemma_div_pos_is_pos(walk.len() - 1, size as int);
        lemma_div_plus_one(walk.len() - 1, size as int);
        assert(size + (walk.len() - 1) == walk.len() + size - 1);
        if walk.len() > size {
            lemma_window_ends_count(walk.skip(size as int), size, target);
        }
    }
}

proof fn lemma_window_ends_in_walk(walk: Seq<Oid>, size: nat, target: Oid)
    requires
        size > 0,
    ensures
        forall|j: int|
            0 <= j < window_ends(walk, size, target).len() ==> {
                let c = #[trigger] window_ends(walk, size, target)[j];
                c != target && walk.contains(c)
            },
    decreases walk.len(),
{
    let ends = window_ends(walk, size, target);
    if walk.len() == 0 {
    } else if walk.len() <= size {
        assert(walk[walk.len() - 1] == walk.last());
    } else {
        let rest = walk.skip(size as int);
        lemma_window_ends_in_walk(rest, size, target);
        let head = boundary(walk[size - 1], target);
        assert forall|j: int| 0 <= j < ends.len() implies ends[j] != target && walk.contains(ends[j]) by {
            if j < head.len() {
                assert(ends[j] == walk[size - 1]);
            } else {
                let k = j - head.len();
                assert(ends[j] == window_ends(rest, size, target)[k]);
                let w = choose|w: int| 0 <= w < rest.len() && rest[w] == ends[j];
                assert(walk[w + size] == ends[j]);
            }
        }
    }
}

/// The number of checkpoints is at most one per full or partial window of
/// the walk, plus the target: `ceil(walk length / size) + 1`.
pub proof fn lemma_checkpoint_count(target: Oid, walk: Seq<Oid>, size: nat)
    requires
        size > 0,
    ensures
        checkpoints(target, walk, size).len() <= (walk.len() + size - 1) / (size as int) + 1,
{
    lemma_window_ends_count(walk, size, target);
}

/// Resuming never goes back: when the walk leaves out every commit of
/// `behind` (the acknowledged checkpoint and its ancestors) and the target is
/// not among them, no checkpoint is in `behind`. Every checkpoint after the
/// first is a commit of the walk other than the target.
pub proof fn lemma_checkpoints_resume(target: Oid, walk: Seq<Oid>, size: nat, behind: Set<Oid>)
    requires
        size > 0,
        !behind.contains(target),
        forall|i: int| 0 <= i < walk.len() ==> !behind.contains(#[trigger] walk[i]),
    ensures
        checkpoints(target, walk, size)[0] == target,
        forall|j: int|
            1 <= j < checkpoints(target, walk, size).len() ==> {
                let c = #[trigger] checkpoints(target, walk, size)[j];
                c != target && walk.contains(c)
            },
        forall|j: int|
            0 <= j < checkpoints(target, walk, size).len() ==> !behind.contains(
                #[trigger] checkpoints(target, walk, size)[j],
            ),
{
    let cps = checkpoints(target, walk, size);
    let ends = window_ends(walk, size, target);
    lemma_window_ends_in_walk(walk, size, target);
    assert forall|j: int| 1 <= j < cps.len() implies cps[j] != target && walk.contains(cps[j]) by {
        assert(cps[j] == ends[j - 1]);
    }
    assert forall|j: int| 0 <= j < cps.len() implies !behind.contains(cps[j]) by {
        if j >= 1 {
            assert(cps[j] == ends[j - 1]);
            let w = choose|w: int| 0 <= w < walk.len() && walk[w] == cps[j];
        }
    }
}

} // verus!
