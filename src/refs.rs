use vstd::prelude::*;

use crate::id::uuid_text;
use crate::oid::{oid_text, Oid};
use crate::text::{append, append_char};
use crate::project::ProjectId;

verus! {

/// The kind of a named reference.
#[derive(Clone, Copy, Debug, PartialEq, Eq, Structural)]
pub enum RefKind {
    Local,
    Remote,
    Virtual,
    Other,
}

/// A named reference of the local repository, with its full name
/// (`refs/heads/main`, `refs/remotes/origin/main`, ...).
pub struct Refname {
    pub kind: RefKind,
    pub name: String,
}

/// A forced update of one reference on the remote.
pub enum Refspec {
    /// `+<commit>:refs/push-tmp/<project>`: the project's temporary reference.
    Stage { commit: Oid, project: ProjectId },
    /// `+<commit>:refs/<project>`: the project's real target reference.
    Publish { commit: Oid, project: ProjectId },
    /// `+<name>:<name>`: the reference of the same name on the remote.
    Mirror { name: String },
}

/// The text form of a refspec, as the remote reads it.
pub open spec fn refspec_text(r: Refspec) -> Seq<char> {
    match r {
        Refspec::Stage { commit, project } => seq!['+'] + oid_text(commit) + ":refs/push-tmp/"@
            + uuid_text(project.value_spec()),
        Refspec::Publish { commit, project } => seq!['+'] + oid_text(commit) + ":refs/"@
            + uuid_text(project.value_spec()),
        Refspec::Mirror { name } => seq!['+'] + name@ + seq![':'] + name@,
    }
}

impl Refspec {
    pub fn to_text(&self) -> (r: String)
        ensures
            r@ == refspec_text(*self),
    {
        let mut s = String::new();
        append_char(&mut s, '+');
        match self {
            Refspec::Stage { commit, project } => {
                commit.write_hex(&mut s);
                append(&mut s, ":refs/push-tmp/");
                let id = project.to_text();
                append(&mut s, id.as_str());
            },
            Refspec::Publish { commit, project } => {
                commit.write_hex(&mut s);
                append(&mut s, ":refs/");
                let id = project.to_text();
                append(&mut s, id.as_str());
            },
            Refspec::Mirror { name } => {
                append(&mut s, name.as_str());
                append_char(&mut s, ':');
                append(&mut s, name.as_str());
            },
        }
        s
    }
}

/// Only branch-like references are mirrored; tags and the rest are not.
pub open spec fn is_mirrored(kind: RefKind) -> bool {
    kind != RefKind::Other
}

/// The names of the references that the mirror push carries, in order.
pub open spec fn mirrored_names(refs: Seq<Refname>) -> Seq<Seq<char>>
    decreases refs.len(),
{
    if refs.len() == 0 {
        seq![]
    } else {
        let rest = mirrored_names(refs.drop_last());
        if is_mirrored(refs.last().kind) {
            rest.push(refs.last().name@)
        } else {
            rest
        }
    }
}

/// Whether `specs` is exactly the mirror push for `refs`: one forced
/// same-name update per mirrored reference, in order.
pub open spec fn is_mirror_push(specs: Seq<Refspec>, refs: Seq<Refname>) -> bool {
    &&& specs.len() == mirrored_names(refs).len()
    &&& forall|i: int|
        0 <= i < specs.len() ==> (#[trigger] specs[i] matches Refspec::Mirror { name }
            && name@ == mirrored_names(refs)[i])
}

/// The references of a listing that could be read and have a name, in order.
pub open spec fn named(listing: Seq<Option<Refname>>) -> Seq<Refname>
    decreases listing.len(),
{
    if listing.len() == 0 {
        seq![]
    } else {
        let rest = named(listing.drop_last());
        match listing.last() {
            Some(r) => rest.push(r),
            None => rest,
        }
    }
}

proof fn lemma_reverse_push(s: Seq<Refname>, x: Refname)
    ensures
        s.push(x).reverse() =~= seq![x] + s.reverse(),
{
}

/// Keeps the references of a listing of the local repository that could be
/// read and have a name, in the order of the listing.
pub fn collect_refs(listing: Vec<Option<Refname>>) -> (r: Vec<Refname>)
    ensures
        r@ == named(listing@),
{
    let ghost all = listing@;
    let mut listing = listing;
    let mut rev: Vec<Refname> = Vec::new();
    while listing.len() > 0
        invariant
            named(all) == named(listing@) + rev@.reverse(),
        decreases listing@.len(),
    {
        let ghost before = listing@;
        let ghost rev0 = rev@;
        let item = listing.pop();
        assert(listing@ =~= before.drop_last());
        match item {
            Some(Some(r)) => {
                rev.push(r);
                proof {
                    lemma_reverse_push(rev0, r);
                }
                assert(named(before) + rev0.reverse() =~= named(listing@) + rev@.reverse());
            },
            _ => {},
        }
    }
    assert(named(listing@) =~= Seq::<Refname>::empty());
    let mut out: Vec<Refname> = Vec::new();
    while rev.len() > 0
        invariant
            out@ + rev@.reverse() == named(all),
        decreases rev@.len(),
    {
        let ghost rev0 = rev@;
        let item = rev.pop();
        match item {
            Some(r) => {
                proof {
                    lemma_reverse_push(rev@, r);
                    assert(rev0 =~= rev@.push(r));
                }
                out.push(r);
                assert(out@ + rev@.reverse() =~= out@.drop_last() + (seq![r] + rev@.reverse()));
            },
            None => {},
        }
    }
    assert(out@ + rev@.reverse() =~= out@);
    out
}

/// Builds the single batched push that forces every local, remote-tracking
/// and virtual branch reference onto the reference of the same name on the
/// remote.
pub fn push_all_refs(refs: &Vec<Refname>) -> (r: Vec<Refspec>)
    ensures
        is_mirror_push(r@, refs@),
{
    let mut out: Vec<Refspec> = Vec::new();
    let mut i: usize = 0;
    while i < refs.len()
        invariant
            i <= refs@.len(),
            is_mirror_push(out@, refs@.take(i as int)),
        decreases refs@.len() - i,
    {
        let r = &refs[i];
        proof {
            assert(refs@.take(i + 1).drop_last() =~= refs@.take(i as int));
            assert(refs@.take(i + 1).last() == refs@[i as int]);
        }
        if r.kind != RefKind::Other {
            out.push(Refspec::Mirror { name: r.name.clone() });
        }
        i += 1;
    }
    assert(refs@.take(refs@.len() as int) =~= refs@);
    out
}

} // verus!
