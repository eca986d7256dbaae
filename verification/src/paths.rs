//! The virtual-filesystem jail. A resolved path is a list of plain segments
//! under the user's root: no `.` or `..` survives resolution, so a resolved
//! path can never name anything outside the root directory.
use vstd::prelude::*;
use vstd::slice::slice_to_vec;

use crate::command::{find_byte, lemma_split_on_no_sep, split_from, split_on, views};

verus! {

/// A plain path segment: nonempty, no slash, and neither `.` nor `..`.
pub open spec fn seg_plain(s: Seq<u8>) -> bool {
    &&& s.len() > 0
    &&& (forall|j: int| 0 <= j < s.len() ==> s[j] != 47)
    &&& s != seq![46u8]
    &&& s != seq![46u8, 46u8]
}

/// A well-formed virtual path: every segment is plain. Such a path always
/// names something at or below the root it is resolved against.
pub open spec fn path_wf(p: Seq<Seq<u8>>) -> bool {
    forall|j: int| 0 <= j < p.len() ==> seg_plain(p[j])
}

/// One resolution step: empty and `.` are skipped, `..` steps up and fails
/// at the root, anything else descends.
pub open spec fn apply_seg(base: Seq<Seq<u8>>, seg: Seq<u8>) -> Option<Seq<Seq<u8>>> {
    if seg.len() == 0 || seg == seq![46u8] {
        Some(base)
    } else if seg == seq![46u8, 46u8] {
        if base.len() > 0 {
            Some(base.drop_last())
        } else {
            None
        }
    } else {
        Some(base.push(seg))
    }
}

pub open spec fn apply_segs(base: Seq<Seq<u8>>, segs: Seq<Seq<u8>>) -> Option<Seq<Seq<u8>>>
    decreases segs.len(),
{
    if segs.len() == 0 {
        Some(base)
    } else {
        match apply_seg(base, segs[0]) {
            Some(b) => apply_segs(b, segs.drop_first()),
            None => None,
        }
    }
}

/// Resolution of a path argument against the current directory: a leading
/// slash starts from the root, anything else from the current directory.
pub open spec fn spec_resolve(cwd: Seq<Seq<u8>>, arg: Seq<u8>) -> Option<Seq<Seq<u8>>> {
    let base = if arg.len() > 0 && arg[0] == 47 {
        Seq::<Seq<u8>>::empty()
    } else {
        cwd
    };
    apply_segs(base, split_on(arg, 47))
}

proof fn lemma_apply_seg_wf(base: Seq<Seq<u8>>, seg: Seq<u8>)
    requires
        path_wf(base),
        forall|k: int| 0 <= k < seg.len() ==> seg[k] != 47,
    ensures
        apply_seg(base, seg) matches Some(p) ==> path_wf(p),
{
}

proof fn lemma_apply_segs_wf(base: Seq<Seq<u8>>, segs: Seq<Seq<u8>>)
    requires
        path_wf(base),
        forall|j: int, k: int| 0 <= j < segs.len() && 0 <= k < segs[j].len() ==> segs[j][k] != 47,
    ensures
        apply_segs(base, segs) matches Some(p) ==> path_wf(p),
    decreases segs.len(),
{
    if segs.len() > 0 {
        lemma_apply_seg_wf(base, segs[0]);
        match apply_seg(base, segs[0]) {
            Some(b) => {
                lemma_apply_segs_wf(b, segs.drop_first());
            },
            None => {},
        }
    }
}

/// No resolved path steps outside the root: whatever the argument, a path
/// that resolves at all is made of plain segments below the root, and an
/// argument that would climb above the root does not resolve.
pub proof fn lemma_resolve_stays_in_root(cwd: Seq<Seq<u8>>, arg: Seq<u8>)
    requires
        path_wf(cwd),
    ensures
        spec_resolve(cwd, arg) matches Some(p) ==> path_wf(p),
{
    lemma_split_on_no_sep(arg, 47);
    let base = if arg.len() > 0 && arg[0] == 47 {
        Seq::<Seq<u8>>::empty()
    } else {
        cwd
    };
    lemma_apply_segs_wf(base, split_on(arg, 47));
}

/// No filesystem operation can reach outside the root directory: the
/// physical form of a well-formed resolved path is the root followed by
/// its segments, each behind a single slash, and no segment is `.` or
/// `..` or contains a slash, so every step of the walk stays at or below
/// the root.
pub proof fn lemma_physical_stays_under_root(root: Seq<u8>, p: Seq<Seq<u8>>)
    requires
        path_wf(p),
    ensures
        (root + segs_prefixed(p)).subrange(0, root.len() as int) == root,
        forall|j: int|
            0 <= j < p.len() ==> (#[trigger] p[j]) != seq![46u8] && p[j] != seq![46u8, 46u8] && (
            forall|k: int| 0 <= k < p[j].len() ==> p[j][k] != 47),
{
    assert((root + segs_prefixed(p)).subrange(0, root.len() as int) =~= root);
    assert forall|j: int|
        0 <= j < p.len() implies (#[trigger] p[j]) != seq![46u8] && p[j] != seq![46u8, 46u8] && (
        forall|k: int| 0 <= k < p[j].len() ==> p[j][k] != 47) by {
        assert(seg_plain(p[j]));
    }
}

/// Copy a path.
pub fn clone_path(p: &Vec<Vec<u8>>) -> (r: Vec<Vec<u8>>)
    ensures
        views(r@) == views(p@),
{
    let mut r: Vec<Vec<u8>> = Vec::new();
    let mut j: usize = 0;
    while j < p.len()
        invariant
            j <= p@.len(),
            views(r@) == views(p@).subrange(0, j as int),
        decreases p@.len() - j,
    {
        let seg = slice_to_vec(p[j].as_slice());
        let ghost c = seg@;
        let ghost r0 = r@;
        proof {
            assert(views(r0).len() == r0.len());
            assert(r0.len() == j);
        }
        r.push(seg);
        proof {
            assert(c == views(p@)[j as int]);
            assert(r@ == r0.push(seg));
            assert forall|i: int| 0 <= i < j + 1 implies views(r@)[i] == views(p@).subrange(
                0,
                j + 1,
            )[i] by {
                if i < j {
                    assert(r@[i] == r0[i]);
                    assert(views(r0)[i] == views(p@).subrange(0, j as int)[i]);
                } else {
                    assert(r@[i]@ == c);
                }
            }
            assert(views(r@) =~= views(p@).subrange(0, j + 1));
        }
        j = j + 1;
    }
    proof {
        assert(views(p@).subrange(0, p@.len() as int) =~= views(p@));
    }
    r
}

/// Is this segment empty or `.`?
fn seg_skippable(s: &Vec<u8>) -> (r: bool)
    ensures
        r == (s@.len() == 0 || s@ == seq![46u8]),
{
    let r = s.len() == 0 || (s.len() == 1 && s[0] == 46);
    proof {
        if s@.len() == 1 && s@[0] == 46 {
            assert(s@ =~= seq![46u8]);
        }
    }
    r
}

/// Is this segment `..`?
fn seg_parent(s: &Vec<u8>) -> (r: bool)
    ensures
        r == (s@ == seq![46u8, 46u8]),
{
    let r = s.len() == 2 && s[0] == 46 && s[1] == 46;
    proof {
        if s@.len() == 2 && s@[0] == 46 && s@[1] == 46 {
            assert(s@ =~= seq![46u8, 46u8]);
        }
    }
    r
}

/// Resolve a path argument against the current directory, refusing anything
/// that would leave the root.
pub fn resolve(cwd: &Vec<Vec<u8>>, arg: &[u8]) -> (r: Option<Vec<Vec<u8>>>)
    ensures
        match r {
            Some(p) => spec_resolve(views(cwd@), arg@) == Some(views(p@)),
            None => spec_resolve(views(cwd@), arg@) is None,
        },
{
    let mut cur: Vec<Vec<u8>> = if arg.len() > 0 && arg[0] == 47 {
        Vec::new()
    } else {
        clone_path(cwd)
    };
    let ghost base = views(cur@);
    let ghost all = split_on(arg@, 47);
    proof {
        assert(arg@.subrange(0, arg@.len() as int) =~= arg@);
        if arg@.len() > 0 && arg@[0] == 47 {
            assert(base =~~= Seq::<Seq<u8>>::empty());
        }
        assert(spec_resolve(views(cwd@), arg@) == apply_segs(base, all));
        assert(all.skip(0) =~= all);
    }
    let segs = split_from(arg, 0, 47);
    let mut j: usize = 0;
    while j < segs.len()
        invariant
            j <= segs@.len(),
            views(segs@) == all,
            spec_resolve(views(cwd@), arg@) == apply_segs(base, all),
            apply_segs(base, all) == apply_segs(views(cur@), all.skip(j as int)),
        decreases segs@.len() - j,
    {
        let ghost before = views(cur@);
        proof {
            assert(all.skip(j as int)[0] == all[j as int]);
            assert(all.skip(j as int).drop_first() =~= all.skip(j + 1));
        }
        let seg = &segs[j];
        if seg_skippable(seg) {
        } else if seg_parent(seg) {
            if cur.len() == 0 {
                proof {
                    assert(all[j as int] == seq![46u8, 46u8]);
                    assert(apply_segs(views(cur@), all.skip(j as int)) is None);
                }
                return None;
            }
            let ghost prev = views(cur@);
            let _ = cur.pop();
            proof {
                assert(views(cur@) =~= prev.drop_last());
            }
        } else {
            let copy = slice_to_vec(seg.as_slice());
            let ghost prev = views(cur@);
            cur.push(copy);
            proof {
                assert(views(cur@) =~= prev.push(seg@));
            }
        }
        j = j + 1;
    }
    proof {
        assert(all.skip(segs@.len() as int) =~= Seq::<Seq<u8>>::empty());
    }
    Some(cur)
}

/// The printed form of a virtual path: `/` for the root, else every segment
/// prefixed with a slash.
pub open spec fn segs_prefixed(p: Seq<Seq<u8>>) -> Seq<u8>
    decreases p.len(),
{
    if p.len() == 0 {
        Seq::empty()
    } else {
        seq![47u8] + p[0] + segs_prefixed(p.drop_first())
    }
}

pub open spec fn pwd_bytes(p: Seq<Seq<u8>>) -> Seq<u8> {
    if p.len() == 0 {
        seq![47u8]
    } else {
        segs_prefixed(p)
    }
}

/// Render the current directory for the PWD reply.
pub fn pwd_display(cwd: &Vec<Vec<u8>>) -> (r: Vec<u8>)
    ensures
        r@ == pwd_bytes(views(cwd@)),
{
    if cwd.len() == 0 {
        let mut r: Vec<u8> = Vec::new();
        r.push(47);
        assert(r@ =~= pwd_bytes(views(cwd@)));
        return r;
    }
    let mut r: Vec<u8> = Vec::new();
    proof {
        assert(views(cwd@).skip(0) =~~= views(cwd@));
        assert(r@ + segs_prefixed(views(cwd@)) =~= segs_prefixed(views(cwd@)));
    }
    let mut j: usize = 0;
    while j < cwd.len()
        invariant
            j <= cwd@.len(),
            segs_prefixed(views(cwd@)) == r@ + segs_prefixed(views(cwd@).skip(j as int)),
        decreases cwd@.len() - j,
    {
        let ghost before = r@;
        proof {
            assert(views(cwd@).skip(j as int)[0] == views(cwd@)[j as int]);
            assert(views(cwd@).skip(j as int).drop_first() =~= views(cwd@).skip(j + 1));
        }
        r.push(47);
        let mut seg = slice_to_vec(cwd[j].as_slice());
        r.append(&mut seg);
        proof {
            assert(r@ =~= before + (seq![47u8] + views(cwd@)[j as int]));
            assert(segs_prefixed(views(cwd@)) =~= r@ + segs_prefixed(views(cwd@).skip(j + 1)));
        }
        j = j + 1;
    }
    proof {
        assert(segs_prefixed(views(cwd@).skip(cwd@.len() as int)) =~= Seq::<u8>::empty());
        assert(r@ =~= r@ + Seq::<u8>::empty());
    }
    r
}

/// The last segment of a path, as the MKD reply quotes it.
pub fn basename(p: &Vec<Vec<u8>>) -> (r: Vec<u8>)
    requires
        p@.len() > 0,
    ensures
        r@ == views(p@).last(),
{
    slice_to_vec(p[p.len() - 1].as_slice())
}

/// The physical location of a resolved path: the root directory followed by
/// every segment behind a slash. Because every resolved path is plain (see
/// `lemma_resolve_stays_in_root`), this byte string always begins with the
/// root directory and never names anything above it.
pub fn physical_path(root: &[u8], p: &Vec<Vec<u8>>) -> (r: Vec<u8>)
    ensures
        r@ == root@ + segs_prefixed(views(p@)),
{
    let mut r = slice_to_vec(root);
    proof {
        assert(views(p@).skip(0) =~~= views(p@));
    }
    let mut j: usize = 0;
    while j < p.len()
        invariant
            j <= p@.len(),
            root@ + segs_prefixed(views(p@)) == r@ + segs_prefixed(views(p@).skip(j as int)),
        decreases p@.len() - j,
    {
        let ghost before = r@;
        proof {
            assert(views(p@).skip(j as int)[0] == views(p@)[j as int]);
            assert(views(p@).skip(j as int).drop_first() =~= views(p@).skip(j + 1));
        }
        r.push(47);
        let mut seg = slice_to_vec(p[j].as_slice());
        r.append(&mut seg);
        proof {
            assert(r@ =~= before + (seq![47u8] + views(p@)[j as int]));
            assert(root@ + segs_prefixed(views(p@)) =~= r@ + segs_prefixed(
                views(p@).skip(j + 1),
            ));
        }
        j = j + 1;
    }
    proof {
        assert(segs_prefixed(views(p@).skip(p@.len() as int)) =~= Seq::<u8>::empty());
        assert(r@ =~= r@ + Seq::<u8>::empty());
    }
    r
}

} // verus!
