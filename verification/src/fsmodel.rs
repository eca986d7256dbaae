//! The mathematical model of the per-user file tree, keyed by resolved
//! virtual paths (lists of plain segments). The embedding program performs
//! the operations the state machine asks for against the real disk; the
//! model says what each operation means, and the laws below hold of any run
//! made of these operations.
use vstd::prelude::*;

verus! {

/// One node of the tree: a directory or a file with its bytes.
pub enum FsNode {
    Dir,
    File(Seq<u8>),
}

/// Is `p` a (not necessarily proper) prefix of `q`?
pub open spec fn is_prefix_of(p: Seq<Seq<u8>>, q: Seq<Seq<u8>>) -> bool {
    p.len() <= q.len() && q.subrange(0, p.len() as int) == p
}

/// The parent of `p` exists and is a directory (or `p` hangs directly off
/// the root).
pub open spec fn parent_ok(fs: Map<Seq<Seq<u8>>, FsNode>, p: Seq<Seq<u8>>) -> bool {
    p.len() == 1 || (fs.dom().contains(p.drop_last()) && fs[p.drop_last()] is Dir)
}

/// A well-formed tree: no entry at the root itself, and every entry hangs
/// off a directory.
pub open spec fn fs_wf(fs: Map<Seq<Seq<u8>>, FsNode>) -> bool {
    forall|p: Seq<Seq<u8>>|
        #[trigger] fs.dom().contains(p) ==> p.len() > 0 && parent_ok(fs, p)
}

/// MKD: create a directory; fails if the path exists already or the parent
/// is missing.
pub open spec fn fs_mkd(fs: Map<Seq<Seq<u8>>, FsNode>, p: Seq<Seq<u8>>) -> Option<
    Map<Seq<Seq<u8>>, FsNode>,
> {
    if p.len() > 0 && !fs.dom().contains(p) && parent_ok(fs, p) {
        Some(fs.insert(p, FsNode::Dir))
    } else {
        None
    }
}

/// Everything at or below `p`.
pub open spec fn subtree_keys(fs: Map<Seq<Seq<u8>>, FsNode>, p: Seq<Seq<u8>>) -> Set<
    Seq<Seq<u8>>,
> {
    fs.dom().filter(|q: Seq<Seq<u8>>| is_prefix_of(p, q))
}

/// RMD: recursive directory delete.
pub open spec fn fs_rmd(fs: Map<Seq<Seq<u8>>, FsNode>, p: Seq<Seq<u8>>) -> Option<
    Map<Seq<Seq<u8>>, FsNode>,
> {
    if fs.dom().contains(p) && fs[p] is Dir {
        Some(fs.remove_keys(subtree_keys(fs, p)))
    } else {
        None
    }
}

/// DELE: delete one file.
pub open spec fn fs_dele(fs: Map<Seq<Seq<u8>>, FsNode>, p: Seq<Seq<u8>>) -> Option<
    Map<Seq<Seq<u8>>, FsNode>,
> {
    if fs.dom().contains(p) && fs[p] is File {
        Some(fs.remove(p))
    } else {
        None
    }
}

/// STOR: create or truncate a file with the uploaded bytes.
pub open spec fn fs_stor(fs: Map<Seq<Seq<u8>>, FsNode>, p: Seq<Seq<u8>>, data: Seq<u8>) -> Option<
    Map<Seq<Seq<u8>>, FsNode>,
> {
    if p.len() > 0 && parent_ok(fs, p) && (!fs.dom().contains(p) || fs[p] is File) {
        Some(fs.insert(p, FsNode::File(data)))
    } else {
        None
    }
}

/// RETR: the bytes of a file.
pub open spec fn fs_retr(fs: Map<Seq<Seq<u8>>, FsNode>, p: Seq<Seq<u8>>) -> Option<Seq<u8>> {
    if fs.dom().contains(p) && fs[p] is File {
        Some(fs[p]->File_0)
    } else {
        None
    }
}

/// RNFR/RNTO: move the subtree at `a` to `b` in one step; fails without any
/// change if `a` is missing, `b` already exists, `b`'s parent is missing,
/// or `b` lies inside `a`.
pub open spec fn fs_rename(
    fs: Map<Seq<Seq<u8>>, FsNode>,
    a: Seq<Seq<u8>>,
    b: Seq<Seq<u8>>,
) -> Option<Map<Seq<Seq<u8>>, FsNode>> {
    if fs.dom().contains(a) && !fs.dom().contains(b) && b.len() > 0 && parent_ok(fs, b)
        && !is_prefix_of(a, b) {
        Some(
            Map::new(
                |k: Seq<Seq<u8>>|
                    (fs.dom().contains(k) && !is_prefix_of(a, k)) || (is_prefix_of(b, k)
                        && fs.dom().contains(a + k.skip(b.len() as int))),
                |k: Seq<Seq<u8>>|
                    if is_prefix_of(b, k) && fs.dom().contains(a + k.skip(b.len() as int)) {
                        fs[a + k.skip(b.len() as int)]
                    } else {
                        fs[k]
                    },
            ),
        )
    } else {
        None
    }
}

/// In a well-formed tree, every prefix of an entry is itself an entry: a
/// path whose prefix is missing cannot exist.
pub proof fn lemma_prefix_in_dom(fs: Map<Seq<Seq<u8>>, FsNode>, p: Seq<Seq<u8>>, q: Seq<Seq<u8>>)
    requires
        fs_wf(fs),
        fs.dom().contains(q),
        is_prefix_of(p, q),
        p.len() > 0,
    ensures
        fs.dom().contains(p),
    decreases q.len(),
{
    if p =~= q {
    } else {
        assert(p.len() < q.len());
        let parent = q.drop_last();
        assert(q.len() > 1);
        assert(fs.dom().contains(parent));
        assert(is_prefix_of(p, parent)) by {
            assert(parent.subrange(0, p.len() as int) =~= q.subrange(0, p.len() as int));
        }
        lemma_prefix_in_dom(fs, p, parent);
    }
}

/// Creating a directory and recursively removing it restores the tree
/// exactly: nothing else can have appeared below a fresh directory.
pub proof fn lemma_mkd_rmd_round_trip(fs: Map<Seq<Seq<u8>>, FsNode>, p: Seq<Seq<u8>>)
    requires
        fs_wf(fs),
        fs_mkd(fs, p) is Some,
    ensures
        fs_rmd(fs_mkd(fs, p)->Some_0, p) == Some(fs),
{
    let fs2 = fs_mkd(fs, p)->Some_0;
    assert(subtree_keys(fs2, p) =~= set![p]) by {
        assert forall|q: Seq<Seq<u8>>| #[trigger]
            fs2.dom().contains(q) && is_prefix_of(p, q) implies q == p by {
            if q != p {
                assert(fs.dom().contains(q));
                lemma_prefix_in_dom(fs, p, q);
            }
        }
        assert(is_prefix_of(p, p)) by {
            assert(p.subrange(0, p.len() as int) =~= p);
        }
    }
    assert(fs2.remove_keys(subtree_keys(fs2, p)) =~= fs);
}

/// A rename is atomic: when it succeeds the source subtree is gone and
/// stands at the target with the same contents; when it fails the tree is
/// untouched (no result is produced at all).
pub proof fn lemma_rename_atomic(fs: Map<Seq<Seq<u8>>, FsNode>, a: Seq<Seq<u8>>, b: Seq<Seq<u8>>)
    requires
        fs_wf(fs),
    ensures
        fs_rename(fs, a, b) matches Some(fs2) ==> {
            &&& !fs2.dom().contains(a)
            &&& fs2.dom().contains(b)
            &&& fs2[b] == fs[a]
            &&& forall|rest: Seq<Seq<u8>>|
                #[trigger] fs.dom().contains(a + rest) ==> fs2.dom().contains(b + rest) && fs2[b
                    + rest] == fs[a + rest]
        },
{
    if fs_rename(fs, a, b) is Some {
        let fs2 = fs_rename(fs, a, b)->Some_0;
        assert(is_prefix_of(a, a)) by {
            assert(a.subrange(0, a.len() as int) =~= a);
        }
        assert(!(is_prefix_of(b, a) && fs.dom().contains(a + a.skip(b.len() as int)))) by {
            if is_prefix_of(b, a) {
                lemma_prefix_in_dom(fs, b, a);
            }
        }
        assert(!fs2.dom().contains(a));
        assert forall|rest: Seq<Seq<u8>>| #[trigger]
            fs.dom().contains(a + rest) implies fs2.dom().contains(b + rest) && fs2[b + rest]
            == fs[a + rest] by {
            assert(is_prefix_of(b, b + rest)) by {
                assert((b + rest).subrange(0, b.len() as int) =~= b);
            }
            assert((b + rest).skip(b.len() as int) =~= rest);
        }
        assert(fs.dom().contains(a + Seq::<Seq<u8>>::empty())) by {
            assert(a + Seq::<Seq<u8>>::empty() =~= a);
        }
        assert(fs2.dom().contains(b + Seq::<Seq<u8>>::empty()));
        assert(b + Seq::<Seq<u8>>::empty() =~= b);
        assert(fs2[b] == fs[a]) by {
            assert(a + Seq::<Seq<u8>>::empty() =~= a);
        }
    }
}

/// How a download is sent: the file bytes, in bounded chunks.
pub open spec fn chunked(file: Seq<u8>, sz: nat) -> Seq<Seq<u8>>
    decreases file.len(),
    when sz > 0
{
    if file.len() == 0 {
        Seq::empty()
    } else if file.len() <= sz {
        seq![file]
    } else {
        seq![file.take(sz as int)] + chunked(file.skip(sz as int), sz)
    }
}

/// Chunking loses and reorders nothing: the chunks of a file flatten back
/// to the file.
pub proof fn lemma_chunked_flatten(file: Seq<u8>, sz: nat)
    requires
        sz > 0,
    ensures
        chunked(file, sz).flatten() == file,
    decreases file.len(),
{
    if file.len() == 0 {
        assert(chunked(file, sz).flatten() =~= file);
    } else if file.len() <= sz {
        assert(chunked(file, sz) == seq![file]);
        seq![file].lemma_flatten_one_element();
    } else {
        lemma_chunked_flatten(file.skip(sz as int), sz);
        let c = chunked(file, sz);
        assert(c.first() == file.take(sz as int));
        assert(c.drop_first() =~= chunked(file.skip(sz as int), sz));
        assert(c.flatten() == file.take(sz as int) + file.skip(sz as int));
        assert(file.take(sz as int) + file.skip(sz as int) =~= file);
    }
}

/// An upload that completes normally stores exactly the bytes the client
/// sent, and a following download returns them byte for byte, whatever
/// chunking either direction used.
pub proof fn lemma_stor_retr_round_trip(
    fs: Map<Seq<Seq<u8>>, FsNode>,
    p: Seq<Seq<u8>>,
    sent: Seq<Seq<u8>>,
    sz: nat,
)
    requires
        sz > 0,
        fs_stor(fs, p, sent.flatten()) is Some,
    ensures
        fs_retr(fs_stor(fs, p, sent.flatten())->Some_0, p) == Some(sent.flatten()),
        chunked(fs_retr(fs_stor(fs, p, sent.flatten())->Some_0, p)->Some_0, sz).flatten()
            == sent.flatten(),
{
    lemma_chunked_flatten(sent.flatten(), sz);
}

} // verus!
