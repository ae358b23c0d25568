use vstd::prelude::*;
use vstd::string::StrSliceExecFns;

use crate::tree::{
    lemma_view_use_vec, view_strings, view_use, view_use_vec, view_uses, UseTreeNode, UseTreeV,
};

verus! {

broadcast use vstd::std_specs::vec::axiom_vec_index_decreases;

// ===================== the self-relative marker =====================

/// The reserved leading path segment that means "relative to the root of the
/// current crate's own module tree".
pub open spec fn marker() -> Seq<char> {
    seq!['c', 'r', 'a', 't', 'e']
}

/// Decides whether `s` is the self-relative marker.
pub fn is_marker(s: &String) -> (b: bool)
    ensures
        b == (s@ == marker()),
{
    let st = s.as_str();
    if st.unicode_len() != 5 {
        return false;
    }
    let b = st.get_char(0) == 'c' && st.get_char(1) == 'r' && st.get_char(2) == 'a' && st.get_char(
        3,
    ) == 't' && st.get_char(4) == 'e';
    proof {
        if b {
            assert(s@ =~= marker());
        }
    }
    b
}

/// Decides whether a qualifier is empty, that is, names the root crate.
pub fn qual_is_root(q: &String) -> (b: bool)
    ensures
        b == (q@.len() == 0),
{
    q.as_str().unicode_len() == 0
}

// ===================== paths in expression and type position =====================

/// Rewrite of one self-relative path, given the crate qualifier (empty for
/// the root crate). A path whose leading segment is not the marker is left
/// unchanged. For the root crate the leading marker is stripped, promoting
/// the remaining segments; for a dependency crate the qualifier segment is
/// inserted directly after the marker, since the crate's contents end up one
/// level beneath its namespace container.
pub open spec fn rewrite_segs(segs: Seq<Seq<char>>, q: Seq<char>) -> Seq<Seq<char>>
    decreases segs.len(),
{
    if segs.len() >= 1 && segs[0] == marker() {
        if q.len() == 0 {
            if segs.len() >= 2 {
                rewrite_segs(segs.drop_first(), q)
            } else {
                segs
            }
        } else {
            seq![segs[0], q] + segs.drop_first()
        }
    } else {
        segs
    }
}

/// Rewrites the segments of one path in expression or type position.
/// Visibility-scope qualifiers are a distinct grammar position and must never
/// be handed to this function.
pub fn rewrite_path_segments(segs: Vec<String>, qual: &String) -> (r: Vec<String>)
    ensures
        view_strings(r@) == rewrite_segs(view_strings(segs@), qual@),
    decreases segs@.len(),
{
    let ghost orig: Seq<Seq<char>> = view_strings(segs@);
    let mut segs = segs;
    if segs.len() >= 1 && is_marker(&segs[0]) {
        if qual_is_root(qual) {
            if segs.len() >= 2 {
                segs.remove(0);
                proof {
                    assert(view_strings(segs@) =~= orig.drop_first());
                }
                rewrite_path_segments(segs, qual)
            } else {
                segs
            }
        } else {
            segs.insert(1, qual.clone());
            proof {
                assert(view_strings(segs@) =~= seq![orig[0], qual@] + orig.drop_first());
            }
            segs
        }
    } else {
        segs
    }
}

// ===================== import trees =====================

/// Rewrite of an import tree, given the crate qualifier. Each path node whose
/// segment is the marker is rewritten as `rewrite_segs` does for a leading
/// segment: stripped for the root crate (rewriting continues on what
/// remains), or followed by an inserted qualifier segment for a dependency
/// crate. Rewriting recurses through nested groups and subtrees without
/// disturbing other segments.
pub open spec fn rewrite_use(u: UseTreeV, q: Seq<char>) -> UseTreeV
    decreases u, 0int,
{
    match u {
        UseTreeV::Path { ident, sub } => {
            if ident == marker() {
                if q.len() == 0 {
                    rewrite_use(*sub, q)
                } else {
                    UseTreeV::Path {
                        ident,
                        sub: Box::new(
                            UseTreeV::Path { ident: q, sub: Box::new(rewrite_use(*sub, q)) },
                        ),
                    }
                }
            } else {
                UseTreeV::Path { ident, sub: Box::new(rewrite_use(*sub, q)) }
            }
        },
        UseTreeV::Group { items } => UseTreeV::Group { items: rewrite_uses_from(items, q, 0) },
        _ => u,
    }
}

/// Rewrites of the import trees of `items` from index `i` on.
pub open spec fn rewrite_uses_from(items: Seq<UseTreeV>, q: Seq<char>, i: int) -> Seq<UseTreeV>
    decreases items, items.len() - i,
{
    if i < 0 || i >= items.len() {
        Seq::empty()
    } else {
        seq![rewrite_use(items[i], q)] + rewrite_uses_from(items, q, i + 1)
    }
}

/// The pointwise form of `rewrite_uses_from`.
pub open spec fn rewrite_uses(items: Seq<UseTreeV>, q: Seq<char>) -> Seq<UseTreeV> {
    Seq::new(items.len(), |i: int| rewrite_use(items[i], q))
}

/// The index-recursive rewrites agree with the pointwise rewrites.
pub proof fn lemma_rewrite_uses_from(items: Seq<UseTreeV>, q: Seq<char>, i: int)
    requires
        0 <= i <= items.len(),
    ensures
        rewrite_uses_from(items, q, i) == rewrite_uses(items, q).subrange(i, items.len() as int),
    decreases items.len() - i,
{
    if i < items.len() {
        lemma_rewrite_uses_from(items, q, i + 1);
    }
    assert(rewrite_uses_from(items, q, i) =~= rewrite_uses(items, q).subrange(
        i,
        items.len() as int,
    ));
}

/// Rewrites one import tree.
pub fn rewrite_use_tree(u: &UseTreeNode, qual: &String) -> (r: UseTreeNode)
    ensures
        r@ == rewrite_use(u@, qual@),
    decreases u, 0int,
{
    match u {
        UseTreeNode::Path { ident, sub } => {
            if is_marker(ident) {
                if qual_is_root(qual) {
                    rewrite_use_tree(&**sub, qual)
                } else {
                    let inner = rewrite_use_tree(&**sub, qual);
                    let r = UseTreeNode::Path {
                        ident: ident.clone(),
                        sub: Box::new(
                            UseTreeNode::Path { ident: qual.clone(), sub: Box::new(inner) },
                        ),
                    };
                    proof {
                        reveal_with_fuel(view_use, 3);
                    }
                    r
                }
            } else {
                let inner = rewrite_use_tree(&**sub, qual);
                UseTreeNode::Path { ident: ident.clone(), sub: Box::new(inner) }
            }
        },
        UseTreeNode::Name { ident } => UseTreeNode::Name { ident: ident.clone() },
        UseTreeNode::Rename { ident, alias } => UseTreeNode::Rename {
            ident: ident.clone(),
            alias: alias.clone(),
        },
        UseTreeNode::Glob => UseTreeNode::Glob,
        UseTreeNode::Group { items } => {
            let rewritten = rewrite_use_trees(items, qual, 0);
            proof {
                lemma_view_use_vec(rewritten, 0);
                lemma_view_use_vec(*items, 0);
                lemma_rewrite_uses_from(view_uses(items@), qual@, 0);
                assert(view_uses(rewritten@).subrange(0, rewritten@.len() as int) =~= view_uses(
                    rewritten@,
                ));
                assert(view_uses(items@).subrange(0, items@.len() as int) =~= view_uses(items@));
                assert(rewrite_uses(view_uses(items@), qual@).subrange(
                    0,
                    view_uses(items@).len() as int,
                ) =~= rewrite_uses(view_uses(items@), qual@));
                assert(view_uses(rewritten@) =~= rewrite_uses(view_uses(items@), qual@));
            }
            UseTreeNode::Group { items: rewritten }
        },
    }
}

// ===================== idempotence laws =====================

/// True when no path node of `u` carries the marker segment.
pub open spec fn use_free_of_marker(u: UseTreeV) -> bool
    decreases u, 0int,
{
    match u {
        UseTreeV::Path { ident, sub } => ident != marker() && use_free_of_marker(*sub),
        UseTreeV::Group { items } => uses_free_of_marker_from(items, 0),
        _ => true,
    }
}

/// True when no path node of `items[i..]` carries the marker segment.
pub open spec fn uses_free_of_marker_from(items: Seq<UseTreeV>, i: int) -> bool
    decreases items, items.len() - i,
{
    if i < 0 || i >= items.len() {
        true
    } else {
        use_free_of_marker(items[i]) && uses_free_of_marker_from(items, i + 1)
    }
}

/// Freedom of the marker over a run of import trees is the pointwise freedom.
pub proof fn lemma_uses_free_pointwise(items: Seq<UseTreeV>, i: int)
    requires
        0 <= i <= items.len(),
    ensures
        uses_free_of_marker_from(items, i) <==> (forall|j: int|
            i <= j < items.len() ==> use_free_of_marker(items[j])),
    decreases items.len() - i,
{
    if i < items.len() {
        lemma_uses_free_pointwise(items, i + 1);
    }
}

/// Rewriting for the root crate leaves no marker behind: every leading
/// marker is stripped, at every depth of the tree.
pub proof fn lemma_rewrite_use_root_free(u: UseTreeV)
    ensures
        use_free_of_marker(rewrite_use(u, Seq::empty())),
    decreases u, 0int,
{
    let e = Seq::<char>::empty();
    match u {
        UseTreeV::Path { ident, sub } => {
            lemma_rewrite_use_root_free(*sub);
        },
        UseTreeV::Group { items } => {
            lemma_rewrite_uses_from(items, e, 0);
            let rewritten = rewrite_uses_from(items, e, 0);
            assert(rewrite_uses(items, e).subrange(0, items.len() as int) =~= rewrite_uses(
                items,
                e,
            ));
            assert forall|j: int| 0 <= j < rewritten.len() implies use_free_of_marker(
                rewritten[j],
            ) by {
                lemma_rewrite_use_root_free(items[j]);
            }
            lemma_uses_free_pointwise(rewritten, 0);
        },
        _ => {},
    }
}

/// An import tree free of the marker is left unchanged by rewriting, for any
/// qualifier.
pub proof fn lemma_rewrite_use_noop(u: UseTreeV, q: Seq<char>)
    requires
        use_free_of_marker(u),
    ensures
        rewrite_use(u, q) == u,
    decreases u, 0int,
{
    match u {
        UseTreeV::Path { ident, sub } => {
            lemma_rewrite_use_noop(*sub, q);
        },
        UseTreeV::Group { items } => {
            lemma_rewrite_uses_from(items, q, 0);
            lemma_uses_free_pointwise(items, 0);
            assert forall|j: int| 0 <= j < items.len() implies rewrite_use(items[j], q)
                == items[j] by {
                lemma_rewrite_use_noop(items[j], q);
            }
            assert(rewrite_uses_from(items, q, 0) =~= items);
        },
        _ => {},
    }
}

/// Law: rewriting for the root crate is idempotent. Re-running the rewriter
/// on an already-rewritten import tree produces no further change.
pub proof fn lemma_rewrite_use_idempotent_root(u: UseTreeV)
    ensures
        rewrite_use(rewrite_use(u, Seq::empty()), Seq::empty()) == rewrite_use(u, Seq::empty()),
{
    lemma_rewrite_use_root_free(u);
    lemma_rewrite_use_noop(rewrite_use(u, Seq::empty()), Seq::empty());
}

/// Law: a path that does not begin with the marker is left unchanged by the
/// rewriter, whatever the qualifier; re-running the rewriter on such a path
/// therefore produces no further change.
pub proof fn lemma_rewrite_segs_noop(segs: Seq<Seq<char>>, q: Seq<char>)
    requires
        segs.len() == 0 || segs[0] != marker(),
    ensures
        rewrite_segs(segs, q) == segs,
{
}

/// Law: rewriting a path for the root crate is idempotent. Re-running the
/// rewriter on an already-rewritten path produces no further change.
pub proof fn lemma_rewrite_segs_idempotent_root(segs: Seq<Seq<char>>)
    ensures
        rewrite_segs(rewrite_segs(segs, Seq::empty()), Seq::empty()) == rewrite_segs(
            segs,
            Seq::empty(),
        ),
    decreases segs.len(),
{
    if segs.len() >= 2 && segs[0] == marker() {
        lemma_rewrite_segs_idempotent_root(segs.drop_first());
    }
}

/// Rewrites the import trees of `v` from index `i` on.
pub fn rewrite_use_trees(v: &Vec<UseTreeNode>, qual: &String, i: usize) -> (r: Vec<UseTreeNode>)
    requires
        i <= v@.len(),
    ensures
        r@.len() == v@.len() - i,
        forall|j: int|
            0 <= j < r@.len() ==> view_use(r@[j]) == rewrite_use(view_use(v@[i + j]), qual@),
    decreases v, v@.len() - i,
{
    if i >= v.len() {
        Vec::new()
    } else {
        let mut rest = rewrite_use_trees(v, qual, i + 1);
        rest.insert(0, rewrite_use_tree(&v[i], qual));
        rest
    }
}

} // verus!
