use vstd::prelude::*;

verus! {

broadcast use vstd::std_specs::vec::axiom_vec_index_decreases;

// ===================== mathematical model =====================

/// Spec-level form of an import tree: the nested path structure carried by
/// one import declaration.
#[verifier::ext_equal]
pub enum UseTreeV {
    /// A path segment followed by the rest of the tree (`a::rest`).
    Path { ident: Seq<char>, sub: Box<UseTreeV> },
    /// A final plain name (`a`).
    Name { ident: Seq<char> },
    /// A final renamed name (`a as b`).
    Rename { ident: Seq<char>, alias: Seq<char> },
    /// A final glob (`*`).
    Glob,
    /// A braced group of subtrees (`{a, b::c}`).
    Group { items: Seq<UseTreeV> },
}

/// Spec-level form of one declaration.
#[verifier::ext_equal]
pub enum DeclV {
    /// A module declaration: its name, the optional explicit relative file
    /// path given by an attribute, and the inline body if one is present.
    /// `meta` is an opaque handle to the surrounding syntax (attributes,
    /// visibility) that the consolidation never interprets.
    Module { name: Seq<char>, path_attr: Option<Seq<Seq<char>>>, body: Option<TreeV>, meta: int },
    /// An import declaration carrying a nested import tree.
    Import { tree: UseTreeV, meta: int },
    /// An external-dependency declaration naming the referenced crate.
    ExternCrateRef { name: Seq<char>, meta: int },
    /// Any other declaration: opaque, passed through unchanged.
    Other { meta: int },
}

/// Spec-level form of a source tree: the ordered declarations of one parsed
/// file or inline module body, plus an opaque handle to the file's root
/// attribute list.
#[verifier::ext_equal]
pub struct TreeV {
    pub meta: int,
    pub decls: Seq<DeclV>,
}

// ===================== executable model =====================

/// An import tree: the nested path structure carried by one import
/// declaration.
#[derive(Debug, PartialEq, Eq)]
pub enum UseTreeNode {
    /// A path segment followed by the rest of the tree (`a::rest`).
    Path { ident: String, sub: Box<UseTreeNode> },
    /// A final plain name (`a`).
    Name { ident: String },
    /// A final renamed name (`a as b`).
    Rename { ident: String, alias: String },
    /// A final glob (`*`).
    Glob,
    /// A braced group of subtrees (`{a, b::c}`).
    Group { items: Vec<UseTreeNode> },
}

/// One declaration of a source tree.
#[derive(Debug, PartialEq, Eq)]
pub enum Decl {
    /// A module declaration. `path_attr` holds the components of an explicit
    /// relative file path given by an attribute, if any; `body` holds the
    /// inline body if one is present. `meta` is an opaque handle to the
    /// surrounding syntax that the consolidation passes through unchanged.
    Module { name: String, path_attr: Option<Vec<String>>, body: Option<SourceTree>, meta: u64 },
    /// An import declaration.
    Import { tree: UseTreeNode, meta: u64 },
    /// An external-dependency declaration naming the referenced crate.
    ExternCrateRef { name: String, meta: u64 },
    /// Any other declaration: opaque, passed through unchanged.
    Other { meta: u64 },
}

/// A source tree: the ordered declarations of one parsed file or inline
/// module body, plus an opaque handle to the file's root attribute list.
#[derive(Debug, PartialEq, Eq)]
pub struct SourceTree {
    pub meta: u64,
    pub decls: Vec<Decl>,
}

// ===================== views =====================

/// The views of a sequence of strings.
pub open spec fn view_strings(s: Seq<String>) -> Seq<Seq<char>> {
    Seq::new(s.len(), |i: int| s[i]@)
}

/// The view of an optional explicit file path.
pub open spec fn view_opt_path(p: Option<Vec<String>>) -> Option<Seq<Seq<char>>> {
    match p {
        Some(v) => Some(view_strings(v@)),
        None => None,
    }
}

/// The view of an import tree.
pub open spec fn view_use(u: UseTreeNode) -> UseTreeV
    decreases u, 0int,
{
    match u {
        UseTreeNode::Path { ident, sub } => UseTreeV::Path {
            ident: ident@,
            sub: Box::new(view_use(*sub)),
        },
        UseTreeNode::Name { ident } => UseTreeV::Name { ident: ident@ },
        UseTreeNode::Rename { ident, alias } => UseTreeV::Rename {
            ident: ident@,
            alias: alias@,
        },
        UseTreeNode::Glob => UseTreeV::Glob,
        UseTreeNode::Group { items } => UseTreeV::Group { items: view_use_vec(items, 0) },
    }
}

/// The views of the import trees of `v` from index `i` on.
pub open spec fn view_use_vec(v: Vec<UseTreeNode>, i: int) -> Seq<UseTreeV>
    decreases v, v@.len() - i,
{
    if i < 0 || i >= v@.len() {
        Seq::empty()
    } else {
        seq![view_use(v@[i])] + view_use_vec(v, i + 1)
    }
}

/// The views of a sequence of import trees.
pub open spec fn view_uses(s: Seq<UseTreeNode>) -> Seq<UseTreeV> {
    Seq::new(s.len(), |i: int| view_use(s[i]))
}

/// The view of one declaration.
pub open spec fn view_decl(d: Decl) -> DeclV
    decreases d, 0int,
{
    match d {
        Decl::Module { name, path_attr, body, meta } => DeclV::Module {
            name: name@,
            path_attr: view_opt_path(path_attr),
            body: match body {
                Some(b) => Some(view_tree(b)),
                None => None,
            },
            meta: meta as int,
        },
        Decl::Import { tree, meta } => DeclV::Import { tree: view_use(tree), meta: meta as int },
        Decl::ExternCrateRef { name, meta } => DeclV::ExternCrateRef {
            name: name@,
            meta: meta as int,
        },
        Decl::Other { meta } => DeclV::Other { meta: meta as int },
    }
}

/// The views of a sequence of declarations.
pub open spec fn view_decls(s: Seq<Decl>) -> Seq<DeclV> {
    Seq::new(s.len(), |i: int| view_decl(s[i]))
}

/// The views of the declarations of `v` from index `i` on.
pub open spec fn view_decls_vec(v: Vec<Decl>, i: int) -> Seq<DeclV>
    decreases v, v@.len() - i,
{
    if i < 0 || i >= v@.len() {
        Seq::empty()
    } else {
        seq![view_decl(v@[i])] + view_decls_vec(v, i + 1)
    }
}

/// The view of a source tree.
pub open spec fn view_tree(t: SourceTree) -> TreeV
    decreases t, 0int,
{
    TreeV { meta: t.meta as int, decls: view_decls_vec(t.decls, 0) }
}

/// The index-recursive views agree with the pointwise views.
pub proof fn lemma_view_decls_vec(v: Vec<Decl>, i: int)
    requires
        0 <= i <= v@.len(),
    ensures
        view_decls_vec(v, i) == view_decls(v@).subrange(i, v@.len() as int),
    decreases v@.len() - i,
{
    if i < v@.len() {
        lemma_view_decls_vec(v, i + 1);
    }
    assert(view_decls_vec(v, i) =~= view_decls(v@).subrange(i, v@.len() as int));
}

/// The view of a source tree is the pointwise view of its declarations.
pub proof fn lemma_view_tree(t: SourceTree)
    ensures
        view_tree(t).decls == view_decls(t.decls@),
        view_tree(t).meta == t.meta as int,
{
    lemma_view_decls_vec(t.decls, 0);
    assert(view_decls(t.decls@).subrange(0, t.decls@.len() as int) =~= view_decls(t.decls@));
}

/// The index-recursive views of import trees agree with the pointwise views.
pub proof fn lemma_view_use_vec(v: Vec<UseTreeNode>, i: int)
    requires
        0 <= i <= v@.len(),
    ensures
        view_use_vec(v, i) == view_uses(v@).subrange(i, v@.len() as int),
    decreases v@.len() - i,
{
    if i < v@.len() {
        lemma_view_use_vec(v, i + 1);
    }
    assert(view_use_vec(v, i) =~= view_uses(v@).subrange(i, v@.len() as int));
}

impl View for UseTreeNode {
    type V = UseTreeV;

    open spec fn view(&self) -> UseTreeV {
        view_use(*self)
    }
}

impl View for Decl {
    type V = DeclV;

    open spec fn view(&self) -> DeclV {
        view_decl(*self)
    }
}

impl View for SourceTree {
    type V = TreeV;

    open spec fn view(&self) -> TreeV {
        view_tree(*self)
    }
}

/// Views distribute over concatenation of declaration runs.
pub proof fn lemma_view_decls_concat(a: Seq<Decl>, b: Seq<Decl>)
    ensures
        view_decls(a + b) == view_decls(a) + view_decls(b),
{
    assert(view_decls(a + b) =~= view_decls(a) + view_decls(b));
}

/// Views distribute over concatenation of string runs.
pub proof fn lemma_view_strings_concat(a: Seq<String>, b: Seq<String>)
    ensures
        view_strings(a + b) == view_strings(a) + view_strings(b),
{
    assert(view_strings(a + b) =~= view_strings(a) + view_strings(b));
}

// ===================== deep copies =====================

/// Deep copy of the strings of `v` from index `i` on.
pub fn clone_strings(v: &Vec<String>, i: usize) -> (r: Vec<String>)
    requires
        i <= v@.len(),
    ensures
        r@ == v@.subrange(i as int, v@.len() as int),
    decreases v@.len() - i,
{
    if i >= v.len() {
        let r: Vec<String> = Vec::new();
        assert(r@ =~= v@.subrange(i as int, v@.len() as int));
        r
    } else {
        let mut rest = clone_strings(v, i + 1);
        rest.insert(0, v[i].clone());
        assert(rest@ =~= v@.subrange(i as int, v@.len() as int));
        rest
    }
}

// ===================== sizes =====================

/// The number of nodes of a source tree; the measure that bounds the
/// traversal of material that is already in memory.
pub open spec fn size_tree(t: TreeV) -> nat
    decreases t, 0int,
{
    1 + size_decls_from(t.decls, 0)
}

/// The combined size of the declarations of `s` from index `i` on.
pub open spec fn size_decls_from(s: Seq<DeclV>, i: int) -> nat
    decreases s, s.len() - i,
{
    if i < 0 || i >= s.len() {
        1
    } else {
        size_decl(s[i]) + size_decls_from(s, i + 1)
    }
}

/// The number of nodes of one declaration.
pub open spec fn size_decl(d: DeclV) -> nat
    decreases d, 0int,
{
    match d {
        DeclV::Module { body: Some(b), .. } => 1 + size_tree(b),
        _ => 1,
    }
}

// ===================== tree properties =====================

/// True when every module of the tree carries an inline body and no
/// external-dependency declaration is left, at any depth.
pub open spec fn tree_fully_expanded(t: TreeV) -> bool
    decreases t, 0int,
{
    decls_fully_expanded_from(t.decls, 0)
}

/// True when every declaration of `s[i..]` is fully expanded.
pub open spec fn decls_fully_expanded_from(s: Seq<DeclV>, i: int) -> bool
    decreases s, s.len() - i,
{
    if i < 0 || i >= s.len() {
        true
    } else {
        decl_fully_expanded(s[i]) && decls_fully_expanded_from(s, i + 1)
    }
}

/// True when the declaration is neither a file-backed module nor an
/// external-dependency declaration, down to any depth.
pub open spec fn decl_fully_expanded(d: DeclV) -> bool
    decreases d, 0int,
{
    match d {
        DeclV::Module { body, .. } => match body {
            Some(b) => tree_fully_expanded(b),
            None => false,
        },
        DeclV::ExternCrateRef { .. } => false,
        _ => true,
    }
}

/// Full expansion of a run of declarations is the pointwise full expansion.
pub proof fn lemma_decls_fully_expanded_pointwise(s: Seq<DeclV>, i: int)
    requires
        0 <= i <= s.len(),
    ensures
        decls_fully_expanded_from(s, i) <==> (forall|j: int|
            i <= j < s.len() ==> decl_fully_expanded(s[j])),
    decreases s.len() - i,
{
    if i < s.len() {
        lemma_decls_fully_expanded_pointwise(s, i + 1);
    }
}

/// True when every module of the tree carries an inline body, at any depth;
/// external-dependency declarations may remain.
pub open spec fn tree_all_inline(t: TreeV) -> bool
    decreases t, 0int,
{
    decls_all_inline_from(t.decls, 0)
}

/// True when every module among `s[i..]` carries an inline body.
pub open spec fn decls_all_inline_from(s: Seq<DeclV>, i: int) -> bool
    decreases s, s.len() - i,
{
    if i < 0 || i >= s.len() {
        true
    } else {
        decl_all_inline(s[i]) && decls_all_inline_from(s, i + 1)
    }
}

/// True when the declaration is not a file-backed module, down to any depth.
pub open spec fn decl_all_inline(d: DeclV) -> bool
    decreases d, 0int,
{
    match d {
        DeclV::Module { body, .. } => match body {
            Some(b) => tree_all_inline(b),
            None => false,
        },
        _ => true,
    }
}

/// The names of the external-dependency declarations of the tree, in the
/// order a depth-first walk meets them.
pub open spec fn externs_tree(t: TreeV) -> Seq<Seq<char>>
    decreases t, 0int,
{
    externs_decls_from(t.decls, 0)
}

/// The external-dependency names among `s[i..]`, in walk order.
pub open spec fn externs_decls_from(s: Seq<DeclV>, i: int) -> Seq<Seq<char>>
    decreases s, s.len() - i,
{
    if i < 0 || i >= s.len() {
        Seq::empty()
    } else {
        externs_decl(s[i]) + externs_decls_from(s, i + 1)
    }
}

/// The external-dependency names of one declaration, in walk order.
pub open spec fn externs_decl(d: DeclV) -> Seq<Seq<char>>
    decreases d, 0int,
{
    match d {
        DeclV::ExternCrateRef { name, .. } => seq![name],
        DeclV::Module { body: Some(b), .. } => externs_tree(b),
        _ => Seq::empty(),
    }
}

} // verus!
