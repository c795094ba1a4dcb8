//! The schema graph: identities, type nodes, and a keyed store of nodes with its map view.
use vstd::prelude::*;
use crate::error::CwmpError;

verus! {

/// What an identity names.
#[derive(Debug, Clone, Copy, PartialEq, Eq, Structural)]
pub enum IdentKind {
    Type,
    Element,
    ElementType,
    Attribute,
}

/// A (kind, namespace, name) triple; a canonical identity has no namespace.
#[derive(Debug)]
pub struct Ident {
    pub kind: IdentKind,
    pub namespace: Option<String>,
    pub name: String,
}

pub struct IdentV {
    pub kind: IdentKind,
    pub namespace: Option<Seq<char>>,
    pub name: Seq<char>,
}

impl View for Ident {
    type V = IdentV;

    open spec fn view(&self) -> IdentV {
        IdentV {
            kind: self.kind,
            namespace: match self.namespace {
                Some(n) => Some(n@),
                None => None,
            },
            name: self.name@,
        }
    }
}

#[derive(Debug, Clone, Copy, PartialEq, Eq, Structural)]
pub enum MaxOccurs {
    Unbounded,
    Bounded(u32),
}

#[derive(Debug, Clone, Copy, PartialEq, Eq, Structural)]
pub enum ElementMode {
    Element,
    Attribute,
}

#[derive(Debug, Clone, Copy, PartialEq, Eq, Structural)]
pub enum Form {
    Qualified,
    Unqualified,
}

/// An element or attribute of a group or of the top-level choices.
#[derive(Debug)]
pub struct ElementMeta {
    pub ident: Ident,
    pub type_: Ident,
    pub mode: ElementMode,
    pub form: Form,
    pub nillable: bool,
    pub min_occurs: u32,
    pub max_occurs: MaxOccurs,
}

pub struct ElementMetaV {
    pub ident: IdentV,
    pub type_: IdentV,
    pub mode: ElementMode,
    pub form: Form,
    pub nillable: bool,
    pub min_occurs: u32,
    pub max_occurs: MaxOccurs,
}

impl View for ElementMeta {
    type V = ElementMetaV;

    open spec fn view(&self) -> ElementMetaV {
        ElementMetaV {
            ident: self.ident@,
            type_: self.type_@,
            mode: self.mode,
            form: self.form,
            nillable: self.nillable,
            min_occurs: self.min_occurs,
            max_occurs: self.max_occurs,
        }
    }
}

/// How a complex type derives from another; `Plain` when it does not.
#[derive(Debug)]
pub enum Base {
    Plain,
    Extension(Ident),
    Restriction(Ident),
}

pub enum BaseV {
    Plain,
    Extension(IdentV),
    Restriction(IdentV),
}

#[derive(Debug)]
pub struct ComplexMeta {
    pub base: Base,
    pub content: Option<Ident>,
    pub min_occurs: u32,
    pub max_occurs: MaxOccurs,
    pub is_mixed: bool,
}

pub struct ComplexMetaV {
    pub base: BaseV,
    pub content: Option<IdentV>,
    pub min_occurs: u32,
    pub max_occurs: MaxOccurs,
    pub is_mixed: bool,
}

/// A node of the graph.
#[derive(Debug)]
pub enum MetaType {
    ComplexType(ComplexMeta),
    Sequence(Vec<ElementMeta>),
    Choice(Vec<ElementMeta>),
    Reference(Ident),
    Simple(Ident),
    Union(Vec<Ident>),
    BuiltIn(String),
}

pub enum MetaV {
    ComplexType(ComplexMetaV),
    Sequence(Seq<ElementMetaV>),
    Choice(Seq<ElementMetaV>),
    Reference(IdentV),
    Simple(IdentV),
    Union(Seq<IdentV>),
    BuiltIn(Seq<char>),
}

pub open spec fn element_views(s: Seq<ElementMeta>) -> Seq<ElementMetaV> {
    s.map_values(|e: ElementMeta| e@)
}

pub open spec fn ident_views(s: Seq<Ident>) -> Seq<IdentV> {
    s.map_values(|i: Ident| i@)
}

impl View for Base {
    type V = BaseV;

    open spec fn view(&self) -> BaseV {
        match self {
            Base::Plain => BaseV::Plain,
            Base::Extension(i) => BaseV::Extension(i@),
            Base::Restriction(i) => BaseV::Restriction(i@),
        }
    }
}

impl View for ComplexMeta {
    type V = ComplexMetaV;

    open spec fn view(&self) -> ComplexMetaV {
        ComplexMetaV {
            base: self.base@,
            content: match self.content {
                Some(c) => Some(c@),
                None => None,
            },
            min_occurs: self.min_occurs,
            max_occurs: self.max_occurs,
            is_mixed: self.is_mixed,
        }
    }
}

impl View for MetaType {
    type V = MetaV;

    open spec fn view(&self) -> MetaV {
        match self {
            MetaType::ComplexType(c) => MetaV::ComplexType(c@),
            MetaType::Sequence(s) => MetaV::Sequence(element_views(s@)),
            MetaType::Choice(s) => MetaV::Choice(element_views(s@)),
            MetaType::Reference(i) => MetaV::Reference(i@),
            MetaType::Simple(i) => MetaV::Simple(i@),
            MetaType::Union(s) => MetaV::Union(ident_views(s@)),
            MetaType::BuiltIn(n) => MetaV::BuiltIn(n@),
        }
    }
}

impl Ident {
    pub fn new(kind: IdentKind, namespace: Option<&str>, name: &str) -> (r: Ident)
        ensures
            r@.kind == kind,
            r@.namespace == (match namespace {
                Some(n) => Some(n@),
                None => None::<Seq<char>>,
            }),
            r@.name == name@,
    {
        Ident {
            kind,
            namespace: match namespace {
                Some(n) => Some(String::from_str(n)),
                None => None,
            },
            name: String::from_str(name),
        }
    }

    pub fn duplicate(&self) -> (r: Ident)
        ensures
            r@ == self@,
    {
        Ident {
            kind: self.kind,
            namespace: match &self.namespace {
                Some(n) => Some(n.clone()),
                None => None,
            },
            name: self.name.clone(),
        }
    }

    /// Whether two identities are the same triple.
    pub fn same(&self, other: &Ident) -> (r: bool)
        ensures
            r == (self@ == other@),
    {
        if self.kind != other.kind || self.name != other.name {
            return false;
        }
        match (&self.namespace, &other.namespace) {
            (Some(a), Some(b)) => *a == *b,
            (None, None) => true,
            _ => false,
        }
    }
}

impl ElementMeta {
    pub fn duplicate(&self) -> (r: ElementMeta)
        ensures
            r@ == self@,
    {
        ElementMeta {
            ident: self.ident.duplicate(),
            type_: self.type_.duplicate(),
            mode: self.mode,
            form: self.form,
            nillable: self.nillable,
            min_occurs: self.min_occurs,
            max_occurs: self.max_occurs,
        }
    }
}

fn duplicate_elements(s: &Vec<ElementMeta>) -> (r: Vec<ElementMeta>)
    ensures
        element_views(r@) == element_views(s@),
{
    let mut r: Vec<ElementMeta> = Vec::new();
    let mut i: usize = 0;
    while i < s.len()
        invariant
            i <= s@.len(),
            r@.len() == i,
            forall|j: int| 0 <= j < i ==> (#[trigger] r@[j])@ == s@[j]@,
        decreases s@.len() - i,
    {
        r.push(s[i].duplicate());
        i = i + 1;
    }
    assert(element_views(r@) =~= element_views(s@));
    r
}

fn duplicate_idents(s: &Vec<Ident>) -> (r: Vec<Ident>)
    ensures
        ident_views(r@) == ident_views(s@),
{
    let mut r: Vec<Ident> = Vec::new();
    let mut i: usize = 0;
    while i < s.len()
        invariant
            i <= s@.len(),
            r@.len() == i,
            forall|j: int| 0 <= j < i ==> (#[trigger] r@[j])@ == s@[j]@,
        decreases s@.len() - i,
    {
        r.push(s[i].duplicate());
        i = i + 1;
    }
    assert(ident_views(r@) =~= ident_views(s@));
    r
}

impl MetaType {
    pub fn duplicate(&self) -> (r: MetaType)
        ensures
            r@ == self@,
    {
        match self {
            MetaType::ComplexType(c) => MetaType::ComplexType(
                ComplexMeta {
                    base: match &c.base {
                        Base::Plain => Base::Plain,
                        Base::Extension(i) => Base::Extension(i.duplicate()),
                        Base::Restriction(i) => Base::Restriction(i.duplicate()),
                    },
                    content: match &c.content {
                        Some(i) => Some(i.duplicate()),
                        None => None,
                    },
                    min_occurs: c.min_occurs,
                    max_occurs: c.max_occurs,
                    is_mixed: c.is_mixed,
                },
            ),
            MetaType::Sequence(s) => MetaType::Sequence(duplicate_elements(s)),
            MetaType::Choice(s) => MetaType::Choice(duplicate_elements(s)),
            MetaType::Reference(i) => MetaType::Reference(i.duplicate()),
            MetaType::Simple(i) => MetaType::Simple(i.duplicate()),
            MetaType::Union(s) => MetaType::Union(duplicate_idents(s)),
            MetaType::BuiltIn(n) => MetaType::BuiltIn(n.clone()),
        }
    }
}

/// One node of the graph under its identity.
#[derive(Debug)]
pub struct GraphEntry {
    pub ident: Ident,
    pub meta: MetaType,
}

/// A set of type and element declarations, each under a distinct identity.
#[derive(Debug)]
pub struct SchemaGraph {
    pub entries: Vec<GraphEntry>,
}

pub open spec fn entry_pairs(s: Seq<GraphEntry>) -> Seq<(IdentV, MetaV)> {
    s.map_values(|e: GraphEntry| (e.ident@, e.meta@))
}

pub open spec fn keys_unique(p: Seq<(IdentV, MetaV)>) -> bool {
    forall|i: int, j: int| 0 <= i < j < p.len() ==> p[i].0 != p[j].0
}

pub open spec fn has_key(p: Seq<(IdentV, MetaV)>, k: IdentV) -> bool {
    exists|i: int| 0 <= i < p.len() && (#[trigger] p[i]).0 == k
}

/// The map from identity to node that a list of distinct-keyed entries describes.
pub open spec fn pairs_map(p: Seq<(IdentV, MetaV)>) -> Map<IdentV, MetaV> {
    Map::new(
        |k: IdentV| has_key(p, k),
        |k: IdentV| p[choose|i: int| 0 <= i < p.len() && (#[trigger] p[i]).0 == k].1,
    )
}

proof fn lemma_pairs_map_index(p: Seq<(IdentV, MetaV)>, i: int)
    requires
        keys_unique(p),
        0 <= i < p.len(),
    ensures
        pairs_map(p).contains_key(p[i].0),
        pairs_map(p)[p[i].0] == p[i].1,
{
    let k = p[i].0;
    assert(has_key(p, k));
    let j = choose|j: int| 0 <= j < p.len() && (#[trigger] p[j]).0 == k;
    if j != i {
        if j < i {
            assert(p[j].0 != p[i].0);
        } else {
            assert(p[i].0 != p[j].0);
        }
    }
}

proof fn lemma_pairs_map_push(p: Seq<(IdentV, MetaV)>, k: IdentV, v: MetaV)
    requires
        keys_unique(p),
        !has_key(p, k),
    ensures
        keys_unique(p.push((k, v))),
        pairs_map(p.push((k, v))) == pairs_map(p).insert(k, v),
{
    let q = p.push((k, v));
    assert forall|i: int, j: int| 0 <= i < j < q.len() implies q[i].0 != q[j].0 by {
        if j == p.len() {
            assert(p[i] == q[i]);
        } else {
            assert(p[i] == q[i] && p[j] == q[j]);
        }
    }
    assert forall|x: IdentV| #[trigger] pairs_map(q).contains_key(x) == pairs_map(p).insert(k, v).contains_key(x) by {
        if has_key(p, x) {
            let i = choose|i: int| 0 <= i < p.len() && (#[trigger] p[i]).0 == x;
            assert(q[i] == p[i]);
        }
        if has_key(q, x) && x != k {
            let i = choose|i: int| 0 <= i < q.len() && (#[trigger] q[i]).0 == x;
            assert(i < p.len());
            assert(q[i] == p[i]);
        }
        if x == k {
            assert(q[p.len() as int].0 == k);
        }
    }
    assert forall|x: IdentV| pairs_map(q).contains_key(x) implies #[trigger] pairs_map(q)[x] == pairs_map(p).insert(k, v)[x] by {
        let i = choose|i: int| 0 <= i < q.len() && (#[trigger] q[i]).0 == x;
        lemma_pairs_map_index(q, i);
        if i < p.len() {
            assert(q[i] == p[i]);
            lemma_pairs_map_index(p, i);
        }
    }
    assert(pairs_map(q) =~= pairs_map(p).insert(k, v));
}

proof fn lemma_pairs_map_update(p: Seq<(IdentV, MetaV)>, i: int, v: MetaV)
    requires
        keys_unique(p),
        0 <= i < p.len(),
    ensures
        keys_unique(p.update(i, (p[i].0, v))),
        pairs_map(p.update(i, (p[i].0, v))) == pairs_map(p).insert(p[i].0, v),
{
    let k = p[i].0;
    let q = p.update(i, (k, v));
    assert forall|a: int, b: int| 0 <= a < b < q.len() implies q[a].0 != q[b].0 by {
        assert(q[a].0 == p[a].0 && q[b].0 == p[b].0);
    }
    assert forall|x: IdentV| #[trigger] pairs_map(q).contains_key(x) == pairs_map(p).insert(k, v).contains_key(x) by {
        if has_key(p, x) {
            let j = choose|j: int| 0 <= j < p.len() && (#[trigger] p[j]).0 == x;
            assert(q[j].0 == x);
        }
        if has_key(q, x) {
            let j = choose|j: int| 0 <= j < q.len() && (#[trigger] q[j]).0 == x;
            assert(p[j].0 == x);
        }
    }
    assert forall|x: IdentV| pairs_map(q).contains_key(x) implies #[trigger] pairs_map(q)[x] == pairs_map(p).insert(k, v)[x] by {
        let j = choose|j: int| 0 <= j < q.len() && (#[trigger] q[j]).0 == x;
        lemma_pairs_map_index(q, j);
        if j != i {
            assert(q[j] == p[j]);
            lemma_pairs_map_index(p, j);
        }
    }
    assert(pairs_map(q) =~= pairs_map(p).insert(k, v));
}

proof fn lemma_pairs_map_remove(p: Seq<(IdentV, MetaV)>, i: int)
    requires
        keys_unique(p),
        0 <= i < p.len(),
    ensures
        keys_unique(p.remove(i)),
        pairs_map(p.remove(i)) == pairs_map(p).remove(p[i].0),
{
    let k = p[i].0;
    let q = p.remove(i);
    assert forall|a: int, b: int| 0 <= a < b < q.len() implies q[a].0 != q[b].0 by {
        let a2 = if a < i { a } else { a + 1 };
        let b2 = if b < i { b } else { b + 1 };
        assert(q[a] == p[a2] && q[b] == p[b2]);
    }
    assert forall|x: IdentV| #[trigger] pairs_map(q).contains_key(x) == pairs_map(p).remove(k).contains_key(x) by {
        if has_key(p, x) && x != k {
            let j = choose|j: int| 0 <= j < p.len() && (#[trigger] p[j]).0 == x;
            if j < i {
                assert(q[j] == p[j]);
            } else {
                assert(j != i);
                assert(q[j - 1] == p[j]);
            }
        }
        if has_key(q, x) {
            let j = choose|j: int| 0 <= j < q.len() && (#[trigger] q[j]).0 == x;
            let j2 = if j < i { j } else { j + 1 };
            assert(q[j] == p[j2]);
            if j2 > i {
                assert(p[i].0 != p[j2].0);
            } else {
                assert(p[j2].0 != p[i].0);
            }
        }
    }
    assert forall|x: IdentV| pairs_map(q).contains_key(x) implies #[trigger] pairs_map(q)[x] == pairs_map(p).remove(k)[x] by {
        let j = choose|j: int| 0 <= j < q.len() && (#[trigger] q[j]).0 == x;
        lemma_pairs_map_index(q, j);
        let j2 = if j < i { j } else { j + 1 };
        assert(q[j] == p[j2]);
        lemma_pairs_map_index(p, j2);
    }
    assert(pairs_map(q) =~= pairs_map(p).remove(k));
}

impl SchemaGraph {
    /// No two entries share an identity.
    pub open spec fn wf(&self) -> bool {
        keys_unique(entry_pairs(self.entries@))
    }

    pub open spec fn view(&self) -> Map<IdentV, MetaV> {
        pairs_map(entry_pairs(self.entries@))
    }

    /// Whether no two entries share an identity; a graph built by `insert` always passes.
    pub fn is_well_formed(&self) -> (r: bool)
        ensures
            r == self.wf(),
    {
        let ghost p = entry_pairs(self.entries@);
        let n = self.entries.len();
        let mut i: usize = 0;
        while i < n
            invariant
                n == p.len(),
                p == entry_pairs(self.entries@),
                i <= n,
                forall|a: int, b: int| 0 <= a < b < n && a < i ==> p[a].0 != p[b].0,
            decreases n - i,
        {
            let mut j: usize = i + 1;
            while j < n
                invariant
                    n == p.len(),
                    p == entry_pairs(self.entries@),
                    i < n,
                    i < j <= n,
                    forall|a: int, b: int| 0 <= a < b < n && a < i ==> p[a].0 != p[b].0,
                    forall|b: int| i < b < j ==> p[i as int].0 != p[b].0,
                decreases n - j,
            {
                assert(p[i as int].0 == self.entries@[i as int].ident@);
                assert(p[j as int].0 == self.entries@[j as int].ident@);
                if self.entries[i].ident.same(&self.entries[j].ident) {
                    return false;
                }
                j = j + 1;
            }
            i = i + 1;
        }
        true
    }

    /// An empty graph.
    pub fn new() -> (r: SchemaGraph)
        ensures
            r.wf(),
            r.view() == Map::<IdentV, MetaV>::empty(),
    {
        let r = SchemaGraph { entries: Vec::new() };
        assert(r.view() =~= Map::<IdentV, MetaV>::empty());
        r
    }

    fn position(&self, k: &Ident) -> (r: Option<usize>)
        requires
            self.wf(),
        ensures
            r matches Some(i) ==> i < self.entries@.len() && self.entries@[i as int].ident@ == k@,
            r is None ==> !self.view().contains_key(k@),
    {
        let ghost p = entry_pairs(self.entries@);
        let mut i: usize = 0;
        while i < self.entries.len()
            invariant
                p == entry_pairs(self.entries@),
                i <= self.entries@.len(),
                forall|j: int| 0 <= j < i ==> (#[trigger] p[j]).0 != k@,
            decreases self.entries@.len() - i,
        {
            assert(p[i as int].0 == self.entries@[i as int].ident@);
            if self.entries[i].ident.same(k) {
                return Some(i);
            }
            i = i + 1;
        }
        None
    }

    /// The node under `k`, if any.
    pub fn get(&self, k: &Ident) -> (r: Option<&MetaType>)
        requires
            self.wf(),
        ensures
            r matches Some(m) ==> self.view().contains_key(k@) && self.view()[k@] == m@,
            r is None ==> !self.view().contains_key(k@),
    {
        match self.position(k) {
            Some(i) => {
                proof {
                    lemma_pairs_map_index(entry_pairs(self.entries@), i as int);
                }
                Some(&self.entries[i].meta)
            },
            None => None,
        }
    }

    /// Puts `m` under `k`, replacing any node there.
    pub fn insert(&mut self, k: Ident, m: MetaType)
        requires
            old(self).wf(),
        ensures
            final(self).wf(),
            final(self).view() == old(self).view().insert(k@, m@),
    {
        let ghost p = entry_pairs(self.entries@);
        match self.position(&k) {
            Some(i) => {
                let ghost kv = k@;
                let ghost mv = m@;
                self.entries.set(i, GraphEntry { ident: k, meta: m });
                proof {
                    assert(entry_pairs(self.entries@) =~= p.update(i as int, (p[i as int].0, mv)));
                    lemma_pairs_map_update(p, i as int, mv);
                }
            },
            None => {
                let ghost kv = k@;
                let ghost mv = m@;
                self.entries.push(GraphEntry { ident: k, meta: m });
                proof {
                    assert(entry_pairs(self.entries@) =~= p.push((kv, mv)));
                    assert(!has_key(p, kv));
                    lemma_pairs_map_push(p, kv, mv);
                }
            },
        }
    }

    /// Takes out the node under `k`, if any.
    pub fn remove(&mut self, k: &Ident)
        requires
            old(self).wf(),
        ensures
            final(self).wf(),
            final(self).view() == old(self).view().remove(k@),
    {
        let ghost p = entry_pairs(self.entries@);
        match self.position(k) {
            Some(i) => {
                self.entries.remove(i);
                proof {
                    assert(entry_pairs(self.entries@) =~= p.remove(i as int));
                    lemma_pairs_map_remove(p, i as int);
                }
            },
            None => {
                assert(self.view() =~= self.view().remove(k@));
            },
        }
    }
}

/// Looks up the node of a (kind, namespace, name) triple, failing with `UnresolvedIdent` when
/// the graph has none.
pub fn resolve<'a>(g: &'a SchemaGraph, kind: IdentKind, namespace: Option<&str>, name: &str) -> (r: Result<
    &'a MetaType,
    CwmpError,
>)
    requires
        g.wf(),
    ensures
        ({
            let k = IdentV {
                kind,
                namespace: match namespace {
                    Some(n) => Some(n@),
                    None => None,
                },
                name: name@,
            };
            &&& r matches Ok(m) ==> g.view().contains_key(k) && g.view()[k] == m@
            &&& r is Err ==> !g.view().contains_key(k) && r == Err::<&MetaType, CwmpError>(
                CwmpError::UnresolvedIdent,
            )
        }),
{
    let k = Ident::new(kind, namespace, name);
    match g.get(&k) {
        Some(m) => Ok(m),
        None => Err(CwmpError::UnresolvedIdent),
    }
}

} // verus!
