//! The unification engine: rewrites the per-version schema graph into one canonical graph.
use vstd::prelude::*;
use crate::error::CwmpError;
use crate::graph::{
    Base, BaseV, ComplexMetaV, ElementMeta, ElementMetaV, ElementMode, Form, Ident,
    IdentKind, IdentV, MaxOccurs, MetaType, MetaV, SchemaGraph, element_views, resolve,
};

verus! {

pub open spec fn ns_envelope() -> Seq<char> {
    "http://schemas.xmlsoap.org/soap/envelope/"@
}

pub open spec fn ns_schema() -> Seq<char> {
    "http://www.w3.org/2001/XMLSchema"@
}

pub open spec fn ns_cwmp_10() -> Seq<char> {
    "urn:dslforum-org:cwmp-1-0"@
}

pub open spec fn ns_cwmp_11() -> Seq<char> {
    "urn:dslforum-org:cwmp-1-1"@
}

pub open spec fn ns_cwmp_12() -> Seq<char> {
    "urn:dslforum-org:cwmp-1-2"@
}

pub open spec fn idv(kind: IdentKind, namespace: Option<Seq<char>>, name: Seq<char>) -> IdentV {
    IdentV { kind, namespace, name }
}

/// A plain element alternative: unqualified, not nillable.
pub open spec fn element_v(ident: IdentV, type_: IdentV, min: u32, max: MaxOccurs) -> ElementMetaV {
    ElementMetaV {
        ident,
        type_,
        mode: ElementMode::Element,
        form: Form::Unqualified,
        nillable: false,
        min_occurs: min,
        max_occurs: max,
    }
}

pub type Graph = Map<IdentV, MetaV>;

/// The header names, each with the namespace whose definition becomes canonical.
pub open spec fn header_name(i: int) -> Seq<char> {
    if i == 0 {
        "ID"@
    } else if i == 1 {
        "SessionTimeout"@
    } else if i == 2 {
        "SupportedCWMPVersions"@
    } else {
        "UseCWMPVersion"@
    }
}

pub open spec fn header_namespace(i: int) -> Seq<char> {
    if i == 0 {
        ns_cwmp_10()
    } else {
        ns_cwmp_12()
    }
}

pub const HEADER_COUNT: usize = 4;

pub const RPC_COUNT: usize = 34;

/// The RPC method repertoire: the requests, then their responses.
pub open spec fn rpc_name(i: int) -> Seq<char> {
    if i == 0 { "GetRPCMethods"@ }
    else if i == 1 { "SetParameterValues"@ }
    else if i == 2 { "GetParameterValues"@ }
    else if i == 3 { "GetParameterNames"@ }
    else if i == 4 { "SetParameterAttributes"@ }
    else if i == 5 { "GetParameterAttributes"@ }
    else if i == 6 { "AddObject"@ }
    else if i == 7 { "DeleteObject"@ }
    else if i == 8 { "Reboot"@ }
    else if i == 9 { "Download"@ }
    else if i == 10 { "ScheduleDownload"@ }
    else if i == 11 { "Upload"@ }
    else if i == 12 { "FactoryReset"@ }
    else if i == 13 { "GetAllQueuedTransfers"@ }
    else if i == 14 { "CancelTransfer"@ }
    else if i == 15 { "ScheduleInform"@ }
    else if i == 16 { "ChangeDUState"@ }
    else if i == 17 { "GetRPCMethodsResponse"@ }
    else if i == 18 { "SetParameterValuesResponse"@ }
    else if i == 19 { "GetParameterValuesResponse"@ }
    else if i == 20 { "GetParameterNamesResponse"@ }
    else if i == 21 { "SetParameterAttributesResponse"@ }
    else if i == 22 { "GetParameterAttributesResponse"@ }
    else if i == 23 { "AddObjectResponse"@ }
    else if i == 24 { "DeleteObjectResponse"@ }
    else if i == 25 { "RebootResponse"@ }
    else if i == 26 { "DownloadResponse"@ }
    else if i == 27 { "ScheduleDownloadResponse"@ }
    else if i == 28 { "UploadResponse"@ }
    else if i == 29 { "FactoryResetResponse"@ }
    else if i == 30 { "GetAllQueuedTransfersResponse"@ }
    else if i == 31 { "CancelTransferResponse"@ }
    else if i == 32 { "ScheduleInformResponse"@ }
    else { "ChangeDUStateResponse"@ }
}

fn header_entry(i: usize) -> (r: (&'static str, &'static str))
    requires
        i < HEADER_COUNT,
    ensures
        r.0@ == header_name(i as int),
        r.1@ == header_namespace(i as int),
{
    if i == 0 {
        ("ID", "urn:dslforum-org:cwmp-1-0")
    } else if i == 1 {
        ("SessionTimeout", "urn:dslforum-org:cwmp-1-2")
    } else if i == 2 {
        ("SupportedCWMPVersions", "urn:dslforum-org:cwmp-1-2")
    } else {
        ("UseCWMPVersion", "urn:dslforum-org:cwmp-1-2")
    }
}

fn rpc_entry(i: usize) -> (r: &'static str)
    requires
        i < RPC_COUNT,
    ensures
        r@ == rpc_name(i as int),
{
    if i == 0 { "GetRPCMethods" }
    else if i == 1 { "SetParameterValues" }
    else if i == 2 { "GetParameterValues" }
    else if i == 3 { "GetParameterNames" }
    else if i == 4 { "SetParameterAttributes" }
    else if i == 5 { "GetParameterAttributes" }
    else if i == 6 { "AddObject" }
    else if i == 7 { "DeleteObject" }
    else if i == 8 { "Reboot" }
    else if i == 9 { "Download" }
    else if i == 10 { "ScheduleDownload" }
    else if i == 11 { "Upload" }
    else if i == 12 { "FactoryReset" }
    else if i == 13 { "GetAllQueuedTransfers" }
    else if i == 14 { "CancelTransfer" }
    else if i == 15 { "ScheduleInform" }
    else if i == 16 { "ChangeDUState" }
    else if i == 17 { "GetRPCMethodsResponse" }
    else if i == 18 { "SetParameterValuesResponse" }
    else if i == 19 { "GetParameterValuesResponse" }
    else if i == 20 { "GetParameterNamesResponse" }
    else if i == 21 { "SetParameterAttributesResponse" }
    else if i == 22 { "GetParameterAttributesResponse" }
    else if i == 23 { "AddObjectResponse" }
    else if i == 24 { "DeleteObjectResponse" }
    else if i == 25 { "RebootResponse" }
    else if i == 26 { "DownloadResponse" }
    else if i == 27 { "ScheduleDownloadResponse" }
    else if i == 28 { "UploadResponse" }
    else if i == 29 { "FactoryResetResponse" }
    else if i == 30 { "GetAllQueuedTransfersResponse" }
    else if i == 31 { "CancelTransferResponse" }
    else if i == 32 { "ScheduleInformResponse" }
    else { "ChangeDUStateResponse" }
}

/// The alternatives of the canonical header choice.
pub open spec fn header_alternatives() -> Seq<ElementMetaV> {
    Seq::new(
        HEADER_COUNT as nat,
        |i: int| element_v(
            idv(IdentKind::Element, None, header_name(i)),
            idv(IdentKind::ElementType, None, header_name(i)),
            1,
            MaxOccurs::Bounded(1),
        ),
    )
}

/// Copies the first `n` version-scoped headers, element and element type, to canonical
/// identities.
pub open spec fn copy_headers(m: Graph, n: int) -> Result<Graph, CwmpError>
    decreases n,
{
    if n <= 0 {
        Ok(m)
    } else {
        match copy_headers(m, n - 1) {
            Err(e) => Err(e),
            Ok(m1) => {
                let name = header_name(n - 1);
                let ns = Some(header_namespace(n - 1));
                let ty = idv(IdentKind::ElementType, ns, name);
                let el = idv(IdentKind::Element, ns, name);
                if !m1.contains_key(ty) || !m1.contains_key(el) {
                    Err(CwmpError::UnresolvedIdent)
                } else {
                    Ok(
                        m1.insert(idv(IdentKind::ElementType, None, name), m1[ty]).insert(
                            idv(IdentKind::Element, None, name),
                            m1[el],
                        ),
                    )
                }
            },
        }
    }
}

/// Replaces the content node of the complex type `container` with `content`, raising the
/// type's upper bound to unbounded and, when given, setting its lower bound.
pub open spec fn rewrite_container(
    m: Graph,
    container: IdentV,
    min: Option<u32>,
    content: MetaV,
) -> Result<Graph, CwmpError> {
    if !m.contains_key(container) {
        Err(CwmpError::UnresolvedIdent)
    } else {
        match m[container] {
            MetaV::ComplexType(c) => match c.content {
                None => Err(CwmpError::UnresolvedIdent),
                Some(ci) => if !m.contains_key(ci) {
                    Err(CwmpError::UnresolvedIdent)
                } else {
                    let c2 = ComplexMetaV {
                        max_occurs: MaxOccurs::Unbounded,
                        min_occurs: match min {
                            Some(v) => v,
                            None => c.min_occurs,
                        },
                        ..c
                    };
                    Ok(m.insert(container, MetaV::ComplexType(c2)).insert(ci, content))
                },
            },
            _ => Err(CwmpError::UnexpectedVariant),
        }
    }
}

/// Header unification.
pub open spec fn unify_headers(m: Graph) -> Result<Graph, CwmpError> {
    match copy_headers(m, HEADER_COUNT as int) {
        Err(e) => Err(e),
        Ok(m1) => rewrite_container(
            m1,
            idv(IdentKind::Type, Some(ns_envelope()), "Header"@),
            Some(0),
            MetaV::Choice(header_alternatives()),
        ),
    }
}

pub open spec fn method_list_content() -> IdentV {
    idv(IdentKind::Type, None, "MethodListContent"@)
}

/// Array-content restriction of `MethodList`.
pub open spec fn restrict_method_list(m: Graph) -> Result<Graph, CwmpError> {
    let item = idv(IdentKind::Type, Some(ns_schema()), "string"@);
    let list = idv(IdentKind::Type, Some(ns_cwmp_12()), "MethodList"@);
    if !m.contains_key(item) {
        Err(CwmpError::UnresolvedIdent)
    } else {
        let m1 = m.insert(
            method_list_content(),
            MetaV::Sequence(
                seq![element_v(idv(IdentKind::Element, None, "string"@), item, 1, MaxOccurs::Unbounded)],
            ),
        );
        if !m1.contains_key(list) {
            Err(CwmpError::UnresolvedIdent)
        } else {
            match m1[list] {
                MetaV::ComplexType(c) => Ok(
                    m1.insert(
                        list,
                        MetaV::ComplexType(
                            ComplexMetaV { base: BaseV::Restriction(method_list_content()), ..c },
                        ),
                    ),
                ),
                _ => Err(CwmpError::UnexpectedVariant),
            }
        }
    }
}

/// Moves one RPC element to its canonical identity and drops every version's copy. A
/// canonical element already in place is kept.
pub open spec fn unify_rpc(m: Graph, name: Seq<char>) -> Result<Graph, CwmpError> {
    let canon = idv(IdentKind::Element, None, name);
    let src = idv(IdentKind::Element, Some(ns_cwmp_12()), name);
    let m1 = if m.contains_key(src) {
        Ok(m.insert(canon, m[src]))
    } else if m.contains_key(canon) {
        Ok(m)
    } else {
        Err(CwmpError::UnresolvedIdent)
    };
    match m1 {
        Err(e) => Err(e),
        Ok(m1) => Ok(
            m1.remove(idv(IdentKind::Element, Some(ns_cwmp_10()), name)).remove(
                idv(IdentKind::Element, Some(ns_cwmp_11()), name),
            ).remove(src),
        ),
    }
}

pub open spec fn unify_rpcs(m: Graph, n: int) -> Result<Graph, CwmpError>
    decreases n,
{
    if n <= 0 {
        Ok(m)
    } else {
        match unify_rpcs(m, n - 1) {
            Err(e) => Err(e),
            Ok(m1) => unify_rpc(m1, rpc_name(n - 1)),
        }
    }
}

pub open spec fn envelope_fault() -> IdentV {
    idv(IdentKind::Type, Some(ns_envelope()), "Fault"@)
}

/// The alternatives of the canonical body choice: every RPC element, then the fault.
pub open spec fn body_alternatives() -> Seq<ElementMetaV> {
    Seq::new(
        RPC_COUNT as nat,
        |i: int| element_v(
            idv(IdentKind::Element, None, rpc_name(i)),
            idv(IdentKind::Element, None, rpc_name(i)),
            1,
            MaxOccurs::Bounded(1),
        ),
    ).push(element_v(envelope_fault(), envelope_fault(), 1, MaxOccurs::Bounded(1)))
}

/// Body unification.
pub open spec fn unify_body(m: Graph) -> Result<Graph, CwmpError> {
    match unify_rpcs(m, RPC_COUNT as int) {
        Err(e) => Err(e),
        Ok(m1) => if !m1.contains_key(envelope_fault()) {
            Err(CwmpError::UnresolvedIdent)
        } else {
            rewrite_container(
                m1,
                idv(IdentKind::Type, Some(ns_envelope()), "Body"@),
                None,
                MetaV::Choice(body_alternatives()),
            )
        },
    }
}

pub open spec fn canonical_fault() -> IdentV {
    idv(IdentKind::ElementType, None, "Fault"@)
}

pub open spec fn version_namespace(i: int) -> Seq<char> {
    if i == 0 {
        ns_cwmp_10()
    } else if i == 1 {
        ns_cwmp_11()
    } else {
        ns_cwmp_12()
    }
}

/// Points the first `n` versions' `Fault` elements at the canonical fault and drops their
/// own fault types.
pub open spec fn repoint_faults(m: Graph, n: int) -> Result<Graph, CwmpError>
    decreases n,
{
    if n <= 0 {
        Ok(m)
    } else {
        match repoint_faults(m, n - 1) {
            Err(e) => Err(e),
            Ok(m1) => {
                let ns = Some(version_namespace(n - 1));
                let el = idv(IdentKind::Element, ns, "Fault"@);
                if !m1.contains_key(el) {
                    Err(CwmpError::UnresolvedIdent)
                } else {
                    match m1[el] {
                        MetaV::Reference(_) => Ok(
                            m1.insert(el, MetaV::Reference(canonical_fault())).remove(
                                idv(IdentKind::ElementType, ns, "Fault"@),
                            ),
                        ),
                        _ => Err(CwmpError::UnexpectedVariant),
                    }
                }
            },
        }
    }
}

/// Fault unification, with the `detail` content reduced to the canonical fault.
pub open spec fn unify_fault(m: Graph) -> Result<Graph, CwmpError> {
    let src = idv(IdentKind::ElementType, Some(ns_cwmp_12()), "Fault"@);
    let m1 = if m.contains_key(src) {
        Ok(m.insert(canonical_fault(), m[src]))
    } else if m.contains_key(canonical_fault()) {
        Ok(m)
    } else {
        Err(CwmpError::UnresolvedIdent)
    };
    match m1 {
        Err(e) => Err(e),
        Ok(m1) => match repoint_faults(m1, 3) {
            Err(e) => Err(e),
            Ok(m2) => unify_fault_detail(m2),
        },
    }
}

/// Reduces the `detail` content to the canonical fault.
pub open spec fn unify_fault_detail(m: Graph) -> Result<Graph, CwmpError> {
    let detail = idv(IdentKind::Type, Some(ns_envelope()), "detail"@);
    if !m.contains_key(detail) {
        Err(CwmpError::UnresolvedIdent)
    } else {
        match m[detail] {
            MetaV::ComplexType(c) => match c.content {
                None => Err(CwmpError::UnresolvedIdent),
                Some(ci) => if !m.contains_key(ci) {
                    Err(CwmpError::UnresolvedIdent)
                } else {
                    Ok(
                        m.insert(
                            ci,
                            MetaV::Sequence(
                                seq![element_v(canonical_fault(), canonical_fault(), 1, MaxOccurs::Bounded(1))],
                            ),
                        ),
                    )
                },
            },
            _ => Err(CwmpError::UnexpectedVariant),
        }
    }
}

/// The whole engine: headers, the method list, the body, then the fault.
pub open spec fn unify_spec(m: Graph) -> Result<Graph, CwmpError> {
    match unify_headers(m) {
        Err(e) => Err(e),
        Ok(m1) => match restrict_method_list(m1) {
            Err(e) => Err(e),
            Ok(m2) => match unify_body(m2) {
                Err(e) => Err(e),
                Ok(m3) => unify_fault(m3),
            },
        },
    }
}


proof fn lemma_copy_headers_error(m: Graph, k: int, n: int)
    requires
        0 <= k <= n,
        copy_headers(m, k) is Err,
    ensures
        copy_headers(m, n) == copy_headers(m, k),
    decreases n - k,
{
    if n > k {
        lemma_copy_headers_error(m, k, n - 1);
    }
}

proof fn lemma_unify_rpcs_error(m: Graph, k: int, n: int)
    requires
        0 <= k <= n,
        unify_rpcs(m, k) is Err,
    ensures
        unify_rpcs(m, n) == unify_rpcs(m, k),
    decreases n - k,
{
    if n > k {
        lemma_unify_rpcs_error(m, k, n - 1);
    }
}

proof fn lemma_repoint_faults_error(m: Graph, k: int, n: int)
    requires
        0 <= k <= n,
        repoint_faults(m, k) is Err,
    ensures
        repoint_faults(m, n) == repoint_faults(m, k),
    decreases n - k,
{
    if n > k {
        lemma_repoint_faults_error(m, k, n - 1);
    }
}

/// The outcome of a step on a graph, against what its specification gives.
pub open spec fn step_matches(r: Result<(), CwmpError>, g: SchemaGraph, s: Result<Graph, CwmpError>) -> bool {
    match (r, s) {
        (Ok(_), Ok(v)) => g.wf() && g.view() == v,
        (Err(a), Err(b)) => a == b,
        _ => false,
    }
}

fn element(ident: Ident, type_: Ident, min: u32, max: MaxOccurs) -> (r: ElementMeta)
    ensures
        r@ == element_v(ident@, type_@, min, max),
{
    ElementMeta {
        ident,
        type_,
        mode: ElementMode::Element,
        form: Form::Unqualified,
        nillable: false,
        min_occurs: min,
        max_occurs: max,
    }
}

fn rewrite_container_in(g: &mut SchemaGraph, container: Ident, min: Option<u32>, content: MetaType) -> (r: Result<
    (),
    CwmpError,
>)
    requires
        old(g).wf(),
    ensures
        step_matches(r, *final(g), rewrite_container(old(g).view(), container@, min, content@)),
{
    let node = match g.get(&container) {
        Some(m) => m.duplicate(),
        None => return Err(CwmpError::UnresolvedIdent),
    };
    let mut c = match node {
        MetaType::ComplexType(c) => c,
        _ => return Err(CwmpError::UnexpectedVariant),
    };
    let ci = match &c.content {
        Some(ci) => ci.duplicate(),
        None => return Err(CwmpError::UnresolvedIdent),
    };
    if g.get(&ci).is_none() {
        return Err(CwmpError::UnresolvedIdent);
    }
    c.max_occurs = MaxOccurs::Unbounded;
    match min {
        Some(v) => {
            c.min_occurs = v;
        },
        None => {},
    }
    g.insert(container, MetaType::ComplexType(c));
    g.insert(ci, content);
    Ok(())
}

/// Header unification on `g`.
pub fn unify_headers_in(g: &mut SchemaGraph) -> (r: Result<(), CwmpError>)
    requires
        old(g).wf(),
    ensures
        step_matches(r, *final(g), unify_headers(old(g).view())),
{
    let ghost m0 = g.view();
    let mut alternatives: Vec<ElementMeta> = Vec::new();
    let mut i: usize = 0;
    while i < HEADER_COUNT
        invariant
            i <= HEADER_COUNT,
            g.wf(),
            m0 == old(g).view(),
            copy_headers(m0, i as int) == Ok::<Graph, CwmpError>(g.view()),
            alternatives@.len() == i,
            forall|j: int| 0 <= j < i ==> (#[trigger] alternatives@[j])@ == header_alternatives()[j],
        decreases HEADER_COUNT - i,
    {
        let (name, ns) = header_entry(i);
        let ty_meta = match resolve(g, IdentKind::ElementType, Some(ns), name) {
            Ok(m) => m.duplicate(),
            Err(_) => {
                proof {
                    assert(copy_headers(m0, i + 1) == Err::<Graph, CwmpError>(CwmpError::UnresolvedIdent));
                    lemma_copy_headers_error(m0, i + 1, HEADER_COUNT as int);
                }
                return Err(CwmpError::UnresolvedIdent);
            },
        };
        let el_meta = match resolve(g, IdentKind::Element, Some(ns), name) {
            Ok(m) => m.duplicate(),
            Err(_) => {
                proof {
                    assert(copy_headers(m0, i + 1) == Err::<Graph, CwmpError>(CwmpError::UnresolvedIdent));
                    lemma_copy_headers_error(m0, i + 1, HEADER_COUNT as int);
                }
                return Err(CwmpError::UnresolvedIdent);
            },
        };
        g.insert(Ident::new(IdentKind::ElementType, None, name), ty_meta);
        g.insert(Ident::new(IdentKind::Element, None, name), el_meta);
        alternatives.push(
            element(
                Ident::new(IdentKind::Element, None, name),
                Ident::new(IdentKind::ElementType, None, name),
                1,
                MaxOccurs::Bounded(1),
            ),
        );
        i = i + 1;
    }
    assert(element_views(alternatives@) =~= header_alternatives());
    rewrite_container_in(
        g,
        Ident::new(IdentKind::Type, Some("http://schemas.xmlsoap.org/soap/envelope/"), "Header"),
        Some(0),
        MetaType::Choice(alternatives),
    )
}

/// Array-content restriction of `MethodList` on `g`.
pub fn restrict_method_list_in(g: &mut SchemaGraph) -> (r: Result<(), CwmpError>)
    requires
        old(g).wf(),
    ensures
        step_matches(r, *final(g), restrict_method_list(old(g).view())),
{
    if let Err(e) = resolve(g, IdentKind::Type, Some("http://www.w3.org/2001/XMLSchema"), "string") {
        return Err(e);
    }
    let item = Ident::new(IdentKind::Type, Some("http://www.w3.org/2001/XMLSchema"), "string");
    let list = Ident::new(IdentKind::Type, Some("urn:dslforum-org:cwmp-1-2"), "MethodList");
    let content = Ident::new(IdentKind::Type, None, "MethodListContent");
    let string_element = element(
        Ident::new(IdentKind::Element, None, "string"),
        item,
        1,
        MaxOccurs::Unbounded,
    );
    let mut items: Vec<ElementMeta> = Vec::new();
    items.push(string_element);
    assert(element_views(items@) =~= seq![string_element@]);
    g.insert(content, MetaType::Sequence(items));
    let node = match resolve(g, IdentKind::Type, Some("urn:dslforum-org:cwmp-1-2"), "MethodList") {
        Ok(m) => m.duplicate(),
        Err(e) => return Err(e),
    };
    let mut c = match node {
        MetaType::ComplexType(c) => c,
        _ => return Err(CwmpError::UnexpectedVariant),
    };
    c.base = Base::Restriction(Ident::new(IdentKind::Type, None, "MethodListContent"));
    g.insert(list, MetaType::ComplexType(c));
    Ok(())
}

fn unify_rpc_in(g: &mut SchemaGraph, name: &str) -> (r: Result<(), CwmpError>)
    requires
        old(g).wf(),
    ensures
        step_matches(r, *final(g), unify_rpc(old(g).view(), name@)),
{
    let canon = Ident::new(IdentKind::Element, None, name);
    let src = Ident::new(IdentKind::Element, Some("urn:dslforum-org:cwmp-1-2"), name);
    let copied = match g.get(&src) {
        Some(m) => Some(m.duplicate()),
        None => None,
    };
    match copied {
        Some(m) => g.insert(canon, m),
        None => {
            if g.get(&canon).is_none() {
                return Err(CwmpError::UnresolvedIdent);
            }
        },
    }
    g.remove(&Ident::new(IdentKind::Element, Some("urn:dslforum-org:cwmp-1-0"), name));
    g.remove(&Ident::new(IdentKind::Element, Some("urn:dslforum-org:cwmp-1-1"), name));
    g.remove(&src);
    Ok(())
}

/// Body unification on `g`.
pub fn unify_body_in(g: &mut SchemaGraph) -> (r: Result<(), CwmpError>)
    requires
        old(g).wf(),
    ensures
        step_matches(r, *final(g), unify_body(old(g).view())),
{
    let ghost m0 = g.view();
    let mut alternatives: Vec<ElementMeta> = Vec::new();
    let mut i: usize = 0;
    while i < RPC_COUNT
        invariant
            i <= RPC_COUNT,
            g.wf(),
            m0 == old(g).view(),
            unify_rpcs(m0, i as int) == Ok::<Graph, CwmpError>(g.view()),
            alternatives@.len() == i,
            forall|j: int| 0 <= j < i ==> (#[trigger] alternatives@[j])@ == body_alternatives()[j],
        decreases RPC_COUNT - i,
    {
        let name = rpc_entry(i);
        match unify_rpc_in(g, name) {
            Ok(()) => {},
            Err(e) => {
                proof {
                    assert(unify_rpcs(m0, i + 1) == Err::<Graph, CwmpError>(e));
                    lemma_unify_rpcs_error(m0, i + 1, RPC_COUNT as int);
                }
                return Err(e);
            },
        }
        alternatives.push(
            element(
                Ident::new(IdentKind::Element, None, name),
                Ident::new(IdentKind::Element, None, name),
                1,
                MaxOccurs::Bounded(1),
            ),
        );
        i = i + 1;
    }
    let fault = Ident::new(IdentKind::Type, Some("http://schemas.xmlsoap.org/soap/envelope/"), "Fault");
    if g.get(&fault).is_none() {
        return Err(CwmpError::UnresolvedIdent);
    }
    alternatives.push(element(fault.duplicate(), fault, 1, MaxOccurs::Bounded(1)));
    assert(element_views(alternatives@) =~= body_alternatives());
    rewrite_container_in(
        g,
        Ident::new(IdentKind::Type, Some("http://schemas.xmlsoap.org/soap/envelope/"), "Body"),
        None,
        MetaType::Choice(alternatives),
    )
}

fn version_entry(i: usize) -> (r: &'static str)
    requires
        i < 3,
    ensures
        r@ == version_namespace(i as int),
{
    if i == 0 {
        "urn:dslforum-org:cwmp-1-0"
    } else if i == 1 {
        "urn:dslforum-org:cwmp-1-1"
    } else {
        "urn:dslforum-org:cwmp-1-2"
    }
}

/// Fault unification on `g`.
pub fn unify_fault_in(g: &mut SchemaGraph) -> (r: Result<(), CwmpError>)
    requires
        old(g).wf(),
    ensures
        step_matches(r, *final(g), unify_fault(old(g).view())),
{
    let src = Ident::new(IdentKind::ElementType, Some("urn:dslforum-org:cwmp-1-2"), "Fault");
    let canon = Ident::new(IdentKind::ElementType, None, "Fault");
    let copied = match g.get(&src) {
        Some(m) => Some(m.duplicate()),
        None => None,
    };
    match copied {
        Some(m) => g.insert(canon.duplicate(), m),
        None => {
            if g.get(&canon).is_none() {
                return Err(CwmpError::UnresolvedIdent);
            }
        },
    }
    let ghost m1 = g.view();
    let mut i: usize = 0;
    while i < 3
        invariant
            i <= 3,
            g.wf(),
            canon@ == canonical_fault(),
            repoint_faults(m1, i as int) == Ok::<Graph, CwmpError>(g.view()),
            unify_fault(old(g).view()) == (match repoint_faults(m1, 3) {
                Err(e) => Err(e),
                Ok(m2) => unify_fault_detail(m2),
            }),
        decreases 3 - i,
    {
        let ns = version_entry(i);
        let el = Ident::new(IdentKind::Element, Some(ns), "Fault");
        match resolve(g, IdentKind::Element, Some(ns), "Fault") {
            Ok(MetaType::Reference(_)) => {},
            Ok(_) => {
                proof {
                    assert(repoint_faults(m1, i + 1) == Err::<Graph, CwmpError>(CwmpError::UnexpectedVariant));
                    lemma_repoint_faults_error(m1, i + 1, 3);
                }
                return Err(CwmpError::UnexpectedVariant);
            },
            Err(_) => {
                proof {
                    assert(repoint_faults(m1, i + 1) == Err::<Graph, CwmpError>(CwmpError::UnresolvedIdent));
                    lemma_repoint_faults_error(m1, i + 1, 3);
                }
                return Err(CwmpError::UnresolvedIdent);
            },
        }
        g.insert(el, MetaType::Reference(canon.duplicate()));
        g.remove(&Ident::new(IdentKind::ElementType, Some(ns), "Fault"));
        i = i + 1;
    }
    let ci = match resolve(g, IdentKind::Type, Some("http://schemas.xmlsoap.org/soap/envelope/"), "detail") {
        Ok(MetaType::ComplexType(c)) => match &c.content {
            Some(ci) => ci.duplicate(),
            None => return Err(CwmpError::UnresolvedIdent),
        },
        Ok(_) => return Err(CwmpError::UnexpectedVariant),
        Err(e) => return Err(e),
    };
    if g.get(&ci).is_none() {
        return Err(CwmpError::UnresolvedIdent);
    }
    let only = element(canon.duplicate(), canon, 1, MaxOccurs::Bounded(1));
    let mut items: Vec<ElementMeta> = Vec::new();
    items.push(only);
    assert(element_views(items@) =~= seq![only@]);
    g.insert(ci, MetaType::Sequence(items));
    Ok(())
}

/// Runs the whole engine. It either gives the canonical graph or fails as a whole: on an
/// error no partly merged graph is handed back.
pub fn unify(g: SchemaGraph) -> (r: Result<SchemaGraph, CwmpError>)
    requires
        g.wf(),
    ensures
        match (r, unify_spec(g.view())) {
            (Ok(x), Ok(v)) => x.wf() && x.view() == v,
            (Err(a), Err(b)) => a == b,
            _ => false,
        },
{
    let mut g = g;
    match unify_headers_in(&mut g) {
        Ok(()) => {},
        Err(e) => return Err(e),
    }
    match restrict_method_list_in(&mut g) {
        Ok(()) => {},
        Err(e) => return Err(e),
    }
    match unify_body_in(&mut g) {
        Ok(()) => {},
        Err(e) => return Err(e),
    }
    match unify_fault_in(&mut g) {
        Ok(()) => {},
        Err(e) => return Err(e),
    }
    Ok(g)
}

} // verus!
