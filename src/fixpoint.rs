//! Unification reaches a fixed point: running it on its own result changes nothing.
use vstd::prelude::*;
use crate::graph::{BaseV, ComplexMetaV, IdentKind, IdentV, MaxOccurs, MetaV};
use crate::unify::{
    Graph, HEADER_COUNT, RPC_COUNT, copy_headers, header_alternatives, rewrite_container,
    unify_headers, restrict_method_list, unify_rpcs, unify_body, body_alternatives,
    element_v, repoint_faults, unify_fault, unify_fault_detail, unify_spec, canonical_fault, envelope_fault, header_name, header_namespace,
    idv, method_list_content, ns_cwmp_10, ns_cwmp_11, ns_cwmp_12, ns_envelope, ns_schema, rpc_name,
    version_namespace,
};

verus! {

pub open spec fn is_header_name(n: Seq<char>) -> bool {
    n == header_name(0) || n == header_name(1) || n == header_name(2) || n == header_name(3)
}

pub open spec fn is_rpc_name(n: Seq<char>) -> bool {
    exists|i: int| 0 <= i < RPC_COUNT && n == #[trigger] rpc_name(i)
}

proof fn lemma_rpc_name_not_header(i: int)
    requires
        0 <= i < RPC_COUNT,
    ensures
        !is_header_name(rpc_name(i)),
        rpc_name(i) != "Fault"@,
{
    reveal_strlit("ID");
    reveal_strlit("SessionTimeout");
    reveal_strlit("SupportedCWMPVersions");
    reveal_strlit("UseCWMPVersion");
    reveal_strlit("Fault");
    reveal_strlit("GetRPCMethods");
    reveal_strlit("SetParameterValues");
    reveal_strlit("GetParameterValues");
    reveal_strlit("GetParameterNames");
    reveal_strlit("SetParameterAttributes");
    reveal_strlit("GetParameterAttributes");
    reveal_strlit("AddObject");
    reveal_strlit("DeleteObject");
    reveal_strlit("Reboot");
    reveal_strlit("Download");
    reveal_strlit("ScheduleDownload");
    reveal_strlit("Upload");
    reveal_strlit("FactoryReset");
    reveal_strlit("GetAllQueuedTransfers");
    reveal_strlit("CancelTransfer");
    reveal_strlit("ScheduleInform");
    reveal_strlit("ChangeDUState");
    reveal_strlit("GetRPCMethodsResponse");
    reveal_strlit("SetParameterValuesResponse");
    reveal_strlit("GetParameterValuesResponse");
    reveal_strlit("GetParameterNamesResponse");
    reveal_strlit("SetParameterAttributesResponse");
    reveal_strlit("GetParameterAttributesResponse");
    reveal_strlit("AddObjectResponse");
    reveal_strlit("DeleteObjectResponse");
    reveal_strlit("RebootResponse");
    reveal_strlit("DownloadResponse");
    reveal_strlit("ScheduleDownloadResponse");
    reveal_strlit("UploadResponse");
    reveal_strlit("FactoryResetResponse");
    reveal_strlit("GetAllQueuedTransfersResponse");
    reveal_strlit("CancelTransferResponse");
    reveal_strlit("ScheduleInformResponse");
    reveal_strlit("ChangeDUStateResponse");
    let n = rpc_name(i);
    assert(n[0] != header_name(1)[0] || n[1] != header_name(1)[1] || n.len() != header_name(1).len());
    assert(n[0] != header_name(3)[0] || n[1] != header_name(3)[1] || n.len() != header_name(3).len());
    assert(n[0] != header_name(2)[0] || n.len() != header_name(2).len());
    assert(n.len() != "Fault"@.len());
}

/// `a` and `b` agree at `k`: both lack it, or both hold the same node there.
pub open spec fn same_at(a: Graph, b: Graph, k: IdentV) -> bool {
    &&& a.contains_key(k) == b.contains_key(k)
    &&& a.contains_key(k) ==> a[k] == b[k]
}

pub open spec fn envelope_type(name: Seq<char>) -> IdentV {
    idv(IdentKind::Type, Some(ns_envelope()), name)
}

pub open spec fn header_key(k: IdentV) -> bool {
    (k.kind == IdentKind::Element || k.kind == IdentKind::ElementType) && is_header_name(k.name)
}

pub open spec fn rpc_key(k: IdentV) -> bool {
    k.kind == IdentKind::Element && is_rpc_name(k.name)
}

pub open spec fn fault_key(k: IdentV) -> bool {
    (k.kind == IdentKind::Element || k.kind == IdentKind::ElementType) && k.name == "Fault"@
}

pub open spec fn string_type() -> IdentV {
    idv(IdentKind::Type, Some(ns_schema()), "string"@)
}

pub open spec fn method_list() -> IdentV {
    idv(IdentKind::Type, Some(ns_cwmp_12()), "MethodList"@)
}

pub open spec fn method_list_key(k: IdentV) -> bool {
    k == method_list_content() || k == method_list() || k == string_type()
}

pub open spec fn container_key(k: IdentV) -> bool {
    k == envelope_type("Header"@) || k == envelope_type("Body"@) || k == envelope_type("detail"@)
        || k == envelope_fault()
}

/// An identity that unification reads or writes by name.
pub open spec fn engine_key(k: IdentV) -> bool {
    header_key(k) || rpc_key(k) || fault_key(k) || method_list_key(k) || container_key(k)
}

/// The content identity of the complex type `c`, if it is one and names its content.
pub open spec fn content_of(m: Graph, c: IdentV) -> Option<IdentV> {
    if m.contains_key(c) {
        match m[c] {
            MetaV::ComplexType(t) => t.content,
            _ => None,
        }
    } else {
        None
    }
}

/// The contents of `Header`, `Body` and `detail` are three distinct nodes, none of them one
/// that unification reads or writes by name.
pub open spec fn contents_apart(m: Graph) -> bool {
    let h = content_of(m, envelope_type("Header"@));
    let b = content_of(m, envelope_type("Body"@));
    let d = content_of(m, envelope_type("detail"@));
    &&& h matches Some(x) ==> !engine_key(x)
    &&& b matches Some(x) ==> !engine_key(x)
    &&& d matches Some(x) ==> !engine_key(x)
    &&& h is Some && b is Some ==> h != b
    &&& h is Some && d is Some ==> h != d
    &&& b is Some && d is Some ==> b != d
}

proof fn lemma_literals()
    ensures
        forall|i: int, j: int|
            0 <= i < HEADER_COUNT && 0 <= j < HEADER_COUNT && i != j ==> header_name(i)
                != header_name(j),
        forall|i: int, j: int|
            0 <= i < 3 && 0 <= j < 3 && i != j ==> version_namespace(i) != version_namespace(j),
        !is_header_name("Fault"@),
        ns_envelope() != ns_schema(),
        ns_envelope() != ns_cwmp_12(),
        "Header"@ != "Body"@,
        "Header"@ != "detail"@,
        "Header"@ != "Fault"@,
        "Body"@ != "detail"@,
        "Body"@ != "Fault"@,
        "detail"@ != "Fault"@,
{
    reveal_strlit("ID");
    reveal_strlit("SessionTimeout");
    reveal_strlit("SupportedCWMPVersions");
    reveal_strlit("UseCWMPVersion");
    reveal_strlit("Fault");
    reveal_strlit("Header");
    reveal_strlit("Body");
    reveal_strlit("detail");
    reveal_strlit("http://schemas.xmlsoap.org/soap/envelope/");
    reveal_strlit("http://www.w3.org/2001/XMLSchema");
    reveal_strlit("urn:dslforum-org:cwmp-1-0");
    reveal_strlit("urn:dslforum-org:cwmp-1-1");
    reveal_strlit("urn:dslforum-org:cwmp-1-2");
    assert(header_name(1)[0] != header_name(3)[0]);
    assert forall|i: int, j: int|
        0 <= i < HEADER_COUNT && 0 <= j < HEADER_COUNT && i != j implies header_name(i)
            != header_name(j) by {
        if (i == 1 && j == 3) || (i == 3 && j == 1) {
            assert(header_name(i)[0] != header_name(j)[0]);
        } else {
            assert(header_name(i).len() != header_name(j).len());
        }
    }
    assert(ns_cwmp_10()[24] != ns_cwmp_11()[24]);
    assert(ns_cwmp_10()[24] != ns_cwmp_12()[24]);
    assert(ns_cwmp_11()[24] != ns_cwmp_12()[24]);
    assert(ns_envelope().len() != ns_schema().len());
    assert(ns_envelope().len() != ns_cwmp_12().len());
    assert("Header"@.len() != "Body"@.len());
    assert("Header"@.len() != "Fault"@.len());
    assert("Body"@.len() != "Fault"@.len());
    assert("Body"@.len() != "detail"@.len());
    assert("detail"@.len() != "Fault"@.len());
    assert("Header"@[0] != "detail"@[0]);
}

pub open spec fn header_type_key(i: int, ns: Option<Seq<char>>) -> IdentV {
    idv(IdentKind::ElementType, ns, header_name(i))
}

pub open spec fn header_element_key(i: int, ns: Option<Seq<char>>) -> IdentV {
    idv(IdentKind::Element, ns, header_name(i))
}

/// Header `i` has its canonical element and type, equal to the version-scoped ones.
pub open spec fn header_copied(u: Graph, i: int) -> bool {
    let ns = Some(header_namespace(i));
    &&& u.contains_key(header_type_key(i, ns))
    &&& u.contains_key(header_element_key(i, ns))
    &&& u.contains_key(header_type_key(i, None))
    &&& u.contains_key(header_element_key(i, None))
    &&& u[header_type_key(i, None)] == u[header_type_key(i, ns)]
    &&& u[header_element_key(i, None)] == u[header_element_key(i, ns)]
}

/// The complex type `c` has content `ci`, the given bounds, and `ci` holds `content`.
pub open spec fn container_done(u: Graph, c: IdentV, ci: IdentV, min: Option<u32>, content: MetaV) -> bool {
    &&& u.contains_key(c)
    &&& u[c] is ComplexType
    &&& u[c]->ComplexType_0.content == Some(ci)
    &&& u[c]->ComplexType_0.max_occurs == MaxOccurs::Unbounded
    &&& (min matches Some(v) ==> u[c]->ComplexType_0.min_occurs == v)
    &&& u.contains_key(ci)
    &&& u[ci] == content
}

pub open spec fn headers_done(u: Graph, ch: IdentV) -> bool {
    &&& forall|i: int| 0 <= i < HEADER_COUNT ==> #[trigger] header_copied(u, i)
    &&& container_done(u, envelope_type("Header"@), ch, Some(0), MetaV::Choice(header_alternatives()))
}

proof fn lemma_container_fixed(u: Graph, c: IdentV, ci: IdentV, min: Option<u32>, content: MetaV)
    requires
        container_done(u, c, ci, min, content),
    ensures
        rewrite_container(u, c, min, content) == Ok::<Graph, crate::error::CwmpError>(u),
{
    let t = u[c]->ComplexType_0;
    let t2 = ComplexMetaV {
        max_occurs: MaxOccurs::Unbounded,
        min_occurs: match min {
            Some(v) => v,
            None => t.min_occurs,
        },
        ..t
    };
    assert(t2 == t);
    assert(u.insert(c, MetaV::ComplexType(t2)).insert(ci, content) =~= u);
}

proof fn lemma_copy_headers_fixed(u: Graph, n: int)
    requires
        0 <= n <= HEADER_COUNT,
        forall|i: int| 0 <= i < HEADER_COUNT ==> #[trigger] header_copied(u, i),
    ensures
        copy_headers(u, n) == Ok::<Graph, crate::error::CwmpError>(u),
    decreases n,
{
    if n > 0 {
        lemma_copy_headers_fixed(u, n - 1);
        assert(header_copied(u, n - 1));
        let ns = Some(header_namespace(n - 1));
        assert(u.insert(header_type_key(n - 1, None), u[header_type_key(n - 1, ns)]).insert(
            header_element_key(n - 1, None),
            u[header_element_key(n - 1, ns)],
        ) =~= u);
    }
}

proof fn lemma_headers_fixed(u: Graph, ch: IdentV)
    requires
        headers_done(u, ch),
    ensures
        unify_headers(u) == Ok::<Graph, crate::error::CwmpError>(u),
{
    lemma_copy_headers_fixed(u, HEADER_COUNT as int);
    lemma_container_fixed(u, envelope_type("Header"@), ch, Some(0), MetaV::Choice(header_alternatives()));
}

proof fn lemma_copy_headers_effect(m: Graph, n: int)
    requires
        0 <= n <= HEADER_COUNT,
        copy_headers(m, n) is Ok,
    ensures
        forall|k: IdentV| !header_key(k) || k.namespace is Some ==> #[trigger] same_at(m, copy_headers(m, n)->Ok_0, k),
        forall|i: int| 0 <= i < n ==> #[trigger] header_copied(copy_headers(m, n)->Ok_0, i),
    decreases n,
{
    if n > 0 {
        lemma_copy_headers_effect(m, n - 1);
        lemma_literals();
        let m1 = copy_headers(m, n - 1)->Ok_0;
        let m2 = copy_headers(m, n)->Ok_0;
        let ns = Some(header_namespace(n - 1));
        assert forall|k: IdentV| !header_key(k) || k.namespace is Some implies #[trigger] same_at(m, m2, k) by {
            assert(same_at(m, m1, k));
            assert(is_header_name(header_name(n - 1)));
        }
        assert forall|i: int| 0 <= i < n implies #[trigger] header_copied(m2, i) by {
            if i < n - 1 {
                assert(header_copied(m1, i));
                assert(header_name(i) != header_name(n - 1));
            }
        }
    }
}

/// What header unification does: the headers are done, and only header identities, the
/// `Header` type and its content node change.
proof fn lemma_headers_effect(m: Graph)
    requires
        unify_headers(m) is Ok,
        content_of(m, envelope_type("Header"@)) matches Some(x) ==> !engine_key(x),
    ensures
        content_of(m, envelope_type("Header"@)) is Some,
        headers_done(unify_headers(m)->Ok_0, content_of(m, envelope_type("Header"@))->Some_0),
        forall|k: IdentV|
            !header_key(k) && k != envelope_type("Header"@) && Some(k) != content_of(
                m,
                envelope_type("Header"@),
            ) ==> #[trigger] same_at(m, unify_headers(m)->Ok_0, k),
{
    lemma_copy_headers_effect(m, HEADER_COUNT as int);
    let m1 = copy_headers(m, HEADER_COUNT as int)->Ok_0;
    let hc = envelope_type("Header"@);
    assert(same_at(m, m1, hc));
    let ch = content_of(m, hc)->Some_0;
    let u = unify_headers(m)->Ok_0;
    assert forall|i: int| 0 <= i < HEADER_COUNT implies #[trigger] header_copied(u, i) by {
        assert(header_copied(m1, i));
        assert(is_header_name(header_name(i)));
    }
    assert forall|k: IdentV|
        !header_key(k) && k != hc && Some(k) != content_of(m, hc) implies #[trigger] same_at(m, u, k) by {
        assert(same_at(m, m1, k));
    }
}

proof fn lemma_headers_transfer(u: Graph, v: Graph, ch: IdentV)
    requires
        headers_done(u, ch),
        forall|k: IdentV|
            header_key(k) || k == envelope_type("Header"@) || k == ch ==> #[trigger] same_at(u, v, k),
    ensures
        headers_done(v, ch),
{
    assert forall|i: int| 0 <= i < HEADER_COUNT implies #[trigger] header_copied(v, i) by {
        assert(header_copied(u, i));
        assert(is_header_name(header_name(i)));
        let ns = Some(header_namespace(i));
        assert(same_at(u, v, header_type_key(i, ns)));
        assert(same_at(u, v, header_element_key(i, ns)));
        assert(same_at(u, v, header_type_key(i, None)));
        assert(same_at(u, v, header_element_key(i, None)));
    }
    assert(same_at(u, v, envelope_type("Header"@)));
    assert(same_at(u, v, ch));
}

pub open spec fn string_items() -> MetaV {
    MetaV::Sequence(
        seq![element_v(idv(IdentKind::Element, None, "string"@), string_type(), 1, MaxOccurs::Unbounded)],
    )
}

pub open spec fn method_list_done(u: Graph) -> bool {
    &&& u.contains_key(string_type())
    &&& u.contains_key(method_list_content())
    &&& u[method_list_content()] == string_items()
    &&& u.contains_key(method_list())
    &&& u[method_list()] is ComplexType
    &&& u[method_list()]->ComplexType_0.base == BaseV::Restriction(method_list_content())
}

proof fn lemma_method_list_fixed(u: Graph)
    requires
        method_list_done(u),
    ensures
        restrict_method_list(u) == Ok::<Graph, crate::error::CwmpError>(u),
{
    let t = u[method_list()]->ComplexType_0;
    assert(ComplexMetaV { base: BaseV::Restriction(method_list_content()), ..t } == t);
    assert(u.insert(method_list_content(), string_items()) =~= u);
    assert(u.insert(method_list(), MetaV::ComplexType(t)) =~= u);
}

proof fn lemma_method_list_effect(m: Graph)
    requires
        restrict_method_list(m) is Ok,
    ensures
        method_list_done(restrict_method_list(m)->Ok_0),
        forall|k: IdentV|
            k != method_list_content() && k != method_list() ==> #[trigger] same_at(
                m,
                restrict_method_list(m)->Ok_0,
                k,
            ),
{
}

proof fn lemma_method_list_transfer(u: Graph, v: Graph)
    requires
        method_list_done(u),
        forall|k: IdentV| method_list_key(k) ==> #[trigger] same_at(u, v, k),
    ensures
        method_list_done(v),
{
    assert(same_at(u, v, string_type()));
    assert(same_at(u, v, method_list_content()));
    assert(same_at(u, v, method_list()));
}

pub open spec fn rpc_done(u: Graph, i: int) -> bool {
    let n = rpc_name(i);
    &&& u.contains_key(idv(IdentKind::Element, None, n))
    &&& !u.contains_key(idv(IdentKind::Element, Some(ns_cwmp_10()), n))
    &&& !u.contains_key(idv(IdentKind::Element, Some(ns_cwmp_11()), n))
    &&& !u.contains_key(idv(IdentKind::Element, Some(ns_cwmp_12()), n))
}

proof fn lemma_rpcs_fixed(u: Graph, n: int)
    requires
        0 <= n <= RPC_COUNT,
        forall|i: int| 0 <= i < RPC_COUNT ==> #[trigger] rpc_done(u, i),
    ensures
        unify_rpcs(u, n) == Ok::<Graph, crate::error::CwmpError>(u),
    decreases n,
{
    if n > 0 {
        lemma_rpcs_fixed(u, n - 1);
        assert(rpc_done(u, n - 1));
        let name = rpc_name(n - 1);
        assert(u.remove(idv(IdentKind::Element, Some(ns_cwmp_10()), name)).remove(
            idv(IdentKind::Element, Some(ns_cwmp_11()), name),
        ).remove(idv(IdentKind::Element, Some(ns_cwmp_12()), name)) =~= u);
    }
}

proof fn lemma_rpcs_effect(m: Graph, n: int)
    requires
        0 <= n <= RPC_COUNT,
        unify_rpcs(m, n) is Ok,
    ensures
        forall|k: IdentV| !rpc_key(k) ==> #[trigger] same_at(m, unify_rpcs(m, n)->Ok_0, k),
        forall|i: int| 0 <= i < n ==> #[trigger] rpc_done(unify_rpcs(m, n)->Ok_0, i),
    decreases n,
{
    if n > 0 {
        lemma_rpcs_effect(m, n - 1);
        let m1 = unify_rpcs(m, n - 1)->Ok_0;
        let m2 = unify_rpcs(m, n)->Ok_0;
        assert forall|k: IdentV| !rpc_key(k) implies #[trigger] same_at(m, m2, k) by {
            assert(same_at(m, m1, k));
            assert(is_rpc_name(rpc_name(n - 1)));
        }
        assert forall|i: int| 0 <= i < n implies #[trigger] rpc_done(m2, i) by {
            if i < n - 1 {
                assert(rpc_done(m1, i));
            }
        }
    }
}

pub open spec fn body_done(u: Graph, cb: IdentV) -> bool {
    &&& forall|i: int| 0 <= i < RPC_COUNT ==> #[trigger] rpc_done(u, i)
    &&& u.contains_key(envelope_fault())
    &&& container_done(u, envelope_type("Body"@), cb, None, MetaV::Choice(body_alternatives()))
}

proof fn lemma_body_fixed(u: Graph, cb: IdentV)
    requires
        body_done(u, cb),
    ensures
        unify_body(u) == Ok::<Graph, crate::error::CwmpError>(u),
{
    lemma_rpcs_fixed(u, RPC_COUNT as int);
    lemma_container_fixed(u, envelope_type("Body"@), cb, None, MetaV::Choice(body_alternatives()));
}

/// What body unification does: the body is done, and only RPC elements, the `Body` type and
/// its content node change.
proof fn lemma_body_effect(m: Graph)
    requires
        unify_body(m) is Ok,
        content_of(m, envelope_type("Body"@)) matches Some(x) ==> !engine_key(x),
    ensures
        content_of(m, envelope_type("Body"@)) is Some,
        body_done(unify_body(m)->Ok_0, content_of(m, envelope_type("Body"@))->Some_0),
        forall|k: IdentV|
            !rpc_key(k) && k != envelope_type("Body"@) && Some(k) != content_of(
                m,
                envelope_type("Body"@),
            ) ==> #[trigger] same_at(m, unify_body(m)->Ok_0, k),
{
    lemma_rpcs_effect(m, RPC_COUNT as int);
    let m1 = unify_rpcs(m, RPC_COUNT as int)->Ok_0;
    let bc = envelope_type("Body"@);
    assert(same_at(m, m1, bc));
    let u = unify_body(m)->Ok_0;
    let cb = content_of(m, bc)->Some_0;
    assert forall|i: int| 0 <= i < RPC_COUNT implies #[trigger] rpc_done(u, i) by {
        assert(rpc_done(m1, i));
        assert(is_rpc_name(rpc_name(i)));
    }
    assert forall|k: IdentV|
        !rpc_key(k) && k != bc && Some(k) != content_of(m, bc) implies #[trigger] same_at(m, u, k) by {
        assert(same_at(m, m1, k));
    }
}

proof fn lemma_body_transfer(u: Graph, v: Graph, cb: IdentV)
    requires
        body_done(u, cb),
        forall|k: IdentV|
            rpc_key(k) || k == envelope_type("Body"@) || k == cb || k == envelope_fault()
                ==> #[trigger] same_at(u, v, k),
    ensures
        body_done(v, cb),
{
    assert forall|i: int| 0 <= i < RPC_COUNT implies #[trigger] rpc_done(v, i) by {
        assert(rpc_done(u, i));
        assert(is_rpc_name(rpc_name(i)));
        let n = rpc_name(i);
        assert(same_at(u, v, idv(IdentKind::Element, None, n)));
        assert(same_at(u, v, idv(IdentKind::Element, Some(ns_cwmp_10()), n)));
        assert(same_at(u, v, idv(IdentKind::Element, Some(ns_cwmp_11()), n)));
        assert(same_at(u, v, idv(IdentKind::Element, Some(ns_cwmp_12()), n)));
    }
    assert(same_at(u, v, envelope_type("Body"@)));
    assert(same_at(u, v, cb));
    assert(same_at(u, v, envelope_fault()));
}

pub open spec fn fault_element_key(v: int) -> IdentV {
    idv(IdentKind::Element, Some(version_namespace(v)), "Fault"@)
}

pub open spec fn fault_type_key(v: int) -> IdentV {
    idv(IdentKind::ElementType, Some(version_namespace(v)), "Fault"@)
}

pub open spec fn fault_version_done(u: Graph, v: int) -> bool {
    &&& u.contains_key(fault_element_key(v))
    &&& u[fault_element_key(v)] == MetaV::Reference(canonical_fault())
    &&& !u.contains_key(fault_type_key(v))
}

pub open spec fn fault_detail_content() -> MetaV {
    MetaV::Sequence(seq![element_v(canonical_fault(), canonical_fault(), 1, MaxOccurs::Bounded(1))])
}

pub open spec fn fault_done(u: Graph, cd: IdentV) -> bool {
    let dc = envelope_type("detail"@);
    &&& u.contains_key(canonical_fault())
    &&& forall|v: int| 0 <= v < 3 ==> #[trigger] fault_version_done(u, v)
    &&& u.contains_key(dc)
    &&& u[dc] is ComplexType
    &&& u[dc]->ComplexType_0.content == Some(cd)
    &&& u.contains_key(cd)
    &&& u[cd] == fault_detail_content()
}

proof fn lemma_repoint_fixed(u: Graph, n: int)
    requires
        0 <= n <= 3,
        forall|v: int| 0 <= v < 3 ==> #[trigger] fault_version_done(u, v),
    ensures
        repoint_faults(u, n) == Ok::<Graph, crate::error::CwmpError>(u),
    decreases n,
{
    if n > 0 {
        lemma_repoint_fixed(u, n - 1);
        assert(fault_version_done(u, n - 1));
        assert(u.insert(fault_element_key(n - 1), MetaV::Reference(canonical_fault())).remove(
            fault_type_key(n - 1),
        ) =~= u);
    }
}

proof fn lemma_fault_fixed(u: Graph, cd: IdentV)
    requires
        fault_done(u, cd),
    ensures
        unify_fault(u) == Ok::<Graph, crate::error::CwmpError>(u),
{
    assert(fault_version_done(u, 2));
    lemma_repoint_fixed(u, 3);
    assert(unify_fault_detail(u) == Ok::<Graph, crate::error::CwmpError>(u)) by {
        assert(u.insert(cd, fault_detail_content()) =~= u);
    }
}

proof fn lemma_repoint_effect(m: Graph, n: int)
    requires
        0 <= n <= 3,
        repoint_faults(m, n) is Ok,
    ensures
        forall|k: IdentV|
            !fault_key(k) || k.namespace is None ==> #[trigger] same_at(m, repoint_faults(m, n)->Ok_0, k),
        forall|v: int| 0 <= v < n ==> #[trigger] fault_version_done(repoint_faults(m, n)->Ok_0, v),
    decreases n,
{
    if n > 0 {
        lemma_repoint_effect(m, n - 1);
        lemma_literals();
        let m1 = repoint_faults(m, n - 1)->Ok_0;
        let m2 = repoint_faults(m, n)->Ok_0;
        assert forall|k: IdentV| !fault_key(k) || k.namespace is None implies #[trigger] same_at(m, m2, k) by {
            assert(same_at(m, m1, k));
        }
        assert forall|v: int| 0 <= v < n implies #[trigger] fault_version_done(m2, v) by {
            if v < n - 1 {
                assert(fault_version_done(m1, v));
                assert(version_namespace(v) != version_namespace(n - 1));
            }
        }
    }
}

/// What fault unification does: the fault is done, and only fault identities and the
/// `detail` content node change.
proof fn lemma_fault_effect(m: Graph)
    requires
        unify_fault(m) is Ok,
        content_of(m, envelope_type("detail"@)) matches Some(x) ==> !engine_key(x),
    ensures
        content_of(m, envelope_type("detail"@)) is Some,
        fault_done(unify_fault(m)->Ok_0, content_of(m, envelope_type("detail"@))->Some_0),
        forall|k: IdentV|
            !fault_key(k) && Some(k) != content_of(m, envelope_type("detail"@)) ==> #[trigger] same_at(
                m,
                unify_fault(m)->Ok_0,
                k,
            ),
{
    let src = idv(IdentKind::ElementType, Some(ns_cwmp_12()), "Fault"@);
    let m1 = if m.contains_key(src) {
        m.insert(canonical_fault(), m[src])
    } else {
        m
    };
    assert(m1.contains_key(canonical_fault()));
    lemma_repoint_effect(m1, 3);
    let m2 = repoint_faults(m1, 3)->Ok_0;
    let dc = envelope_type("detail"@);
    assert(same_at(m1, m2, dc));
    assert(same_at(m1, m2, canonical_fault()));
    assert(same_at(m, m1, dc));
    let cd = content_of(m, dc)->Some_0;
    let u = unify_fault(m)->Ok_0;
    assert(u == m2.insert(cd, fault_detail_content()));
    assert forall|v: int| 0 <= v < 3 implies #[trigger] fault_version_done(u, v) by {
        assert(fault_version_done(m2, v));
    }
    assert forall|k: IdentV| !fault_key(k) && Some(k) != content_of(m, dc) implies #[trigger] same_at(m, u, k) by {
        assert(same_at(m1, m2, k));
    }
}

proof fn lemma_fault_transfer(u: Graph, v: Graph, cd: IdentV)
    requires
        fault_done(u, cd),
        forall|k: IdentV|
            fault_key(k) || k == envelope_type("detail"@) || k == cd ==> #[trigger] same_at(u, v, k),
    ensures
        fault_done(v, cd),
{
    assert forall|i: int| 0 <= i < 3 implies #[trigger] fault_version_done(v, i) by {
        assert(fault_version_done(u, i));
        assert(same_at(u, v, fault_element_key(i)));
        assert(same_at(u, v, fault_type_key(i)));
    }
    assert(same_at(u, v, canonical_fault()));
    assert(same_at(u, v, envelope_type("detail"@)));
    assert(same_at(u, v, cd));
}

/// The canonical graph that unification builds: the `Header` content is the choice of the
/// four canonical headers, any number of times (lower bound 0, upper bound unbounded), each
/// canonical header a copy of its version-scoped one; `MethodList` is a restriction to one or
/// more strings; the `Body` content is the choice of the canonical RPC elements and the fault,
/// with no version keeping its own RPC element; every version's `Fault` element points at the
/// one canonical fault, and the `detail` content holds that fault alone. This holds of every
/// raw graph whose `Header`, `Body` and `detail` types name distinct content nodes that
/// unification does not also read or write by name.
pub proof fn law_unified_graph(m: Graph)
    requires
        unify_spec(m) is Ok,
        contents_apart(m),
    ensures
        content_of(m, envelope_type("Header"@)) is Some,
        content_of(m, envelope_type("Body"@)) is Some,
        content_of(m, envelope_type("detail"@)) is Some,
        headers_done(unify_spec(m)->Ok_0, content_of(m, envelope_type("Header"@))->Some_0),
        method_list_done(unify_spec(m)->Ok_0),
        body_done(unify_spec(m)->Ok_0, content_of(m, envelope_type("Body"@))->Some_0),
        fault_done(unify_spec(m)->Ok_0, content_of(m, envelope_type("detail"@))->Some_0),
{
    lemma_literals();
    let hc = envelope_type("Header"@);
    let bc = envelope_type("Body"@);
    let dc = envelope_type("detail"@);

    lemma_headers_effect(m);
    let ch = content_of(m, hc)->Some_0;
    let m1 = unify_headers(m)->Ok_0;
    assert(same_at(m, m1, bc));
    assert(same_at(m, m1, dc));

    lemma_method_list_effect(m1);
    let m2 = restrict_method_list(m1)->Ok_0;
    assert(same_at(m1, m2, bc));
    assert(same_at(m1, m2, dc));
    lemma_headers_transfer(m1, m2, ch);

    lemma_body_effect(m2);
    let cb = content_of(m2, bc)->Some_0;
    let m3 = unify_body(m2)->Ok_0;
    assert(same_at(m2, m3, dc));
    assert forall|k: IdentV|
        header_key(k) || k == hc || k == ch implies #[trigger] same_at(m2, m3, k) by {
        if rpc_key(k) {
            let i = choose|i: int| 0 <= i < RPC_COUNT && k.name == #[trigger] rpc_name(i);
            lemma_rpc_name_not_header(i);
        }
    }
    lemma_headers_transfer(m2, m3, ch);
    lemma_method_list_transfer(m2, m3);

    lemma_fault_effect(m3);
    let cd = content_of(m3, dc)->Some_0;
    let u = unify_fault(m3)->Ok_0;
    lemma_headers_transfer(m3, u, ch);
    lemma_method_list_transfer(m3, u);
    assert forall|k: IdentV|
        rpc_key(k) || k == bc || k == cb || k == envelope_fault() implies #[trigger] same_at(m3, u, k) by {
        if rpc_key(k) {
            let i = choose|i: int| 0 <= i < RPC_COUNT && k.name == #[trigger] rpc_name(i);
            lemma_rpc_name_not_header(i);
        }
    }
    lemma_body_transfer(m3, u, cb);
}

/// Unification is idempotent: run on its own result, it gives that result back unchanged,
/// with the same identities and the same nodes. This holds of every raw graph whose `Header`,
/// `Body` and `detail` types name distinct content nodes that unification does not also read
/// or write by name.
pub proof fn law_unify_idempotent(m: Graph)
    requires
        unify_spec(m) is Ok,
        contents_apart(m),
    ensures
        unify_spec(unify_spec(m)->Ok_0) == unify_spec(m),
{
    law_unified_graph(m);
    let u = unify_spec(m)->Ok_0;
    lemma_headers_fixed(u, content_of(m, envelope_type("Header"@))->Some_0);
    lemma_method_list_fixed(u);
    lemma_body_fixed(u, content_of(m, envelope_type("Body"@))->Some_0);
    lemma_fault_fixed(u, content_of(m, envelope_type("detail"@))->Some_0);
}

} // verus!
