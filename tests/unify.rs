use cwmp_typed::error::CwmpError;
use cwmp_typed::graph::{
    resolve, Base, ComplexMeta, GraphEntry, Ident, IdentKind, MaxOccurs, MetaType, SchemaGraph,
};
use cwmp_typed::unify::unify;

const ENV: &str = "http://schemas.xmlsoap.org/soap/envelope/";
const XSD: &str = "http://www.w3.org/2001/XMLSchema";
const V10: &str = "urn:dslforum-org:cwmp-1-0";
const V11: &str = "urn:dslforum-org:cwmp-1-1";
const V12: &str = "urn:dslforum-org:cwmp-1-2";

const RPCS: [&str; 34] = [
    "GetRPCMethods", "SetParameterValues", "GetParameterValues", "GetParameterNames",
    "SetParameterAttributes", "GetParameterAttributes", "AddObject", "DeleteObject", "Reboot",
    "Download", "ScheduleDownload", "Upload", "FactoryReset", "GetAllQueuedTransfers",
    "CancelTransfer", "ScheduleInform", "ChangeDUState", "GetRPCMethodsResponse",
    "SetParameterValuesResponse", "GetParameterValuesResponse", "GetParameterNamesResponse",
    "SetParameterAttributesResponse", "GetParameterAttributesResponse", "AddObjectResponse",
    "DeleteObjectResponse", "RebootResponse", "DownloadResponse", "ScheduleDownloadResponse",
    "UploadResponse", "FactoryResetResponse", "GetAllQueuedTransfersResponse",
    "CancelTransferResponse", "ScheduleInformResponse", "ChangeDUStateResponse",
];

fn id(kind: IdentKind, ns: Option<&str>, name: &str) -> Ident {
    Ident::new(kind, ns, name)
}

fn complex(content: Option<Ident>) -> MetaType {
    MetaType::ComplexType(ComplexMeta {
        base: Base::Plain,
        content,
        min_occurs: 1,
        max_occurs: MaxOccurs::Bounded(1),
        is_mixed: false,
    })
}

fn builtin(name: &str) -> MetaType {
    MetaType::BuiltIn(name.to_string())
}

fn put(g: &mut SchemaGraph, k: Ident, m: MetaType) {
    g.insert(k, m);
}

/// A raw graph with every declaration that unification reads.
fn raw_graph() -> SchemaGraph {
    let mut g = SchemaGraph::new();
    for (name, ns) in [("ID", V10), ("SessionTimeout", V12), ("SupportedCWMPVersions", V12), ("UseCWMPVersion", V12)] {
        put(&mut g, id(IdentKind::ElementType, Some(ns), name), builtin(name));
        put(&mut g, id(IdentKind::Element, Some(ns), name), MetaType::Reference(id(IdentKind::ElementType, Some(ns), name)));
    }
    put(&mut g, id(IdentKind::Type, Some(ENV), "Header"), complex(Some(id(IdentKind::Type, Some(ENV), "HeaderContent"))));
    put(&mut g, id(IdentKind::Type, Some(ENV), "HeaderContent"), MetaType::Sequence(Vec::new()));
    put(&mut g, id(IdentKind::Type, Some(XSD), "string"), builtin("string"));
    put(&mut g, id(IdentKind::Type, Some(V12), "MethodList"), complex(None));
    for (i, name) in RPCS.iter().enumerate() {
        put(&mut g, id(IdentKind::Element, Some(V12), name), builtin(&format!("rpc{i}")));
        if i % 2 == 0 {
            put(&mut g, id(IdentKind::Element, Some(V10), name), builtin("old"));
            put(&mut g, id(IdentKind::Element, Some(V11), name), builtin("old"));
        }
    }
    put(&mut g, id(IdentKind::Type, Some(ENV), "Fault"), complex(None));
    put(&mut g, id(IdentKind::Type, Some(ENV), "Body"), complex(Some(id(IdentKind::Type, Some(ENV), "BodyContent"))));
    put(&mut g, id(IdentKind::Type, Some(ENV), "BodyContent"), MetaType::Sequence(Vec::new()));
    for ns in [V10, V11, V12] {
        put(&mut g, id(IdentKind::ElementType, Some(ns), "Fault"), builtin(ns));
        put(&mut g, id(IdentKind::Element, Some(ns), "Fault"), MetaType::Reference(id(IdentKind::ElementType, Some(ns), "Fault")));
    }
    put(&mut g, id(IdentKind::Type, Some(ENV), "detail"), complex(Some(id(IdentKind::Type, Some(ENV), "detailContent"))));
    put(&mut g, id(IdentKind::Type, Some(ENV), "detailContent"), MetaType::Sequence(Vec::new()));
    g
}

fn get<'a>(g: &'a SchemaGraph, kind: IdentKind, ns: Option<&str>, name: &str) -> Option<&'a MetaType> {
    resolve(g, kind, ns, name).ok()
}

#[test]
fn identity_resolver_finds_or_fails() {
    let g = raw_graph();
    assert!(matches!(get(&g, IdentKind::Type, Some(XSD), "string"), Some(MetaType::BuiltIn(n)) if n == "string"));
    assert!(matches!(resolve(&g, IdentKind::Type, None, "string"), Err(CwmpError::UnresolvedIdent)));
    assert!(matches!(resolve(&g, IdentKind::Element, Some(XSD), "string"), Err(CwmpError::UnresolvedIdent)));
}

#[test]
fn graph_well_formedness() {
    assert!(raw_graph().is_well_formed());
    let mut g = raw_graph();
    g.entries.push(GraphEntry { ident: id(IdentKind::Type, Some(XSD), "string"), meta: builtin("again") });
    assert!(!g.is_well_formed());
}

#[test]
fn graph_insert_replaces_and_remove_drops() {
    let mut g = SchemaGraph::new();
    g.insert(id(IdentKind::Type, None, "A"), builtin("one"));
    g.insert(id(IdentKind::Type, None, "A"), builtin("two"));
    g.insert(id(IdentKind::Type, Some("urn:n"), "A"), builtin("three"));
    assert_eq!(g.entries.len(), 2);
    assert!(matches!(g.get(&id(IdentKind::Type, None, "A")), Some(MetaType::BuiltIn(n)) if n == "two"));
    g.remove(&id(IdentKind::Type, None, "A"));
    assert!(g.get(&id(IdentKind::Type, None, "A")).is_none());
    assert_eq!(g.entries.len(), 1);
}

#[test]
fn unification_builds_the_canonical_graph() {
    let g = unify(raw_graph()).unwrap();

    // Headers: canonical copies and a choice of the four, any number of times.
    assert!(matches!(get(&g, IdentKind::ElementType, None, "ID"), Some(MetaType::BuiltIn(n)) if n == "ID"));
    assert!(get(&g, IdentKind::Element, None, "UseCWMPVersion").is_some());
    let Some(MetaType::ComplexType(header)) = get(&g, IdentKind::Type, Some(ENV), "Header") else { panic!() };
    assert_eq!(header.min_occurs, 0);
    assert_eq!(header.max_occurs, MaxOccurs::Unbounded);
    let Some(MetaType::Choice(alts)) = get(&g, IdentKind::Type, Some(ENV), "HeaderContent") else { panic!() };
    let names: Vec<&str> = alts.iter().map(|a| a.ident.name.as_str()).collect();
    assert_eq!(names, ["ID", "SessionTimeout", "SupportedCWMPVersions", "UseCWMPVersion"]);
    assert!(alts.iter().all(|a| a.ident.namespace.is_none() && a.type_.kind == IdentKind::ElementType));

    // Method list restricted to a sequence of strings.
    let Some(MetaType::ComplexType(ml)) = get(&g, IdentKind::Type, Some(V12), "MethodList") else { panic!() };
    assert!(matches!(&ml.base, Base::Restriction(b) if b.name == "MethodListContent" && b.namespace.is_none()));
    let Some(MetaType::Sequence(items)) = get(&g, IdentKind::Type, None, "MethodListContent") else { panic!() };
    assert_eq!(items.len(), 1);
    assert_eq!(items[0].ident.name, "string");
    assert_eq!(items[0].min_occurs, 1);
    assert_eq!(items[0].max_occurs, MaxOccurs::Unbounded);

    // Body: only canonical RPC elements remain, in one choice with the fault.
    for (i, name) in RPCS.iter().enumerate() {
        assert!(matches!(get(&g, IdentKind::Element, None, name), Some(MetaType::BuiltIn(n)) if *n == format!("rpc{i}")));
        for ns in [V10, V11, V12] {
            assert!(get(&g, IdentKind::Element, Some(ns), name).is_none());
        }
    }
    let Some(MetaType::ComplexType(body)) = get(&g, IdentKind::Type, Some(ENV), "Body") else { panic!() };
    assert_eq!(body.max_occurs, MaxOccurs::Unbounded);
    let Some(MetaType::Choice(alts)) = get(&g, IdentKind::Type, Some(ENV), "BodyContent") else { panic!() };
    assert_eq!(alts.len(), 35);
    assert_eq!(alts[18].ident.name, "SetParameterValuesResponse");
    assert_eq!(alts[34].ident.name, "Fault");

    // Fault: one canonical type, every version's element pointing at it.
    assert!(matches!(get(&g, IdentKind::ElementType, None, "Fault"), Some(MetaType::BuiltIn(n)) if n == V12));
    for ns in [V10, V11, V12] {
        assert!(get(&g, IdentKind::ElementType, Some(ns), "Fault").is_none());
        assert!(matches!(get(&g, IdentKind::Element, Some(ns), "Fault"), Some(MetaType::Reference(r)) if r.namespace.is_none() && r.name == "Fault"));
    }
    let Some(MetaType::Sequence(detail)) = get(&g, IdentKind::Type, Some(ENV), "detailContent") else { panic!() };
    assert_eq!(detail.len(), 1);
    assert_eq!(detail[0].ident.name, "Fault");
}

#[test]
fn unification_twice_equals_once() {
    let once = unify(raw_graph()).unwrap();
    let count = once.entries.len();
    let twice = unify(unify(raw_graph()).unwrap()).unwrap();
    assert_eq!(twice.entries.len(), count);
    for e in &once.entries {
        let other = twice.get(&e.ident).unwrap();
        assert_eq!(format!("{:?}", other), format!("{:?}", e.meta));
    }
}

#[test]
fn unification_failures_abort() {
    let mut g = raw_graph();
    g.remove(&id(IdentKind::Element, Some(V12), "Reboot"));
    assert!(matches!(unify(g), Err(CwmpError::UnresolvedIdent)));

    let mut g = raw_graph();
    g.insert(id(IdentKind::Type, Some(ENV), "Header"), builtin("not complex"));
    assert!(matches!(unify(g), Err(CwmpError::UnexpectedVariant)));

    let mut g = raw_graph();
    g.insert(id(IdentKind::Element, Some(V11), "Fault"), builtin("not a reference"));
    assert!(matches!(unify(g), Err(CwmpError::UnexpectedVariant)));

    let mut g = raw_graph();
    g.remove(&id(IdentKind::Type, Some(XSD), "string"));
    assert!(matches!(unify(g), Err(CwmpError::UnresolvedIdent)));
}
