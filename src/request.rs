//! RPC requests and their encoding as SOAP-encoded XML elements.
use vstd::prelude::*;
use crate::error::CwmpError;
use crate::path::{ParameterName, PathText, path_is_valid, path_kind};
use crate::text::{decimal, format_decimal};
use crate::xml::{XmlElement, XmlNode, attribute_pairs, is_text_element};

verus! {

/// A typed value: its `xsd` type tag (such as `string`) and its text.
#[derive(Debug)]
pub struct ParameterValueStructValue {
    pub type_: String,
    pub value: String,
}

/// One parameter assignment.
#[derive(Debug)]
pub struct ParameterValueStruct {
    pub name: String,
    pub value: ParameterValueStructValue,
}

/// The assignments of a `SetParameterValues` call, in order.
#[derive(Debug)]
pub struct ParameterList(pub Vec<ParameterValueStruct>);

/// The paths of a `GetParameterValues` call, in order.
#[derive(Debug)]
pub struct ParameterNames(pub Vec<ParameterName>);

#[derive(Debug)]
pub struct GetParameterValues {
    pub parameter_names: ParameterNames,
}

#[derive(Debug)]
pub struct SetParameterValues {
    pub parameter_list: ParameterList,
    pub parameter_key: String,
}

/// A request that this layer sends.
#[derive(Debug)]
pub enum Request {
    SetParameterValues(SetParameterValues),
    GetParameterValues(GetParameterValues),
}

/// The SOAP-encoding array type `item[n]`.
pub open spec fn array_type(item: Seq<char>, n: nat) -> Seq<char> {
    item + "["@ + decimal(n) + "]"@
}

/// The element of a `Value`: its text typed by `xsi:type="xsd:<tag>"`.
pub open spec fn encodes_typed_value(v: ParameterValueStructValue, e: XmlElement) -> bool {
    &&& e.name@ == "Value"@
    &&& attribute_pairs(e.attributes@) == seq![("xsi:type"@, "xsd:"@ + v.type_@)]
    &&& e.children@ == seq![XmlNode::Text(v.value)]
}

pub open spec fn encodes_value_struct(p: ParameterValueStruct, e: XmlElement) -> bool {
    &&& e.name@ == "ParameterValueStruct"@
    &&& e.attributes@.len() == 0
    &&& e.children@.len() == 2
    &&& e.children@[0] is Element
    &&& is_text_element(e.children@[0]->Element_0, "Name"@, p.name@)
    &&& e.children@[1] is Element
    &&& encodes_typed_value(p.value, e.children@[1]->Element_0)
}

/// `e` is the `ParameterList` array of `l`, its declared count being `l`'s length.
pub open spec fn encodes_parameter_list(l: Seq<ParameterValueStruct>, e: XmlElement) -> bool {
    &&& e.name@ == "ParameterList"@
    &&& attribute_pairs(e.attributes@) == seq![
        ("soapenc:arrayType"@, array_type("cwmp:ParameterValueStruct"@, l.len())),
    ]
    &&& e.children@.len() == l.len()
    &&& forall|i: int|
        0 <= i < l.len() ==> (#[trigger] e.children@[i] is Element && encodes_value_struct(
            l[i],
            e.children@[i]->Element_0,
        ))
}

/// `e` is the `ParameterNames` array of `l`, each path in a `string` element.
pub open spec fn encodes_parameter_names(l: Seq<ParameterName>, e: XmlElement) -> bool {
    &&& e.name@ == "ParameterNames"@
    &&& attribute_pairs(e.attributes@) == seq![
        ("soapenc:arrayType"@, array_type("xsd:string"@, l.len())),
    ]
    &&& e.children@.len() == l.len()
    &&& forall|i: int|
        0 <= i < l.len() ==> (#[trigger] e.children@[i] is Element && is_text_element(
            e.children@[i]->Element_0,
            "string"@,
            l[i].path(),
        ))
}

/// The qualified element name of a request.
pub open spec fn request_element_name(r: Request) -> Seq<char> {
    match r {
        Request::SetParameterValues(_) => "cwmp:SetParameterValues"@,
        Request::GetParameterValues(_) => "cwmp:GetParameterValues"@,
    }
}

/// `e` is the element of the request `r`.
pub open spec fn encodes_request(r: Request, e: XmlElement) -> bool {
    &&& e.name@ == request_element_name(r)
    &&& e.attributes@.len() == 0
    &&& match r {
        Request::SetParameterValues(s) => {
            &&& e.children@.len() == 2
            &&& e.children@[0] is Element
            &&& encodes_parameter_list(s.parameter_list.0@, e.children@[0]->Element_0)
            &&& e.children@[1] is Element
            &&& is_text_element(e.children@[1]->Element_0, "ParameterKey"@, s.parameter_key@)
        },
        Request::GetParameterValues(g) => {
            &&& e.children@.len() == 1
            &&& e.children@[0] is Element
            &&& encodes_parameter_names(g.parameter_names.0@, e.children@[0]->Element_0)
        },
    }
}

/// Writes `item[n]`.
pub fn format_array_type(item: &str, n: usize) -> (r: String)
    ensures
        r@ == array_type(item@, n as nat),
{
    let mut s = String::from_str(item);
    s.append("[");
    let count = format_decimal(n as u64);
    s.append(count.as_str());
    s.append("]");
    s
}

impl ParameterValueStruct {
    pub fn into_element(self) -> (r: XmlElement)
        ensures
            encodes_value_struct(self, r),
    {
        let ParameterValueStruct { name, value } = self;
        let ParameterValueStructValue { type_, value: text } = value;
        let mut tag = String::from_str("xsd:");
        tag.append(type_.as_str());
        let v = XmlElement::new("Value").with_attribute("xsi:type", tag).with_text(text);
        proof {
            assert(attribute_pairs(v.attributes@) =~= seq![("xsi:type"@, "xsd:"@ + type_@)]);
            assert(v.children@ =~= seq![XmlNode::Text(text)]);
        }
        XmlElement::new("ParameterValueStruct")
            .with_child(XmlElement::text_element("Name", name))
            .with_child(v)
    }
}

impl ParameterList {
    pub fn into_element(self) -> (r: XmlElement)
        ensures
            encodes_parameter_list(self.0@, r),
    {
        let ghost items = self.0@;
        let n = self.0.len();
        let mut e = XmlElement::new("ParameterList").with_attribute(
            "soapenc:arrayType",
            format_array_type("cwmp:ParameterValueStruct", n),
        );
        proof {
            assert(attribute_pairs(e.attributes@) =~= seq![
                ("soapenc:arrayType"@, array_type("cwmp:ParameterValueStruct"@, n as nat)),
            ]);
        }
        let ghost attrs = e.attributes;
        let mut rest = self.0;
        assert(rest@ =~= items.subrange(0, n as int));
        let mut i: usize = 0;
        while i < n
            invariant
                n == items.len(),
                i <= n,
                rest@ == items.subrange(i as int, n as int),
                e.name@ == "ParameterList"@,
                e.attributes == attrs,
                attribute_pairs(attrs@) == seq![
                    ("soapenc:arrayType"@, array_type("cwmp:ParameterValueStruct"@, n as nat)),
                ],
                e.children@.len() == i,
                forall|j: int|
                    0 <= j < i ==> (#[trigger] e.children@[j] is Element && encodes_value_struct(
                        items[j],
                        e.children@[j]->Element_0,
                    )),
            decreases n - i,
        {
            let p = rest.remove(0);
            assert(p == items[i as int]);
            assert(rest@ =~= items.subrange(i + 1, n as int));
            e = e.with_child(p.into_element());
            i = i + 1;
        }
        e
    }
}

impl ParameterNames {
    pub fn into_element(self) -> (r: XmlElement)
        ensures
            encodes_parameter_names(self.0@, r),
    {
        let ghost items = self.0@;
        let n = self.0.len();
        let mut e = XmlElement::new("ParameterNames").with_attribute(
            "soapenc:arrayType",
            format_array_type("xsd:string", n),
        );
        proof {
            assert(attribute_pairs(e.attributes@) =~= seq![
                ("soapenc:arrayType"@, array_type("xsd:string"@, n as nat)),
            ]);
        }
        let ghost attrs = e.attributes;
        let mut rest = self.0;
        assert(rest@ =~= items.subrange(0, n as int));
        let mut i: usize = 0;
        while i < n
            invariant
                n == items.len(),
                i <= n,
                rest@ == items.subrange(i as int, n as int),
                e.name@ == "ParameterNames"@,
                e.attributes == attrs,
                attribute_pairs(attrs@) == seq![
                    ("soapenc:arrayType"@, array_type("xsd:string"@, n as nat)),
                ],
                e.children@.len() == i,
                forall|j: int|
                    0 <= j < i ==> (#[trigger] e.children@[j] is Element && is_text_element(
                        e.children@[j]->Element_0,
                        "string"@,
                        items[j].path(),
                    )),
            decreases n - i,
        {
            let p = rest.remove(0);
            assert(p == items[i as int]);
            assert(rest@ =~= items.subrange(i + 1, n as int));
            e = e.with_child(XmlElement::text_element("string", p.inner()));
            i = i + 1;
        }
        e
    }
}

impl GetParameterValues {
    /// A request for no paths yet.
    pub fn new() -> (r: GetParameterValues)
        ensures
            r.parameter_names.0@.len() == 0,
    {
        GetParameterValues { parameter_names: ParameterNames(Vec::new()) }
    }

    /// Adds a path after the present ones; fails when its last segment is a wildcard.
    pub fn with_parameter<P: PathText>(self, parameter_name: P) -> (r: Result<
        GetParameterValues,
        CwmpError,
    >)
        ensures
            path_is_valid(parameter_name.text_view()) <==> r is Ok,
            r matches Err(e) ==> e == CwmpError::InvalidPath,
            r matches Ok(g) ==> {
                &&& g.parameter_names.0@.len() == self.parameter_names.0@.len() + 1
                &&& g.parameter_names.0@.drop_last() == self.parameter_names.0@
                &&& g.parameter_names.0@.last().path() == parameter_name.text_view()
                &&& g.parameter_names.0@.last().spec_kind() == path_kind(
                    parameter_name.text_view(),
                )
            },
    {
        let text = parameter_name.into_text();
        match ParameterName::try_from(text) {
            Ok(p) => {
                let mut g = self;
                g.parameter_names.0.push(p);
                proof {
                    assert(g.parameter_names.0@.drop_last() =~= self.parameter_names.0@);
                }
                Ok(g)
            },
            Err(e) => Err(e),
        }
    }

    pub fn into_element(self) -> (r: XmlElement)
        ensures
            encodes_request(Request::GetParameterValues(self), r),
    {
        XmlElement::new("cwmp:GetParameterValues").with_child(self.parameter_names.into_element())
    }
}

impl SetParameterValues {
    pub fn into_element(self) -> (r: XmlElement)
        ensures
            encodes_request(Request::SetParameterValues(self), r),
    {
        let SetParameterValues { parameter_list, parameter_key } = self;
        XmlElement::new("cwmp:SetParameterValues")
            .with_child(parameter_list.into_element())
            .with_child(XmlElement::text_element("ParameterKey", parameter_key))
    }
}

impl Request {
    /// The request's element, named after its RPC method.
    pub fn into_element(self) -> (r: XmlElement)
        ensures
            encodes_request(self, r),
    {
        match self {
            Request::SetParameterValues(inner) => inner.into_element(),
            Request::GetParameterValues(inner) => inner.into_element(),
        }
    }
}

} // verus!
