//! RPC responses: decoding from and encoding to their elements.
use vstd::prelude::*;
use crate::error::CwmpError;
use crate::request::{array_type, format_array_type};
use crate::text::local_part;
use crate::xml::{XmlElement, XmlNode, attribute_pairs, child_lookup, child_text, is_text_element};

verus! {

#[derive(Debug)]
pub struct SetParameterValuesResponse {
    pub status: bool,
}

/// One parameter and its value as text.
#[derive(Debug)]
pub struct ParameterValue {
    pub name: String,
    pub value: String,
}

#[derive(Debug)]
pub struct GetParameterValuesResponse {
    pub parameter_list: Vec<ParameterValue>,
}

/// A response that this layer receives; `NoContent` when a body holds no known response.
#[derive(Debug)]
pub enum Response {
    SetParameterValuesResponse(SetParameterValuesResponse),
    GetParameterValuesResponse(GetParameterValuesResponse),
    NoContent,
}

/// A response as plain values.
pub enum ResponseV {
    SetParameterValues(bool),
    GetParameterValues(Seq<(Seq<char>, Seq<char>)>),
    NoContent,
}

pub open spec fn value_pairs(s: Seq<ParameterValue>) -> Seq<(Seq<char>, Seq<char>)> {
    s.map_values(|p: ParameterValue| (p.name@, p.value@))
}

impl View for Response {
    type V = ResponseV;

    open spec fn view(&self) -> ResponseV {
        match self {
            Response::SetParameterValuesResponse(r) => ResponseV::SetParameterValues(r.status),
            Response::GetParameterValuesResponse(r) => ResponseV::GetParameterValues(
                value_pairs(r.parameter_list@),
            ),
            Response::NoContent => ResponseV::NoContent,
        }
    }
}

/// The outcome that a `Status` text spells: `1` or `0`.
pub open spec fn status_value(t: Seq<char>) -> Option<bool> {
    if t == "1"@ {
        Some(true)
    } else if t == "0"@ {
        Some(false)
    } else {
        None
    }
}

/// The status that a `SetParameterValuesResponse` element carries.
pub open spec fn decode_status(e: XmlElement) -> Result<bool, CwmpError> {
    match child_text(e.children@, "Status"@) {
        Err(err) => Err(err),
        Ok(t) => match status_value(t) {
            Some(b) => Ok(b),
            None => Err(CwmpError::InvalidValue),
        },
    }
}

/// The name and value that a `ParameterValueStruct` element carries.
pub open spec fn decode_parameter_value(e: XmlElement) -> Result<(Seq<char>, Seq<char>), CwmpError> {
    match child_text(e.children@, "Name"@) {
        Err(err) => Err(err),
        Ok(n) => match child_text(e.children@, "Value"@) {
            Err(err) => Err(err),
            Ok(v) => Ok((n, v)),
        },
    }
}

/// The parameter values among `children`, in document order.
pub open spec fn decode_parameter_values(children: Seq<XmlNode>) -> Result<
    Seq<(Seq<char>, Seq<char>)>,
    CwmpError,
>
    decreases children.len(),
{
    if children.len() == 0 {
        Ok(Seq::empty())
    } else {
        match decode_parameter_values(children.drop_last()) {
            Err(err) => Err(err),
            Ok(prefix) => match children.last() {
                XmlNode::Element(c) => if local_part(c.name@) == "ParameterValueStruct"@ {
                    match decode_parameter_value(c) {
                        Ok(p) => Ok(prefix.push(p)),
                        Err(err) => Err(err),
                    }
                } else {
                    Ok(prefix)
                },
                XmlNode::Text(_) => Ok(prefix),
            },
        }
    }
}

/// The parameter values that a `GetParameterValuesResponse` element carries.
pub open spec fn decode_get_parameter_values_response(e: XmlElement) -> Result<
    Seq<(Seq<char>, Seq<char>)>,
    CwmpError,
> {
    match child_lookup(e.children@, "ParameterList"@) {
        None => Err(CwmpError::MissingElement),
        Some(l) => decode_parameter_values(l.children@),
    }
}

pub open spec fn status_text(b: bool) -> Seq<char> {
    if b { "1"@ } else { "0"@ }
}

pub open spec fn encodes_parameter_value(p: (Seq<char>, Seq<char>), e: XmlElement) -> bool {
    &&& e.name@ == "ParameterValueStruct"@
    &&& e.attributes@.len() == 0
    &&& e.children@.len() == 2
    &&& e.children@[0] is Element
    &&& is_text_element(e.children@[0]->Element_0, "Name"@, p.0)
    &&& e.children@[1] is Element
    &&& is_text_element(e.children@[1]->Element_0, "Value"@, p.1)
}

/// `e` is the element of the response `r`; `None` for `NoContent`, which has none.
pub open spec fn encodes_response(r: ResponseV, e: Option<XmlElement>) -> bool {
    match r {
        ResponseV::NoContent => e is None,
        ResponseV::SetParameterValues(b) => e matches Some(x) && {
            &&& x.name@ == "cwmp:SetParameterValuesResponse"@
            &&& x.attributes@.len() == 0
            &&& x.children@.len() == 1
            &&& x.children@[0] is Element
            &&& is_text_element(x.children@[0]->Element_0, "Status"@, status_text(b))
        },
        ResponseV::GetParameterValues(ps) => e matches Some(x) && {
            &&& x.name@ == "cwmp:GetParameterValuesResponse"@
            &&& x.attributes@.len() == 0
            &&& x.children@.len() == 1
            &&& x.children@[0] is Element
            &&& {
                let l = x.children@[0]->Element_0;
                &&& l.name@ == "ParameterList"@
                &&& attribute_pairs(l.attributes@) == seq![
                    ("soapenc:arrayType"@, array_type("cwmp:ParameterValueStruct"@, ps.len())),
                ]
                &&& l.children@.len() == ps.len()
                &&& forall|i: int|
                    0 <= i < ps.len() ==> (#[trigger] l.children@[i] is Element
                        && encodes_parameter_value(ps[i], l.children@[i]->Element_0))
            }
        },
    }
}

impl SetParameterValuesResponse {
    /// Decodes the `Status` of a `SetParameterValuesResponse` element: `1` is true, `0` false.
    pub fn from_element(e: &XmlElement) -> (r: Result<SetParameterValuesResponse, CwmpError>)
        ensures
            match (r, decode_status(*e)) {
                (Ok(s), Ok(b)) => s.status == b,
                (Err(x), Err(y)) => x == y,
                _ => false,
            },
    {
        match e.child_text("Status") {
            Err(err) => Err(err),
            Ok(t) => {
                if t == String::from_str("1") {
                    Ok(SetParameterValuesResponse { status: true })
                } else if t == String::from_str("0") {
                    Ok(SetParameterValuesResponse { status: false })
                } else {
                    Err(CwmpError::InvalidValue)
                }
            },
        }
    }
}

/// Once a prefix of the children fails to decode, so do all the children.
proof fn lemma_value_error_sticks(children: Seq<XmlNode>, k: int)
    requires
        0 <= k <= children.len(),
        decode_parameter_values(children.take(k)) is Err,
    ensures
        decode_parameter_values(children) == decode_parameter_values(children.take(k)),
    decreases children.len() - k,
{
    if k < children.len() {
        assert(children.take(k + 1).drop_last() =~= children.take(k));
        lemma_value_error_sticks(children, k + 1);
    } else {
        assert(children.take(k) =~= children);
    }
}

impl ParameterValue {
    pub fn from_element(e: &XmlElement) -> (r: Result<ParameterValue, CwmpError>)
        ensures
            match (r, decode_parameter_value(*e)) {
                (Ok(p), Ok(v)) => (p.name@, p.value@) == v,
                (Err(x), Err(y)) => x == y,
                _ => false,
            },
    {
        let name = match e.child_text("Name") {
            Ok(t) => t,
            Err(err) => return Err(err),
        };
        let value = match e.child_text("Value") {
            Ok(t) => t,
            Err(err) => return Err(err),
        };
        Ok(ParameterValue { name, value })
    }

    pub fn into_element(self) -> (r: XmlElement)
        ensures
            encodes_parameter_value((self.name@, self.value@), r),
    {
        XmlElement::new("ParameterValueStruct")
            .with_child(XmlElement::text_element("Name", self.name))
            .with_child(XmlElement::text_element("Value", self.value))
    }
}

impl GetParameterValuesResponse {
    /// Decodes the `ParameterList` of a `GetParameterValuesResponse` element, in order.
    pub fn from_element(e: &XmlElement) -> (r: Result<GetParameterValuesResponse, CwmpError>)
        ensures
            match (r, decode_get_parameter_values_response(*e)) {
                (Ok(g), Ok(v)) => value_pairs(g.parameter_list@) == v,
                (Err(x), Err(y)) => x == y,
                _ => false,
            },
    {
        let l = match e.child("ParameterList") {
            Some(l) => l,
            None => return Err(CwmpError::MissingElement),
        };
        let n = l.children.len();
        let mut out: Vec<ParameterValue> = Vec::new();
        let mut i: usize = 0;
        assert(value_pairs(out@) =~= Seq::<(Seq<char>, Seq<char>)>::empty());
        assert(l.children@.take(0).len() == 0);
        while i < n
            invariant
                n == l.children@.len(),
                child_lookup(e.children@, "ParameterList"@) == Some(*l),
                i <= n,
                decode_parameter_values(l.children@.take(i as int)) == Ok::<
                    Seq<(Seq<char>, Seq<char>)>,
                    CwmpError,
                >(value_pairs(out@)),
            decreases n - i,
        {
            assert(l.children@.take(i + 1).drop_last() =~= l.children@.take(i as int));
            match &l.children[i] {
                XmlNode::Text(_) => {},
                XmlNode::Element(c) => {
                    if c.is_named("ParameterValueStruct") {
                        match ParameterValue::from_element(c) {
                            Ok(p) => {
                                let ghost before = out@;
                                out.push(p);
                                assert(value_pairs(out@) =~= value_pairs(before).push(
                                    (p.name@, p.value@),
                                ));
                            },
                            Err(err) => {
                                proof {
                                    assert(decode_parameter_values(l.children@.take(i + 1)) == Err::<
                                        Seq<(Seq<char>, Seq<char>)>,
                                        CwmpError,
                                    >(err));
                                    lemma_value_error_sticks(l.children@, i as int + 1);
                                }
                                return Err(err);
                            },
                        }
                    }
                },
            }
            i = i + 1;
        }
        assert(l.children@.take(n as int) =~= l.children@);
        Ok(GetParameterValuesResponse { parameter_list: out })
    }
}

impl Response {
    /// The response's element; `NoContent` has none.
    pub fn into_element(self) -> (r: Option<XmlElement>)
        ensures
            encodes_response(self@, r),
    {
        match self {
            Response::NoContent => None,
            Response::SetParameterValuesResponse(s) => {
                let t = if s.status {
                    String::from_str("1")
                } else {
                    String::from_str("0")
                };
                Some(
                    XmlElement::new("cwmp:SetParameterValuesResponse").with_child(
                        XmlElement::text_element("Status", t),
                    ),
                )
            },
            Response::GetParameterValuesResponse(g) => {
                let ghost ps = value_pairs(g.parameter_list@);
                let n = g.parameter_list.len();
                let mut l = XmlElement::new("ParameterList").with_attribute(
                    "soapenc:arrayType",
                    format_array_type("cwmp:ParameterValueStruct", n),
                );
                proof {
                    assert(attribute_pairs(l.attributes@) =~= seq![
                        ("soapenc:arrayType"@, array_type("cwmp:ParameterValueStruct"@, n as nat)),
                    ]);
                }
                let ghost attrs = l.attributes;
                let mut rest = g.parameter_list;
                let mut i: usize = 0;
                while i < n
                    invariant
                        n == ps.len(),
                        i <= n,
                        rest@.len() == n - i,
                        forall|j: int|
                            0 <= j < n - i ==> ((#[trigger] rest@[j]).name@, rest@[j].value@)
                                == ps[i + j],
                        l.name@ == "ParameterList"@,
                        l.attributes == attrs,
                        attribute_pairs(attrs@) == seq![
                            ("soapenc:arrayType"@, array_type("cwmp:ParameterValueStruct"@, n as nat)),
                        ],
                        l.children@.len() == i,
                        forall|j: int|
                            0 <= j < i ==> (#[trigger] l.children@[j] is Element
                                && encodes_parameter_value(ps[j], l.children@[j]->Element_0)),
                    decreases n - i,
                {
                    let ghost before = rest@;
                    let p = rest.remove(0);
                    assert((before[0].name@, before[0].value@) == ps[i as int]);
                    assert forall|j: int| 0 <= j < n - (i + 1) implies ((#[trigger] rest@[j]).name@,
                        rest@[j].value@) == ps[i + 1 + j] by {
                        assert(rest@[j] == before[j + 1]);
                    }
                    l = l.with_child(p.into_element());
                    i = i + 1;
                }
                Some(XmlElement::new("cwmp:GetParameterValuesResponse").with_child(l))
            },
        }
    }
}

} // verus!
