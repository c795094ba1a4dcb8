//! The domain envelope: headers and body, with their encoding and decoding.
use vstd::prelude::*;
use crate::error::CwmpError;
use crate::header::{
    HeaderType, HeaderTypeContent, HeaderV, Id, SessionTimeout, SupportedCwmpVersions,
    UseCwmpVersion, decode_header_children, decode_header_element, flag_value, header_views,
};
use crate::text::{
    decimal, format_decimal, lemma_decimal_round_trip, lemma_local_part_of_prefixed, local_part,
    numeral_value,
};
use crate::xml::{XmlElement, XmlNode, attribute_pairs, child_lookup, text_of};
use crate::body::{BodyContentV, BodyType, BodyTypeContent, decode_body_children, body_views};
use crate::fault::{Fault, FaultV, encodes_fault};
use crate::request::{Request, array_type, encodes_request, request_element_name};
use crate::unify::rpc_name;
use crate::response::{Response, ResponseV, encodes_response};

verus! {

/// A session header of an envelope.
#[derive(Debug)]
pub enum EnvelopeHeader {
    Id(Id),
    SessionTimeout(SessionTimeout),
    SupportedCwmpVersions(SupportedCwmpVersions),
    UseCwmpVersion(UseCwmpVersion),
}

/// The headers of an envelope, in order.
#[derive(Debug)]
pub struct EnvelopeHeaders(pub Vec<EnvelopeHeader>);

impl View for EnvelopeHeader {
    type V = HeaderV;

    open spec fn view(&self) -> HeaderV {
        match self {
            EnvelopeHeader::Id(h) => HeaderV::Id(h.must_understand, h.content@),
            EnvelopeHeader::SessionTimeout(h) => HeaderV::SessionTimeout(h.must_understand, h.content),
            EnvelopeHeader::SupportedCwmpVersions(h) => HeaderV::SupportedCwmpVersions(
                h.must_understand,
                h.content@,
            ),
            EnvelopeHeader::UseCwmpVersion(h) => HeaderV::UseCwmpVersion(h.must_understand, h.content@),
        }
    }
}

impl View for EnvelopeHeaders {
    type V = Seq<HeaderV>;

    open spec fn view(&self) -> Seq<HeaderV> {
        self.0@.map_values(|h: EnvelopeHeader| h@)
    }
}

/// How a `mustUnderstand` flag is written.
pub open spec fn flag_text(b: bool) -> Seq<char> {
    if b { "1"@ } else { "0"@ }
}

/// The attributes of a header whose `mustUnderstand` flag may be absent.
pub open spec fn flag_attributes(f: Option<bool>) -> Seq<(Seq<char>, Seq<char>)> {
    match f {
        Some(b) => seq![("soap:mustUnderstand"@, flag_text(b))],
        None => Seq::empty(),
    }
}

/// `e` is a header element named `name`, with attributes `attrs` and the text `t` alone.
pub open spec fn is_header_element(
    e: XmlElement,
    name: Seq<char>,
    attrs: Seq<(Seq<char>, Seq<char>)>,
    t: Seq<char>,
) -> bool {
    &&& e.name@ == name
    &&& attribute_pairs(e.attributes@) == attrs
    &&& e.children@.len() == 1
    &&& e.children@[0] is Text
    &&& e.children@[0]->Text_0@ == t
}

/// `e` is the element of the header `h`.
pub open spec fn encodes_header(h: HeaderV, e: XmlElement) -> bool {
    match h {
        HeaderV::Id(b, t) => is_header_element(
            e,
            "cwmp:ID"@,
            seq![("soap:mustUnderstand"@, flag_text(b))],
            t,
        ),
        HeaderV::SessionTimeout(f, n) => is_header_element(
            e,
            "cwmp:SessionTimeout"@,
            flag_attributes(f),
            decimal(n as nat),
        ),
        HeaderV::SupportedCwmpVersions(f, t) => is_header_element(
            e,
            "cwmp:SupportedCWMPVersions"@,
            flag_attributes(f),
            t,
        ),
        HeaderV::UseCwmpVersion(f, t) => is_header_element(
            e,
            "cwmp:UseCWMPVersion"@,
            flag_attributes(f),
            t,
        ),
    }
}

/// `e` is the `soap:Header` element of the headers `hs`, one child per header in order.
pub open spec fn encodes_headers(hs: Seq<HeaderV>, e: XmlElement) -> bool {
    &&& e.name@ == "soap:Header"@
    &&& e.attributes@.len() == 0
    &&& e.children@.len() == hs.len()
    &&& forall|i: int|
        0 <= i < hs.len() ==> (#[trigger] e.children@[i] is Element && encodes_header(
            hs[i],
            e.children@[i]->Element_0,
        ))
}

fn flag_string(b: bool) -> (r: String)
    ensures
        r@ == flag_text(b),
{
    if b {
        String::from_str("1")
    } else {
        String::from_str("0")
    }
}

fn header_element(name: &str, flag: Option<bool>, t: String) -> (r: XmlElement)
    ensures
        is_header_element(r, name@, flag_attributes(flag), t@),
{
    let e = XmlElement::new(name);
    let e = match flag {
        Some(b) => e.with_attribute("soap:mustUnderstand", flag_string(b)),
        None => e,
    };
    proof {
        assert(attribute_pairs(e.attributes@) =~= flag_attributes(flag));
    }
    e.with_text(t)
}

impl EnvelopeHeader {
    /// The header's element.
    pub fn into_element(self) -> (r: XmlElement)
        ensures
            encodes_header(self@, r),
    {
        match self {
            EnvelopeHeader::Id(h) => header_element("cwmp:ID", Some(h.must_understand), h.content),
            EnvelopeHeader::SessionTimeout(h) => header_element(
                "cwmp:SessionTimeout",
                h.must_understand,
                format_decimal(h.content as u64),
            ),
            EnvelopeHeader::SupportedCwmpVersions(h) => header_element(
                "cwmp:SupportedCWMPVersions",
                h.must_understand,
                h.content,
            ),
            EnvelopeHeader::UseCwmpVersion(h) => header_element(
                "cwmp:UseCWMPVersion",
                h.must_understand,
                h.content,
            ),
        }
    }

    fn from_content(h: HeaderTypeContent) -> (r: EnvelopeHeader)
        ensures
            r@ == h@,
    {
        match h {
            HeaderTypeContent::Id(inner) => EnvelopeHeader::Id(inner),
            HeaderTypeContent::SessionTimeout(inner) => EnvelopeHeader::SessionTimeout(inner),
            HeaderTypeContent::SupportedCwmpVersions(inner) => EnvelopeHeader::SupportedCwmpVersions(inner),
            HeaderTypeContent::UseCwmpVersion(inner) => EnvelopeHeader::UseCwmpVersion(inner),
        }
    }
}

impl EnvelopeHeaders {
    /// The `soap:Header` element: one child per header, in order.
    pub fn into_element(self) -> (r: XmlElement)
        ensures
            encodes_headers(self@, r),
    {
        let ghost hs = self@;
        let n = self.0.len();
        let mut rest = self.0;
        let mut e = XmlElement::new("soap:Header");
        let mut i: usize = 0;
        while i < n
            invariant
                n == hs.len(),
                i <= n,
                rest@.len() == n - i,
                forall|j: int| 0 <= j < n - i ==> (#[trigger] rest@[j])@ == hs[i + j],
                e.name@ == "soap:Header"@,
                e.attributes@.len() == 0,
                e.children@.len() == i,
                forall|j: int|
                    0 <= j < i ==> (#[trigger] e.children@[j] is Element && encodes_header(
                        hs[j],
                        e.children@[j]->Element_0,
                    )),
            decreases n - i,
        {
            let ghost before = rest@;
            let h = rest.remove(0);
            assert(before[0]@ == hs[i as int]);
            assert forall|j: int| 0 <= j < n - (i + 1) implies (#[trigger] rest@[j])@ == hs[i + 1 + j] by {
                assert(rest@[j] == before[j + 1]);
            }
            e = e.with_child(h.into_element());
            i = i + 1;
        }
        e
    }

    /// The domain headers of a canonical header list: every header, in order.
    pub fn from_header_type(h: HeaderType) -> (r: EnvelopeHeaders)
        ensures
            r@ == header_views(h.content@),
    {
        let ghost hv = header_views(h.content@);
        let n = h.content.len();
        let mut rest = h.content;
        let mut out: Vec<EnvelopeHeader> = Vec::new();
        let mut i: usize = 0;
        while i < n
            invariant
                n == hv.len(),
                i <= n,
                rest@.len() == n - i,
                forall|j: int| 0 <= j < n - i ==> (#[trigger] rest@[j])@ == hv[i + j],
                out@.map_values(|x: EnvelopeHeader| x@) == hv.subrange(0, i as int),
            decreases n - i,
        {
            let ghost before = rest@;
            let ghost out_before = out@;
            let c = rest.remove(0);
            assert(before[0]@ == hv[i as int]);
            assert forall|j: int| 0 <= j < n - (i + 1) implies (#[trigger] rest@[j])@ == hv[i + 1 + j] by {
                assert(rest@[j] == before[j + 1]);
            }
            out.push(EnvelopeHeader::from_content(c));
            assert(out@.map_values(|x: EnvelopeHeader| x@) =~= out_before.map_values(
                |x: EnvelopeHeader| x@,
            ).push(c@));
            assert(hv.subrange(0, i + 1) =~= hv.subrange(0, i as int).push(c@));
            i = i + 1;
        }
        assert(hv.subrange(0, n as int) =~= hv);
        EnvelopeHeaders(out)
    }

    /// Decodes a `Header` element into domain headers, keeping every known header in order.
    pub fn from_element(e: &XmlElement) -> (r: Result<EnvelopeHeaders, CwmpError>)
        ensures
            match (r, decode_header_children(e.children@)) {
                (Ok(h), Ok(v)) => h@ == v,
                (Err(x), Err(y)) => x == y,
                _ => false,
            },
    {
        match HeaderType::from_element(e) {
            Ok(h) => Ok(EnvelopeHeaders::from_header_type(h)),
            Err(err) => Err(err),
        }
    }
}

/// The body of an envelope: exactly one request, response or fault.
#[derive(Debug)]
pub enum EnvelopeBody {
    Request(Request),
    Response(Response),
    Fault(Fault),
}

/// A received body as plain values.
pub enum ReceivedV {
    Response(ResponseV),
    Fault(FaultV),
}

/// `b` holds the received body `v`.
pub open spec fn body_is(b: EnvelopeBody, v: ReceivedV) -> bool {
    match (b, v) {
        (EnvelopeBody::Response(r), ReceivedV::Response(x)) => r@ == x,
        (EnvelopeBody::Fault(f), ReceivedV::Fault(x)) => f@ == x,
        _ => false,
    }
}

/// The body that the first known alternative makes; other elements are passed over, and a
/// body with no known alternative is `NoContent`.
pub open spec fn first_known(s: Seq<BodyContentV>) -> ReceivedV
    decreases s.len(),
{
    if s.len() == 0 {
        ReceivedV::Response(ResponseV::NoContent)
    } else {
        match s[0] {
            BodyContentV::SetParameterValuesResponse(b) => ReceivedV::Response(
                ResponseV::SetParameterValues(b),
            ),
            BodyContentV::GetParameterValuesResponse(ps) => ReceivedV::Response(
                ResponseV::GetParameterValues(ps),
            ),
            BodyContentV::Fault(f) => ReceivedV::Fault(f),
            BodyContentV::Other(_) => first_known(s.drop_first()),
        }
    }
}

/// `e` is the `soap:Body` element of `b`, holding the one element of its payload.
pub open spec fn encodes_body(b: EnvelopeBody, e: XmlElement) -> bool {
    &&& e.name@ == "soap:Body"@
    &&& e.attributes@.len() == 0
    &&& match b {
        EnvelopeBody::Request(r) => {
            &&& e.children@.len() == 1
            &&& e.children@[0] is Element
            &&& encodes_request(r, e.children@[0]->Element_0)
        },
        EnvelopeBody::Response(r) => if e.children@.len() == 0 {
            encodes_response(r@, None)
        } else {
            &&& e.children@.len() == 1
            &&& e.children@[0] is Element
            &&& encodes_response(r@, Some(e.children@[0]->Element_0))
        },
        EnvelopeBody::Fault(f) => {
            &&& e.children@.len() == 1
            &&& e.children@[0] is Element
            &&& encodes_fault(f@, e.children@[0]->Element_0)
        },
    }
}

impl EnvelopeBody {
    /// The domain body of a canonical body: its first known alternative, else `NoContent`.
    pub fn from_body_type(b: BodyType) -> (r: EnvelopeBody)
        ensures
            body_is(r, first_known(body_views(b.content@))),
    {
        let ghost all = body_views(b.content@);
        let n = b.content.len();
        let mut rest = b.content;
        let mut i: usize = 0;
        assert(body_views(rest@) =~= all.subrange(0, n as int));
        while i < n
            invariant
                n == all.len(),
                all == body_views(b.content@),
                i <= n,
                rest@.len() == n - i,
                body_views(rest@) == all.subrange(i as int, n as int),
                first_known(all) == first_known(all.subrange(i as int, n as int)),
            decreases n - i,
        {
            let ghost before = rest@;
            let c = rest.remove(0);
            assert(c@ == all[i as int]) by {
                assert(body_views(before)[0] == all.subrange(i as int, n as int)[0]);
            }
            assert(body_views(rest@) =~= all.subrange(i + 1, n as int)) by {
                assert forall|j: int| 0 <= j < rest@.len() implies body_views(rest@)[j]
                    == all.subrange(i + 1, n as int)[j] by {
                    assert(rest@[j] == before[j + 1]);
                    assert(body_views(before)[j + 1] == all.subrange(i as int, n as int)[j + 1]);
                }
            }
            assert(all.subrange(i as int, n as int).drop_first() =~= all.subrange(i + 1, n as int));
            assert(all.subrange(i as int, n as int)[0] == c@);
            assert(first_known(all) == match c@ {
                BodyContentV::Other(_) => first_known(all.subrange(i + 1, n as int)),
                BodyContentV::SetParameterValuesResponse(b) => ReceivedV::Response(
                    ResponseV::SetParameterValues(b),
                ),
                BodyContentV::GetParameterValuesResponse(ps) => ReceivedV::Response(
                    ResponseV::GetParameterValues(ps),
                ),
                BodyContentV::Fault(f) => ReceivedV::Fault(f),
            });
            match c {
                BodyTypeContent::SetParameterValuesResponse(s) => {
                    return EnvelopeBody::Response(Response::SetParameterValuesResponse(s));
                },
                BodyTypeContent::GetParameterValuesResponse(g) => {
                    return EnvelopeBody::Response(Response::GetParameterValuesResponse(g));
                },
                BodyTypeContent::Fault(f) => {
                    return EnvelopeBody::Fault(f);
                },
                BodyTypeContent::Other(_) => {},
            }
            i = i + 1;
        }
        EnvelopeBody::Response(Response::NoContent)
    }

    /// The `soap:Body` element, holding the request, the response or the fault.
    pub fn into_element(self) -> (r: XmlElement)
        ensures
            encodes_body(self, r),
    {
        let e = XmlElement::new("soap:Body");
        match self {
            EnvelopeBody::Request(req) => e.with_child(req.into_element()),
            EnvelopeBody::Response(resp) => match resp.into_element() {
                Some(x) => e.with_child(x),
                None => e,
            },
            EnvelopeBody::Fault(f) => e.with_child(f.into_element()),
        }
    }
}

/// A SOAP envelope: its headers and its body.
#[derive(Debug)]
pub struct Envelope {
    pub headers: EnvelopeHeaders,
    pub body: EnvelopeBody,
}

/// The headers hold an `ID`.
pub open spec fn has_id(hs: Seq<HeaderV>) -> bool {
    exists|i: int| 0 <= i < hs.len() && #[trigger] hs[i] is Id
}

/// What a received `Envelope` element decodes to: its headers and its body.
pub open spec fn decode_envelope(e: XmlElement) -> Result<(Seq<HeaderV>, ReceivedV), CwmpError> {
    match child_lookup(e.children@, "Header"@) {
        None => Err(CwmpError::MissingId),
        Some(h) => match decode_header_children(h.children@) {
            Err(err) => Err(err),
            Ok(hs) => if !has_id(hs) {
                Err(CwmpError::MissingId)
            } else {
                match child_lookup(e.children@, "Body"@) {
                    None => Err(CwmpError::MissingElement),
                    Some(b) => match decode_body_children(b.children@) {
                        Err(err) => Err(err),
                        Ok(cs) => Ok((hs, first_known(cs))),
                    },
                }
            },
        },
    }
}

/// The namespace declarations of an envelope that this layer writes.
pub open spec fn envelope_namespaces() -> Seq<(Seq<char>, Seq<char>)> {
    seq![
        ("xmlns:soap"@, "http://schemas.xmlsoap.org/soap/envelope/"@),
        ("xmlns:soapenc"@, "http://schemas.xmlsoap.org/soap/encoding/"@),
        ("xmlns:xsd"@, "http://www.w3.org/2001/XMLSchema"@),
        ("xmlns:xsi"@, "http://www.w3.org/2001/XMLSchema-instance"@),
    ]
}

fn has_id_header(hs: &EnvelopeHeaders) -> (r: bool)
    ensures
        r == has_id(hs@),
{
    let n = hs.0.len();
    let mut i: usize = 0;
    while i < n
        invariant
            n == hs@.len(),
            i <= n,
            forall|j: int| 0 <= j < i ==> !(#[trigger] hs@[j] is Id),
        decreases n - i,
    {
        match &hs.0[i] {
            EnvelopeHeader::Id(_) => {
                assert(hs@[i as int] is Id);
                return true;
            },
            _ => {},
        }
        i = i + 1;
    }
    false
}

impl Envelope {
    /// Decodes a received `Envelope` element. The `Header` must hold an `ID`; the body is
    /// the first known alternative of the `Body`.
    pub fn from_element(e: &XmlElement) -> (r: Result<Envelope, CwmpError>)
        ensures
            match (r, decode_envelope(*e)) {
                (Ok(env), Ok((hs, b))) => env.headers@ == hs && body_is(env.body, b),
                (Err(x), Err(y)) => x == y,
                _ => false,
            },
    {
        let h = match e.child("Header") {
            Some(h) => h,
            None => return Err(CwmpError::MissingId),
        };
        let headers = match EnvelopeHeaders::from_element(h) {
            Ok(hs) => hs,
            Err(err) => return Err(err),
        };
        if !has_id_header(&headers) {
            return Err(CwmpError::MissingId);
        }
        let b = match e.child("Body") {
            Some(b) => b,
            None => return Err(CwmpError::MissingElement),
        };
        let body = match BodyType::from_element(b) {
            Ok(bt) => EnvelopeBody::from_body_type(bt),
            Err(err) => return Err(err),
        };
        Ok(Envelope { headers, body })
    }

    /// Whether the headers hold the `ID` that every request must carry.
    pub fn has_id(&self) -> (r: bool)
        ensures
            r == has_id(self.headers@),
    {
        has_id_header(&self.headers)
    }

    /// The `soap:Envelope` element: namespace declarations, then `soap:Header` and `soap:Body`.
    /// An envelope without an `ID` header is refused with `MissingId`.
    pub fn into_element(self) -> (r: Result<XmlElement, CwmpError>)
        ensures
            !has_id(self.headers@) <==> r is Err,
            r matches Err(e) ==> e == CwmpError::MissingId,
            r matches Ok(x) ==> encodes_envelope(self, x),
    {
        if !self.has_id() {
            return Err(CwmpError::MissingId);
        }
        let Envelope { headers, body } = self;
        let e = XmlElement::new("soap:Envelope")
            .with_attribute("xmlns:soap", String::from_str("http://schemas.xmlsoap.org/soap/envelope/"))
            .with_attribute("xmlns:soapenc", String::from_str("http://schemas.xmlsoap.org/soap/encoding/"))
            .with_attribute("xmlns:xsd", String::from_str("http://www.w3.org/2001/XMLSchema"))
            .with_attribute("xmlns:xsi", String::from_str("http://www.w3.org/2001/XMLSchema-instance"));
        proof {
            assert(attribute_pairs(e.attributes@) =~= envelope_namespaces());
        }
        Ok(e.with_child(headers.into_element()).with_child(body.into_element()))
    }
}

/// `x` is the `soap:Envelope` element of `env`: namespace declarations, then the headers'
/// element and the body's element.
pub open spec fn encodes_envelope(env: Envelope, x: XmlElement) -> bool {
    &&& x.name@ == "soap:Envelope"@
    &&& attribute_pairs(x.attributes@) == envelope_namespaces()
    &&& x.children@.len() == 2
    &&& x.children@[0] is Element
    &&& encodes_headers(env.headers@, x.children@[0]->Element_0)
    &&& x.children@[1] is Element
    &&& encodes_body(env.body, x.children@[1]->Element_0)
}

/// `e` is a `soap:Body` whose sole child is the request `r`'s element, named after its method
/// in the RPC repertoire, whose array declares exactly as many items as `r` carries and holds
/// that many.
pub open spec fn request_body_shape(r: Request, e: XmlElement) -> bool {
    let rpc = e.children@[0]->Element_0;
    let array = rpc.children@[0]->Element_0;
    let (item, len) = match r {
        Request::SetParameterValues(s) => ("cwmp:ParameterValueStruct"@, s.parameter_list.0@.len()),
        Request::GetParameterValues(g) => ("xsd:string"@, g.parameter_names.0@.len()),
    };
    &&& e.name@ == "soap:Body"@
    &&& e.children@.len() == 1
    &&& e.children@[0] is Element
    &&& rpc.name@ == request_element_name(r)
    &&& local_part(rpc.name@) == match r {
        Request::SetParameterValues(_) => rpc_name(1),
        Request::GetParameterValues(_) => rpc_name(2),
    }
    &&& rpc.children@[0] is Element
    &&& attribute_pairs(array.attributes@) == seq![("soapenc:arrayType"@, array_type(item, len))]
    &&& numeral_value(decimal(len)) == len
    &&& array.children@.len() == len
}

/// The body of an encoded request holds one element: the request, named after its method in
/// the RPC repertoire, whose array declares exactly as many items as the request carries and
/// holds them.
pub proof fn law_request_body(r: Request, e: XmlElement)
    requires
        encodes_body(EnvelopeBody::Request(r), e),
    ensures
        request_body_shape(r, e),
{
    reveal_strlit("cwmp");
    reveal_strlit("cwmp:SetParameterValues");
    reveal_strlit("SetParameterValues");
    reveal_strlit("cwmp:GetParameterValues");
    reveal_strlit("GetParameterValues");
    assert("cwmp:SetParameterValues"@ =~= "cwmp"@ + seq![':'] + "SetParameterValues"@);
    lemma_local_part_of_prefixed("cwmp"@, "SetParameterValues"@);
    assert("cwmp:GetParameterValues"@ =~= "cwmp"@ + seq![':'] + "GetParameterValues"@);
    lemma_local_part_of_prefixed("cwmp"@, "GetParameterValues"@);
    match r {
        Request::SetParameterValues(s) => lemma_decimal_round_trip(s.parameter_list.0@.len()),
        Request::GetParameterValues(g) => lemma_decimal_round_trip(g.parameter_names.0@.len()),
    }
}

/// Facts about the header names and flag spellings.
proof fn lemma_header_literals()
    ensures
        local_part("cwmp:ID"@) == "ID"@,
        local_part("cwmp:SessionTimeout"@) == "SessionTimeout"@,
        local_part("cwmp:SupportedCWMPVersions"@) == "SupportedCWMPVersions"@,
        local_part("cwmp:UseCWMPVersion"@) == "UseCWMPVersion"@,
        local_part("soap:mustUnderstand"@) == "mustUnderstand"@,
        "SessionTimeout"@ != "ID"@,
        "SupportedCWMPVersions"@ != "ID"@,
        "SupportedCWMPVersions"@ != "SessionTimeout"@,
        "UseCWMPVersion"@ != "ID"@,
        "UseCWMPVersion"@ != "SessionTimeout"@,
        "UseCWMPVersion"@ != "SupportedCWMPVersions"@,
        flag_value(flag_text(true)) == Some(true),
        flag_value(flag_text(false)) == Some(false),
{
    reveal_strlit("cwmp");
    reveal_strlit("soap");
    reveal_strlit("cwmp:ID");
    reveal_strlit("ID");
    reveal_strlit("cwmp:SessionTimeout");
    reveal_strlit("SessionTimeout");
    reveal_strlit("cwmp:SupportedCWMPVersions");
    reveal_strlit("SupportedCWMPVersions");
    reveal_strlit("cwmp:UseCWMPVersion");
    reveal_strlit("UseCWMPVersion");
    reveal_strlit("soap:mustUnderstand");
    reveal_strlit("mustUnderstand");
    reveal_strlit("1");
    reveal_strlit("0");
    reveal_strlit("true");
    reveal_strlit("false");
    assert("cwmp:ID"@ =~= "cwmp"@ + seq![':'] + "ID"@);
    lemma_local_part_of_prefixed("cwmp"@, "ID"@);
    assert("cwmp:SessionTimeout"@ =~= "cwmp"@ + seq![':'] + "SessionTimeout"@);
    lemma_local_part_of_prefixed("cwmp"@, "SessionTimeout"@);
    assert("cwmp:SupportedCWMPVersions"@ =~= "cwmp"@ + seq![':'] + "SupportedCWMPVersions"@);
    lemma_local_part_of_prefixed("cwmp"@, "SupportedCWMPVersions"@);
    assert("cwmp:UseCWMPVersion"@ =~= "cwmp"@ + seq![':'] + "UseCWMPVersion"@);
    lemma_local_part_of_prefixed("cwmp"@, "UseCWMPVersion"@);
    assert("soap:mustUnderstand"@ =~= "soap"@ + seq![':'] + "mustUnderstand"@);
    lemma_local_part_of_prefixed("soap"@, "mustUnderstand"@);
    assert("SessionTimeout"@[0] != "UseCWMPVersion"@[0]);
    assert("0"@[0] != "1"@[0]);
}

/// A header element that the encoder writes decodes to the header it was written from.
proof fn lemma_header_element_round_trip(h: HeaderV, e: XmlElement)
    requires
        encodes_header(h, e),
    ensures
        decode_header_element(e) == Some(Ok::<HeaderV, CwmpError>(h)),
{
    lemma_header_literals();
    let c = e.children@;
    assert(c.drop_last() =~= Seq::<XmlNode>::empty());
    assert(text_of(c.drop_last()) == Seq::<char>::empty());
    assert(text_of(c) =~= e.children@[0]->Text_0@);
    let a = e.attributes@;
    assert(attribute_pairs(a).len() == a.len());
    if a.len() == 1 {
        assert(a.drop_first() =~= Seq::<crate::xml::XmlAttribute>::empty());
        assert(attribute_pairs(a)[0] == (a[0].name@, a[0].value@));
    }
    match h {
        HeaderV::SessionTimeout(f, n) => {
            lemma_decimal_round_trip(n as nat);
        },
        _ => {},
    }
}

/// Decoding the encoding of any header sequence gives back that sequence, in order and
/// with repeats kept.
pub proof fn law_header_round_trip(hs: Seq<HeaderV>, e: XmlElement)
    requires
        encodes_headers(hs, e),
    ensures
        decode_header_children(e.children@) == Ok::<Seq<HeaderV>, CwmpError>(hs),
{
    let c = e.children@;
    assert forall|k: int| 0 <= k <= hs.len() implies decode_header_children(#[trigger] c.take(k))
        == Ok::<Seq<HeaderV>, CwmpError>(hs.take(k)) by {
        lemma_header_prefix(hs, e, k);
    }
    assert(c.take(hs.len() as int) =~= c);
    assert(hs.take(hs.len() as int) =~= hs);
}

proof fn lemma_header_prefix(hs: Seq<HeaderV>, e: XmlElement, k: int)
    requires
        encodes_headers(hs, e),
        0 <= k <= hs.len(),
    ensures
        decode_header_children(e.children@.take(k)) == Ok::<Seq<HeaderV>, CwmpError>(hs.take(k)),
    decreases k,
{
    let c = e.children@;
    if k == 0 {
        assert(hs.take(0) =~= Seq::<HeaderV>::empty());
    } else {
        lemma_header_prefix(hs, e, k - 1);
        assert(c.take(k).drop_last() =~= c.take(k - 1));
        assert(c[k - 1] is Element);
        lemma_header_element_round_trip(hs[k - 1], c[k - 1]->Element_0);
        assert(hs.take(k) =~= hs.take(k - 1).push(hs[k - 1]));
    }
}

/// The same holds of the body of every encoded request envelope.
pub proof fn law_request_envelope(env: Envelope, r: Request, x: XmlElement)
    requires
        env.body == EnvelopeBody::Request(r),
        encodes_envelope(env, x),
    ensures
        request_body_shape(r, x.children@[1]->Element_0),
{
    law_request_body(r, x.children@[1]->Element_0);
}

} // verus!
