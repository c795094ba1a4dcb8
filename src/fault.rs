//! The two-level fault model: a SOAP fault whose detail holds a CWMP fault with per-parameter
//! sub-faults.
use vstd::prelude::*;
use crate::error::CwmpError;
use crate::text::{
    decimal, format_decimal, lemma_decimal_round_trip, lemma_local_part_of_prefixed,
    lemma_local_part_plain, local_part,
};
use crate::xml::{XmlElement, XmlNode, child_lookup, child_number, child_text, is_text_element, text_of};

verus! {

/// The failure of one parameter of a `SetParameterValues` call.
#[derive(Debug)]
pub struct SetParameterValuesFault {
    pub parameter_name: String,
    pub fault_code: u32,
    pub fault_string: String,
}

/// The CWMP fault carried in a SOAP fault's `detail`.
#[derive(Debug)]
pub struct CwmpFault {
    pub fault_code: u32,
    pub fault_string: String,
    pub set_parameter_values_fault: Vec<SetParameterValuesFault>,
}

/// A SOAP fault.
#[derive(Debug)]
pub struct Fault {
    pub fault_code: String,
    pub fault_string: String,
    pub detail: Option<CwmpFault>,
}

/// A sub-fault as plain values: parameter name, code, text.
pub type SubFaultV = (Seq<char>, u32, Seq<char>);

pub struct CwmpFaultV {
    pub code: u32,
    pub string: Seq<char>,
    pub subs: Seq<SubFaultV>,
}

pub struct FaultV {
    pub code: Seq<char>,
    pub string: Seq<char>,
    pub detail: Option<CwmpFaultV>,
}

impl View for SetParameterValuesFault {
    type V = SubFaultV;

    open spec fn view(&self) -> SubFaultV {
        (self.parameter_name@, self.fault_code, self.fault_string@)
    }
}

impl View for CwmpFault {
    type V = CwmpFaultV;

    open spec fn view(&self) -> CwmpFaultV {
        CwmpFaultV {
            code: self.fault_code,
            string: self.fault_string@,
            subs: self.set_parameter_values_fault@.map_values(|s: SetParameterValuesFault| s@),
        }
    }
}

impl View for Fault {
    type V = FaultV;

    open spec fn view(&self) -> FaultV {
        FaultV {
            code: self.fault_code@,
            string: self.fault_string@,
            detail: match self.detail {
                Some(d) => Some(d@),
                None => None,
            },
        }
    }
}

/// The sub-fault that a `SetParameterValuesFault` element carries.
pub open spec fn decode_sub_fault(e: XmlElement) -> Result<SubFaultV, CwmpError> {
    let c = e.children@;
    match child_text(c, "ParameterName"@) {
        Err(err) => Err(err),
        Ok(name) => match child_number(c, "FaultCode"@) {
            Err(err) => Err(err),
            Ok(code) => match child_text(c, "FaultString"@) {
                Err(err) => Err(err),
                Ok(text) => Ok((name, code, text)),
            },
        },
    }
}

/// The sub-faults among `children`, in document order.
pub open spec fn decode_sub_faults(children: Seq<XmlNode>) -> Result<Seq<SubFaultV>, CwmpError>
    decreases children.len(),
{
    if children.len() == 0 {
        Ok(Seq::empty())
    } else {
        match decode_sub_faults(children.drop_last()) {
            Err(err) => Err(err),
            Ok(prefix) => match children.last() {
                XmlNode::Element(c) => if local_part(c.name@) == "SetParameterValuesFault"@ {
                    match decode_sub_fault(c) {
                        Ok(s) => Ok(prefix.push(s)),
                        Err(err) => Err(err),
                    }
                } else {
                    Ok(prefix)
                },
                XmlNode::Text(_) => Ok(prefix),
            },
        }
    }
}

/// The CWMP fault that a `cwmp:Fault` element carries.
pub open spec fn decode_cwmp_fault(e: XmlElement) -> Result<CwmpFaultV, CwmpError> {
    let c = e.children@;
    match child_number(c, "FaultCode"@) {
        Err(err) => Err(err),
        Ok(code) => match child_text(c, "FaultString"@) {
            Err(err) => Err(err),
            Ok(text) => match decode_sub_faults(c) {
                Err(err) => Err(err),
                Ok(subs) => Ok(CwmpFaultV { code, string: text, subs }),
            },
        },
    }
}

/// The SOAP fault that a `soap:Fault` element carries; a `detail` without a CWMP fault
/// counts as no detail.
pub open spec fn decode_fault(e: XmlElement) -> Result<FaultV, CwmpError> {
    let c = e.children@;
    match child_text(c, "faultcode"@) {
        Err(err) => Err(err),
        Ok(code) => match child_text(c, "faultstring"@) {
            Err(err) => Err(err),
            Ok(text) => match child_lookup(c, "detail"@) {
                None => Ok(FaultV { code, string: text, detail: None }),
                Some(d) => match child_lookup(d.children@, "Fault"@) {
                    None => Ok(FaultV { code, string: text, detail: None }),
                    Some(f) => match decode_cwmp_fault(f) {
                        Ok(cf) => Ok(FaultV { code, string: text, detail: Some(cf) }),
                        Err(err) => Err(err),
                    },
                },
            },
        },
    }
}

pub open spec fn encodes_sub_fault(s: SubFaultV, e: XmlElement) -> bool {
    &&& e.name@ == "SetParameterValuesFault"@
    &&& e.attributes@.len() == 0
    &&& e.children@.len() == 3
    &&& e.children@[0] is Element
    &&& is_text_element(e.children@[0]->Element_0, "ParameterName"@, s.0)
    &&& e.children@[1] is Element
    &&& is_text_element(e.children@[1]->Element_0, "FaultCode"@, decimal(s.1 as nat))
    &&& e.children@[2] is Element
    &&& is_text_element(e.children@[2]->Element_0, "FaultString"@, s.2)
}

/// `e` is the `cwmp:Fault` element of `f`: code, text, then each sub-fault in order.
pub open spec fn encodes_cwmp_fault(f: CwmpFaultV, e: XmlElement) -> bool {
    &&& e.name@ == "cwmp:Fault"@
    &&& e.attributes@.len() == 0
    &&& e.children@.len() == f.subs.len() + 2
    &&& e.children@[0] is Element
    &&& is_text_element(e.children@[0]->Element_0, "FaultCode"@, decimal(f.code as nat))
    &&& e.children@[1] is Element
    &&& is_text_element(e.children@[1]->Element_0, "FaultString"@, f.string)
    &&& forall|i: int|
        0 <= i < f.subs.len() ==> (#[trigger] e.children@[i + 2] is Element && encodes_sub_fault(
            f.subs[i],
            e.children@[i + 2]->Element_0,
        ))
}

/// `e` is the `soap:Fault` element of `f`, its CWMP fault alone inside `detail`.
pub open spec fn encodes_fault(f: FaultV, e: XmlElement) -> bool {
    &&& e.name@ == "soap:Fault"@
    &&& e.attributes@.len() == 0
    &&& e.children@[0] is Element
    &&& is_text_element(e.children@[0]->Element_0, "faultcode"@, f.code)
    &&& e.children@[1] is Element
    &&& is_text_element(e.children@[1]->Element_0, "faultstring"@, f.string)
    &&& match f.detail {
        None => e.children@.len() == 2,
        Some(cf) => {
            &&& e.children@.len() == 3
            &&& e.children@[2] is Element
            &&& e.children@[2]->Element_0.name@ == "detail"@
            &&& e.children@[2]->Element_0.attributes@.len() == 0
            &&& e.children@[2]->Element_0.children@.len() == 1
            &&& e.children@[2]->Element_0.children@[0] is Element
            &&& encodes_cwmp_fault(cf, e.children@[2]->Element_0.children@[0]->Element_0)
        },
    }
}

impl SetParameterValuesFault {
    pub fn from_element(e: &XmlElement) -> (r: Result<SetParameterValuesFault, CwmpError>)
        ensures
            match (r, decode_sub_fault(*e)) {
                (Ok(s), Ok(v)) => s@ == v,
                (Err(x), Err(y)) => x == y,
                _ => false,
            },
    {
        let parameter_name = match e.child_text("ParameterName") {
            Ok(t) => t,
            Err(err) => return Err(err),
        };
        let fault_code = match e.child_number("FaultCode") {
            Ok(v) => v,
            Err(err) => return Err(err),
        };
        let fault_string = match e.child_text("FaultString") {
            Ok(t) => t,
            Err(err) => return Err(err),
        };
        Ok(SetParameterValuesFault { parameter_name, fault_code, fault_string })
    }

    pub fn into_element(self) -> (r: XmlElement)
        ensures
            encodes_sub_fault(self@, r),
    {
        XmlElement::new("SetParameterValuesFault")
            .with_child(XmlElement::text_element("ParameterName", self.parameter_name))
            .with_child(XmlElement::text_element("FaultCode", format_decimal(self.fault_code as u64)))
            .with_child(XmlElement::text_element("FaultString", self.fault_string))
    }
}

/// Once a prefix of the children fails to decode, so do all the children.
proof fn lemma_sub_fault_error_sticks(children: Seq<XmlNode>, k: int)
    requires
        0 <= k <= children.len(),
        decode_sub_faults(children.take(k)) is Err,
    ensures
        decode_sub_faults(children) == decode_sub_faults(children.take(k)),
    decreases children.len() - k,
{
    if k < children.len() {
        assert(children.take(k + 1).drop_last() =~= children.take(k));
        lemma_sub_fault_error_sticks(children, k + 1);
    } else {
        assert(children.take(k) =~= children);
    }
}

fn decode_sub_fault_list(e: &XmlElement) -> (r: Result<Vec<SetParameterValuesFault>, CwmpError>)
    ensures
        match (r, decode_sub_faults(e.children@)) {
            (Ok(s), Ok(v)) => s@.map_values(|x: SetParameterValuesFault| x@) == v,
            (Err(x), Err(y)) => x == y,
            _ => false,
        },
{
    let n = e.children.len();
    let mut out: Vec<SetParameterValuesFault> = Vec::new();
    let mut i: usize = 0;
    assert(out@.map_values(|x: SetParameterValuesFault| x@) =~= Seq::<SubFaultV>::empty());
    assert(e.children@.take(0).len() == 0);
    while i < n
        invariant
            n == e.children@.len(),
            i <= n,
            decode_sub_faults(e.children@.take(i as int)) == Ok::<Seq<SubFaultV>, CwmpError>(
                out@.map_values(|x: SetParameterValuesFault| x@),
            ),
        decreases n - i,
    {
        assert(e.children@.take(i + 1).drop_last() =~= e.children@.take(i as int));
        match &e.children[i] {
            XmlNode::Text(_) => {},
            XmlNode::Element(c) => {
                if c.is_named("SetParameterValuesFault") {
                    match SetParameterValuesFault::from_element(c) {
                        Ok(s) => {
                            let ghost before = out@;
                            out.push(s);
                            assert(out@.map_values(|x: SetParameterValuesFault| x@)
                                =~= before.map_values(|x: SetParameterValuesFault| x@).push(s@));
                        },
                        Err(err) => {
                            proof {
                                lemma_sub_fault_error_sticks(e.children@, i as int + 1);
                            }
                            return Err(err);
                        },
                    }
                }
            },
        }
        i = i + 1;
    }
    assert(e.children@.take(n as int) =~= e.children@);
    Ok(out)
}

impl CwmpFault {
    pub fn from_element(e: &XmlElement) -> (r: Result<CwmpFault, CwmpError>)
        ensures
            match (r, decode_cwmp_fault(*e)) {
                (Ok(f), Ok(v)) => f@ == v,
                (Err(x), Err(y)) => x == y,
                _ => false,
            },
    {
        let fault_code = match e.child_number("FaultCode") {
            Ok(v) => v,
            Err(err) => return Err(err),
        };
        let fault_string = match e.child_text("FaultString") {
            Ok(t) => t,
            Err(err) => return Err(err),
        };
        let subs = match decode_sub_fault_list(e) {
            Ok(s) => s,
            Err(err) => return Err(err),
        };
        Ok(CwmpFault { fault_code, fault_string, set_parameter_values_fault: subs })
    }

    pub fn into_element(self) -> (r: XmlElement)
        ensures
            encodes_cwmp_fault(self@, r),
    {
        let ghost v = self@;
        let CwmpFault { fault_code, fault_string, set_parameter_values_fault } = self;
        let mut e = XmlElement::new("cwmp:Fault")
            .with_child(XmlElement::text_element("FaultCode", format_decimal(fault_code as u64)))
            .with_child(XmlElement::text_element("FaultString", fault_string));
        let ghost head = e.children@;
        let n = set_parameter_values_fault.len();
        let mut rest = set_parameter_values_fault;
        let mut i: usize = 0;
        while i < n
            invariant
                n == v.subs.len(),
                i <= n,
                rest@.len() == n - i,
                forall|j: int| 0 <= j < n - i ==> (#[trigger] rest@[j])@ == v.subs[i + j],
                e.name@ == "cwmp:Fault"@,
                e.attributes@.len() == 0,
                e.children@.len() == i + 2,
                e.children@[0] == head[0],
                e.children@[1] == head[1],
                head[0] is Element,
                is_text_element(head[0]->Element_0, "FaultCode"@, decimal(v.code as nat)),
                head[1] is Element,
                is_text_element(head[1]->Element_0, "FaultString"@, v.string),
                forall|j: int|
                    0 <= j < i ==> (#[trigger] e.children@[j + 2] is Element && encodes_sub_fault(
                        v.subs[j],
                        e.children@[j + 2]->Element_0,
                    )),
            decreases n - i,
        {
            let ghost before = rest@;
            let s = rest.remove(0);
            assert(before[0]@ == v.subs[i as int]);
            assert forall|j: int| 0 <= j < n - (i + 1) implies (#[trigger] rest@[j])@ == v.subs[i + 1 + j] by {
                assert(rest@[j] == before[j + 1]);
            }
            let ghost old_children = e.children@;
            e = e.with_child(s.into_element());
            assert forall|j: int| 0 <= j < i + 1 implies (#[trigger] e.children@[j + 2] is Element
                && encodes_sub_fault(v.subs[j], e.children@[j + 2]->Element_0)) by {
                if j < i {
                    assert(e.children@[j + 2] == old_children[j + 2]);
                }
            }
            i = i + 1;
        }
        e
    }
}

impl Fault {
    /// Decodes a `soap:Fault` element, keeping every sub-fault in document order.
    pub fn from_element(e: &XmlElement) -> (r: Result<Fault, CwmpError>)
        ensures
            match (r, decode_fault(*e)) {
                (Ok(f), Ok(v)) => f@ == v,
                (Err(x), Err(y)) => x == y,
                _ => false,
            },
    {
        let fault_code = match e.child_text("faultcode") {
            Ok(t) => t,
            Err(err) => return Err(err),
        };
        let fault_string = match e.child_text("faultstring") {
            Ok(t) => t,
            Err(err) => return Err(err),
        };
        let detail = match e.child("detail") {
            None => None,
            Some(d) => match d.child("Fault") {
                None => None,
                Some(f) => match CwmpFault::from_element(f) {
                    Ok(cf) => Some(cf),
                    Err(err) => return Err(err),
                },
            },
        };
        Ok(Fault { fault_code, fault_string, detail })
    }

    /// The `soap:Fault` element; a CWMP fault goes alone inside `detail`.
    pub fn into_element(self) -> (r: XmlElement)
        ensures
            encodes_fault(self@, r),
    {
        let Fault { fault_code, fault_string, detail } = self;
        let e = XmlElement::new("soap:Fault")
            .with_child(XmlElement::text_element("faultcode", fault_code))
            .with_child(XmlElement::text_element("faultstring", fault_string));
        match detail {
            None => e,
            Some(cf) => e.with_child(XmlElement::new("detail").with_child(cf.into_element())),
        }
    }
}

/// Facts about the element names of the fault model.
proof fn lemma_fault_literals()
    ensures
        local_part("faultcode"@) == "faultcode"@,
        local_part("faultstring"@) == "faultstring"@,
        local_part("detail"@) == "detail"@,
        local_part("cwmp:Fault"@) == "Fault"@,
        local_part("FaultCode"@) == "FaultCode"@,
        local_part("FaultString"@) == "FaultString"@,
        local_part("ParameterName"@) == "ParameterName"@,
        local_part("SetParameterValuesFault"@) == "SetParameterValuesFault"@,
        "faultcode"@ != "faultstring"@,
        "faultcode"@ != "detail"@,
        "faultstring"@ != "detail"@,
        "ParameterName"@ != "FaultCode"@,
        "ParameterName"@ != "FaultString"@,
        "FaultCode"@ != "FaultString"@,
        "FaultCode"@ != "SetParameterValuesFault"@,
        "FaultString"@ != "SetParameterValuesFault"@,
{
    reveal_strlit("faultcode");
    reveal_strlit("faultstring");
    reveal_strlit("detail");
    reveal_strlit("cwmp");
    reveal_strlit("cwmp:Fault");
    reveal_strlit("Fault");
    reveal_strlit("FaultCode");
    reveal_strlit("FaultString");
    reveal_strlit("ParameterName");
    reveal_strlit("SetParameterValuesFault");
    lemma_local_part_plain("faultcode"@);
    lemma_local_part_plain("faultstring"@);
    lemma_local_part_plain("detail"@);
    lemma_local_part_plain("FaultCode"@);
    lemma_local_part_plain("FaultString"@);
    lemma_local_part_plain("ParameterName"@);
    lemma_local_part_plain("SetParameterValuesFault"@);
    assert("cwmp:Fault"@ =~= "cwmp"@ + seq![':'] + "Fault"@);
    lemma_local_part_of_prefixed("cwmp"@, "Fault"@);
    assert("faultcode"@.len() != "faultstring"@.len());
    assert("faultcode"@.len() != "detail"@.len());
    assert("faultstring"@.len() != "detail"@.len());
    assert("ParameterName"@.len() != "FaultCode"@.len());
    assert("ParameterName"@.len() != "FaultString"@.len());
    assert("FaultCode"@.len() != "FaultString"@.len());
    assert("FaultCode"@.len() != "SetParameterValuesFault"@.len());
    assert("FaultString"@.len() != "SetParameterValuesFault"@.len());
}

/// The text of a text element.
proof fn lemma_text_element(e: XmlElement, name: Seq<char>, t: Seq<char>)
    requires
        is_text_element(e, name, t),
    ensures
        text_of(e.children@) == t,
{
    assert(e.children@.drop_last() =~= Seq::<XmlNode>::empty());
    assert(text_of(e.children@.drop_last()) == Seq::<char>::empty());
    assert(text_of(e.children@) =~= t);
}

/// A child element found by its local name, after children whose local names differ.
proof fn lemma_child_at(children: Seq<XmlNode>, i: int, local: Seq<char>)
    requires
        0 <= i < children.len(),
        forall|j: int| 0 <= j <= i ==> (#[trigger] children[j]) is Element,
        forall|j: int| 0 <= j < i ==> local_part((#[trigger] children[j])->Element_0.name@) != local,
        local_part(children[i]->Element_0.name@) == local,
    ensures
        child_lookup(children, local) == Some(children[i]->Element_0),
    decreases i,
{
    if i > 0 {
        let rest = children.drop_first();
        assert forall|j: int| 0 <= j <= i - 1 implies (#[trigger] rest[j]) is Element by {
            assert(rest[j] == children[j + 1]);
        }
        assert forall|j: int| 0 <= j < i - 1 implies local_part((#[trigger] rest[j])->Element_0.name@) != local by {
            assert(rest[j] == children[j + 1]);
        }
        lemma_child_at(rest, i - 1, local);
        assert(children[0] is Element);
    }
}

/// An encoded sub-fault decodes to itself.
proof fn lemma_sub_fault_round_trip(s: SubFaultV, e: XmlElement)
    requires
        encodes_sub_fault(s, e),
    ensures
        decode_sub_fault(e) == Ok::<SubFaultV, CwmpError>(s),
{
    lemma_fault_literals();
    let c = e.children@;
    lemma_child_at(c, 0, "ParameterName"@);
    lemma_child_at(c, 1, "FaultCode"@);
    lemma_child_at(c, 2, "FaultString"@);
    lemma_text_element(c[0]->Element_0, "ParameterName"@, s.0);
    lemma_text_element(c[1]->Element_0, "FaultCode"@, decimal(s.1 as nat));
    lemma_text_element(c[2]->Element_0, "FaultString"@, s.2);
    lemma_decimal_round_trip(s.1 as nat);
}

proof fn lemma_sub_faults_prefix(f: CwmpFaultV, e: XmlElement, k: int)
    requires
        encodes_cwmp_fault(f, e),
        2 <= k <= e.children@.len(),
    ensures
        decode_sub_faults(e.children@.take(k)) == Ok::<Seq<SubFaultV>, CwmpError>(f.subs.take(k - 2)),
    decreases k,
{
    lemma_fault_literals();
    let c = e.children@;
    if k == 2 {
        assert(c.take(2).drop_last() =~= c.take(1));
        assert(c.take(1).drop_last() =~= c.take(0));
        assert(c.take(0) =~= Seq::<XmlNode>::empty());
        assert(f.subs.take(0) =~= Seq::<SubFaultV>::empty());
        assert(c.take(1).last() == c[0]);
        assert(c.take(2).last() == c[1]);
        assert(decode_sub_faults(c.take(0)) == Ok::<Seq<SubFaultV>, CwmpError>(Seq::empty()));
        assert(decode_sub_faults(c.take(1)) == Ok::<Seq<SubFaultV>, CwmpError>(Seq::empty()));
        assert(decode_sub_faults(c.take(2)) == Ok::<Seq<SubFaultV>, CwmpError>(Seq::empty()));
    } else {
        lemma_sub_faults_prefix(f, e, k - 1);
        assert(c.take(k).drop_last() =~= c.take(k - 1));
        assert(c[k - 1] == c[(k - 3) + 2]);
        lemma_sub_fault_round_trip(f.subs[k - 3], c[k - 1]->Element_0);
        assert(f.subs.take(k - 2) =~= f.subs.take(k - 3).push(f.subs[k - 3]));
    }
}

/// An encoded CWMP fault decodes to itself, every sub-fault kept in order.
proof fn lemma_cwmp_fault_round_trip(f: CwmpFaultV, e: XmlElement)
    requires
        encodes_cwmp_fault(f, e),
    ensures
        decode_cwmp_fault(e) == Ok::<CwmpFaultV, CwmpError>(f),
{
    lemma_fault_literals();
    let c = e.children@;
    lemma_child_at(c, 0, "FaultCode"@);
    lemma_child_at(c, 1, "FaultString"@);
    lemma_text_element(c[0]->Element_0, "FaultCode"@, decimal(f.code as nat));
    lemma_text_element(c[1]->Element_0, "FaultString"@, f.string);
    lemma_decimal_round_trip(f.code as nat);
    lemma_sub_faults_prefix(f, e, c.len() as int);
    assert(c.take(c.len() as int) =~= c);
    assert(f.subs.take(f.subs.len() as int) =~= f.subs);
}

/// Decoding an encoded SOAP fault gives it back, with all of its sub-faults in their order.
pub proof fn law_fault_round_trip(f: FaultV, e: XmlElement)
    requires
        encodes_fault(f, e),
    ensures
        decode_fault(e) == Ok::<FaultV, CwmpError>(f),
{
    lemma_fault_literals();
    let c = e.children@;
    lemma_child_at(c, 0, "faultcode"@);
    lemma_child_at(c, 1, "faultstring"@);
    lemma_text_element(c[0]->Element_0, "faultcode"@, f.code);
    lemma_text_element(c[1]->Element_0, "faultstring"@, f.string);
    match f.detail {
        None => {
            let c1 = c.drop_first();
            assert(c1[0] == c[1]);
            assert(c1.drop_first() =~= Seq::<XmlNode>::empty());
            assert(child_lookup(c1.drop_first(), "detail"@) is None);
            assert(child_lookup(c1, "detail"@) is None);
            assert(child_lookup(c, "detail"@) is None);
        },
        Some(cf) => {
            lemma_child_at(c, 2, "detail"@);
            let d = c[2]->Element_0;
            lemma_child_at(d.children@, 0, "Fault"@);
            lemma_cwmp_fault_round_trip(cf, d.children@[0]->Element_0);
        },
    }
}

} // verus!
