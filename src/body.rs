//! The canonical `Body`: its alternatives, decoded from a `Body` element.
use vstd::prelude::*;
use crate::error::CwmpError;
use crate::fault::{Fault, FaultV, decode_fault};
use crate::response::{
    GetParameterValuesResponse, SetParameterValuesResponse, decode_get_parameter_values_response,
    decode_status, value_pairs,
};
use crate::text::local_part;
use crate::xml::{XmlElement, XmlNode};

verus! {

/// One element of a `Body`: a decoded alternative, or the qualified name of another element.
#[derive(Debug)]
pub enum BodyTypeContent {
    SetParameterValuesResponse(SetParameterValuesResponse),
    GetParameterValuesResponse(GetParameterValuesResponse),
    Fault(Fault),
    Other(String),
}

/// The canonical `Body`: its elements in document order, up to the first known alternative.
#[derive(Debug)]
pub struct BodyType {
    pub content: Vec<BodyTypeContent>,
}

pub enum BodyContentV {
    SetParameterValuesResponse(bool),
    GetParameterValuesResponse(Seq<(Seq<char>, Seq<char>)>),
    Fault(FaultV),
    Other(Seq<char>),
}

impl View for BodyTypeContent {
    type V = BodyContentV;

    open spec fn view(&self) -> BodyContentV {
        match self {
            BodyTypeContent::SetParameterValuesResponse(r) => BodyContentV::SetParameterValuesResponse(
                r.status,
            ),
            BodyTypeContent::GetParameterValuesResponse(r) => BodyContentV::GetParameterValuesResponse(
                value_pairs(r.parameter_list@),
            ),
            BodyTypeContent::Fault(f) => BodyContentV::Fault(f@),
            BodyTypeContent::Other(n) => BodyContentV::Other(n@),
        }
    }
}

pub open spec fn body_views(s: Seq<BodyTypeContent>) -> Seq<BodyContentV> {
    s.map_values(|c: BodyTypeContent| c@)
}

/// What one child element of a `Body` decodes to.
pub open spec fn decode_body_element(e: XmlElement) -> Result<BodyContentV, CwmpError> {
    let local = local_part(e.name@);
    if local == "SetParameterValuesResponse"@ {
        match decode_status(e) {
            Ok(b) => Ok(BodyContentV::SetParameterValuesResponse(b)),
            Err(err) => Err(err),
        }
    } else if local == "GetParameterValuesResponse"@ {
        match decode_get_parameter_values_response(e) {
            Ok(ps) => Ok(BodyContentV::GetParameterValuesResponse(ps)),
            Err(err) => Err(err),
        }
    } else if local == "Fault"@ {
        match decode_fault(e) {
            Ok(f) => Ok(BodyContentV::Fault(f)),
            Err(err) => Err(err),
        }
    } else {
        Ok(BodyContentV::Other(e.name@))
    }
}

/// A known alternative has been found: it ends the decoded elements.
pub open spec fn settled(s: Seq<BodyContentV>) -> bool {
    s.len() > 0 && !(s.last() is Other)
}

/// The child elements of a `Body`, decoded in document order up to and including the first
/// known alternative; what follows it is ignored, and text is skipped.
pub open spec fn decode_body_children(children: Seq<XmlNode>) -> Result<Seq<BodyContentV>, CwmpError>
    decreases children.len(),
{
    if children.len() == 0 {
        Ok(Seq::empty())
    } else {
        match decode_body_children(children.drop_last()) {
            Err(err) => Err(err),
            Ok(prefix) => if settled(prefix) {
                Ok(prefix)
            } else {
                match children.last() {
                XmlNode::Text(_) => Ok(prefix),
                XmlNode::Element(c) => match decode_body_element(c) {
                    Ok(v) => Ok(prefix.push(v)),
                    Err(err) => Err(err),
                },
                }
            },
        }
    }
}

/// Once a prefix of the children fails or reaches a known alternative, the rest is not read.
proof fn lemma_body_stops(children: Seq<XmlNode>, k: int)
    requires
        0 <= k <= children.len(),
        decode_body_children(children.take(k)) is Err || (decode_body_children(
            children.take(k),
        ) matches Ok(p) && settled(p)),
    ensures
        decode_body_children(children) == decode_body_children(children.take(k)),
    decreases children.len() - k,
{
    if k < children.len() {
        assert(children.take(k + 1).drop_last() =~= children.take(k));
        lemma_body_stops(children, k + 1);
    } else {
        assert(children.take(k) =~= children);
    }
}

fn decode_body_content(e: &XmlElement) -> (r: Result<BodyTypeContent, CwmpError>)
    ensures
        match (r, decode_body_element(*e)) {
            (Ok(c), Ok(v)) => c@ == v,
            (Err(x), Err(y)) => x == y,
            _ => false,
        },
{
    if e.is_named("SetParameterValuesResponse") {
        match SetParameterValuesResponse::from_element(e) {
            Ok(s) => Ok(BodyTypeContent::SetParameterValuesResponse(s)),
            Err(err) => Err(err),
        }
    } else if e.is_named("GetParameterValuesResponse") {
        match GetParameterValuesResponse::from_element(e) {
            Ok(g) => Ok(BodyTypeContent::GetParameterValuesResponse(g)),
            Err(err) => Err(err),
        }
    } else if e.is_named("Fault") {
        match Fault::from_element(e) {
            Ok(f) => Ok(BodyTypeContent::Fault(f)),
            Err(err) => Err(err),
        }
    } else {
        Ok(BodyTypeContent::Other(e.name.clone()))
    }
}

impl BodyType {
    /// Decodes the child elements of a `Body` element in document order, up to and including
    /// the first known alternative.
    pub fn from_element(e: &XmlElement) -> (r: Result<BodyType, CwmpError>)
        ensures
            match (r, decode_body_children(e.children@)) {
                (Ok(b), Ok(v)) => body_views(b.content@) == v,
                (Err(x), Err(y)) => x == y,
                _ => false,
            },
    {
        let n = e.children.len();
        let mut content: Vec<BodyTypeContent> = Vec::new();
        let mut i: usize = 0;
        assert(body_views(content@) =~= Seq::<BodyContentV>::empty());
        assert(e.children@.take(0).len() == 0);
        while i < n
            invariant
                n == e.children@.len(),
                i <= n,
                decode_body_children(e.children@.take(i as int)) == Ok::<
                    Seq<BodyContentV>,
                    CwmpError,
                >(body_views(content@)),
                !settled(body_views(content@)),
            decreases n - i,
        {
            assert(e.children@.take(i + 1).drop_last() =~= e.children@.take(i as int));
            match &e.children[i] {
                XmlNode::Text(_) => {},
                XmlNode::Element(c) => match decode_body_content(c) {
                    Ok(v) => {
                        let ghost before = content@;
                        let known = match &v {
                            BodyTypeContent::Other(_) => false,
                            _ => true,
                        };
                        content.push(v);
                        assert(body_views(content@) =~= body_views(before).push(v@));
                        if known {
                            proof {
                                lemma_body_stops(e.children@, i as int + 1);
                            }
                            return Ok(BodyType { content });
                        }
                    },
                    Err(err) => {
                        proof {
                            lemma_body_stops(e.children@, i as int + 1);
                        }
                        return Err(err);
                    },
                },
            }
            i = i + 1;
        }
        assert(e.children@.take(n as int) =~= e.children@);
        Ok(BodyType { content })
    }
}

} // verus!
