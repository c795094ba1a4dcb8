//! Session headers: the canonical header values, and their decoding from a `Header` element.
use vstd::prelude::*;
use crate::error::CwmpError;
use crate::text::{is_numeral, numeral_value, local_part, parse_u32};
use crate::xml::{XmlElement, XmlNode, attribute_lookup, text_of};

verus! {

/// The `ID` header: the correlation identifier of a session exchange.
#[derive(Debug)]
pub struct Id {
    pub must_understand: bool,
    pub content: String,
}

/// The `SessionTimeout` header, in seconds.
#[derive(Debug)]
pub struct SessionTimeout {
    pub must_understand: Option<bool>,
    pub content: u32,
}

/// The `SupportedCWMPVersions` header: a comma-separated version list.
#[derive(Debug)]
pub struct SupportedCwmpVersions {
    pub must_understand: Option<bool>,
    pub content: String,
}

/// The `UseCWMPVersion` header.
#[derive(Debug)]
pub struct UseCwmpVersion {
    pub must_understand: Option<bool>,
    pub content: String,
}

/// One alternative of the canonical header choice.
#[derive(Debug)]
pub enum HeaderTypeContent {
    Id(Id),
    SessionTimeout(SessionTimeout),
    SupportedCwmpVersions(SupportedCwmpVersions),
    UseCwmpVersion(UseCwmpVersion),
}

/// The canonical `Header`: any headers, in document order.
#[derive(Debug)]
pub struct HeaderType {
    pub content: Vec<HeaderTypeContent>,
}

/// A header as plain values.
pub enum HeaderV {
    Id(bool, Seq<char>),
    SessionTimeout(Option<bool>, u32),
    SupportedCwmpVersions(Option<bool>, Seq<char>),
    UseCwmpVersion(Option<bool>, Seq<char>),
}

impl View for HeaderTypeContent {
    type V = HeaderV;

    open spec fn view(&self) -> HeaderV {
        match self {
            HeaderTypeContent::Id(h) => HeaderV::Id(h.must_understand, h.content@),
            HeaderTypeContent::SessionTimeout(h) => HeaderV::SessionTimeout(
                h.must_understand,
                h.content,
            ),
            HeaderTypeContent::SupportedCwmpVersions(h) => HeaderV::SupportedCwmpVersions(
                h.must_understand,
                h.content@,
            ),
            HeaderTypeContent::UseCwmpVersion(h) => HeaderV::UseCwmpVersion(
                h.must_understand,
                h.content@,
            ),
        }
    }
}

pub open spec fn header_views(s: Seq<HeaderTypeContent>) -> Seq<HeaderV> {
    s.map_values(|h: HeaderTypeContent| h@)
}

/// The boolean that a `mustUnderstand` attribute spells.
pub open spec fn flag_value(s: Seq<char>) -> Option<bool> {
    if s == "1"@ || s == "true"@ {
        Some(true)
    } else if s == "0"@ || s == "false"@ {
        Some(false)
    } else {
        None
    }
}

/// The optional `mustUnderstand` flag of `e`: absent, or a valid boolean, else an error.
pub open spec fn optional_flag(e: XmlElement) -> Result<Option<bool>, CwmpError> {
    match attribute_lookup(e.attributes@, "mustUnderstand"@) {
        None => Ok(None),
        Some(v) => match flag_value(v) {
            Some(b) => Ok(Some(b)),
            None => Err(CwmpError::InvalidValue),
        },
    }
}

/// The header that the element `e` carries; `None` for an element of no known header.
pub open spec fn decode_header_element(e: XmlElement) -> Option<Result<HeaderV, CwmpError>> {
    let local = local_part(e.name@);
    let t = text_of(e.children@);
    if local == "ID"@ {
        Some(
            match attribute_lookup(e.attributes@, "mustUnderstand"@) {
                Some(v) => match flag_value(v) {
                    Some(b) => Ok(HeaderV::Id(b, t)),
                    None => Err(CwmpError::InvalidValue),
                },
                None => Err(CwmpError::MissingElement),
            },
        )
    } else if local == "SessionTimeout"@ {
        Some(
            match optional_flag(e) {
                Ok(f) => if is_numeral(t) && numeral_value(t) <= u32::MAX {
                    Ok(HeaderV::SessionTimeout(f, numeral_value(t) as u32))
                } else {
                    Err(CwmpError::InvalidValue)
                },
                Err(err) => Err(err),
            },
        )
    } else if local == "SupportedCWMPVersions"@ {
        Some(
            match optional_flag(e) {
                Ok(f) => Ok(HeaderV::SupportedCwmpVersions(f, t)),
                Err(err) => Err(err),
            },
        )
    } else if local == "UseCWMPVersion"@ {
        Some(
            match optional_flag(e) {
                Ok(f) => Ok(HeaderV::UseCwmpVersion(f, t)),
                Err(err) => Err(err),
            },
        )
    } else {
        None
    }
}

/// The headers that the children of a `Header` element carry, in order; text is skipped,
/// as are elements of no known header.
pub open spec fn decode_header_children(children: Seq<XmlNode>) -> Result<Seq<HeaderV>, CwmpError>
    decreases children.len(),
{
    if children.len() == 0 {
        Ok(Seq::empty())
    } else {
        match decode_header_children(children.drop_last()) {
            Err(err) => Err(err),
            Ok(prefix) => match children.last() {
                XmlNode::Text(_) => Ok(prefix),
                XmlNode::Element(e) => match decode_header_element(e) {
                    None => Ok(prefix),
                    Some(Ok(h)) => Ok(prefix.push(h)),
                    Some(Err(err)) => Err(err),
                },
            },
        }
    }
}

/// Reads a boolean written `1`, `true`, `0` or `false`.
fn parse_flag(s: &String) -> (r: Option<bool>)
    ensures
        r == flag_value(s@),
{
    if *s == String::from_str("1") || *s == String::from_str("true") {
        Some(true)
    } else if *s == String::from_str("0") || *s == String::from_str("false") {
        Some(false)
    } else {
        None
    }
}

fn read_optional_flag(e: &XmlElement) -> (r: Result<Option<bool>, CwmpError>)
    ensures
        r == optional_flag(*e),
{
    match e.attribute("mustUnderstand") {
        None => Ok(None),
        Some(v) => match parse_flag(&v) {
            Some(b) => Ok(Some(b)),
            None => Err(CwmpError::InvalidValue),
        },
    }
}

/// Decodes one child element of a `Header`.
fn decode_header(e: &XmlElement) -> (r: Option<Result<HeaderTypeContent, CwmpError>>)
    ensures
        match (r, decode_header_element(*e)) {
            (None, None) => true,
            (Some(Ok(h)), Some(Ok(v))) => h@ == v,
            (Some(Err(x)), Some(Err(y))) => x == y,
            _ => false,
        },
{
    if e.is_named("ID") {
        let t = e.text();
        match e.attribute("mustUnderstand") {
            Some(v) => match parse_flag(&v) {
                Some(b) => Some(Ok(HeaderTypeContent::Id(Id { must_understand: b, content: t }))),
                None => Some(Err(CwmpError::InvalidValue)),
            },
            None => Some(Err(CwmpError::MissingElement)),
        }
    } else if e.is_named("SessionTimeout") {
        let t = e.text();
        match read_optional_flag(e) {
            Ok(f) => match parse_u32(t.as_str()) {
                Some(n) => Some(
                    Ok(HeaderTypeContent::SessionTimeout(SessionTimeout { must_understand: f, content: n })),
                ),
                None => Some(Err(CwmpError::InvalidValue)),
            },
            Err(err) => Some(Err(err)),
        }
    } else if e.is_named("SupportedCWMPVersions") {
        let t = e.text();
        match read_optional_flag(e) {
            Ok(f) => Some(
                Ok(
                    HeaderTypeContent::SupportedCwmpVersions(
                        SupportedCwmpVersions { must_understand: f, content: t },
                    ),
                ),
            ),
            Err(err) => Some(Err(err)),
        }
    } else if e.is_named("UseCWMPVersion") {
        let t = e.text();
        match read_optional_flag(e) {
            Ok(f) => Some(
                Ok(HeaderTypeContent::UseCwmpVersion(UseCwmpVersion { must_understand: f, content: t })),
            ),
            Err(err) => Some(Err(err)),
        }
    } else {
        None
    }
}

impl HeaderType {
    /// Decodes a `Header` element: its known header children, in document order.
    pub fn from_element(e: &XmlElement) -> (r: Result<HeaderType, CwmpError>)
        ensures
            match (r, decode_header_children(e.children@)) {
                (Ok(h), Ok(v)) => header_views(h.content@) == v,
                (Err(x), Err(y)) => x == y,
                _ => false,
            },
    {
        let n = e.children.len();
        let mut content: Vec<HeaderTypeContent> = Vec::new();
        let mut i: usize = 0;
        assert(header_views(content@) =~= Seq::<HeaderV>::empty());
        assert(e.children@.take(0).len() == 0);
        while i < n
            invariant
                n == e.children@.len(),
                i <= n,
                decode_header_children(e.children@.take(i as int)) == Ok::<Seq<HeaderV>, CwmpError>(
                    header_views(content@),
                ),
            decreases n - i,
        {
            assert(e.children@.take(i + 1).drop_last() =~= e.children@.take(i as int));
            match &e.children[i] {
                XmlNode::Text(_) => {},
                XmlNode::Element(c) => match decode_header(c) {
                    None => {},
                    Some(Ok(h)) => {
                        let ghost before = content@;
                        content.push(h);
                        assert(header_views(content@) =~= header_views(before).push(h@));
                    },
                    Some(Err(err)) => {
                        proof {
                            lemma_header_error_sticks(e.children@, i as int + 1);
                        }
                        return Err(err);
                    },
                },
            }
            i = i + 1;
        }
        assert(e.children@.take(n as int) =~= e.children@);
        Ok(HeaderType { content })
    }
}

/// Once a prefix of the children fails to decode, so do all the children.
proof fn lemma_header_error_sticks(children: Seq<XmlNode>, k: int)
    requires
        0 <= k <= children.len(),
        decode_header_children(children.take(k)) is Err,
    ensures
        decode_header_children(children) == decode_header_children(children.take(k)),
    decreases children.len() - k,
{
    if k < children.len() {
        assert(children.take(k + 1).drop_last() =~= children.take(k));
        lemma_header_error_sticks(children, k + 1);
    } else {
        assert(children.take(k) =~= children);
    }
}

} // verus!
