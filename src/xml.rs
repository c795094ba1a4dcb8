//! A plain XML tree: elements with qualified names, attributes and child nodes.
use vstd::prelude::*;
use crate::text::local_part;
use crate::text::{has_local_part, is_numeral, numeral_value, parse_u32};
use crate::error::CwmpError;

verus! {

/// One attribute, `name="value"`; the value is held unescaped.
pub struct XmlAttribute {
    pub name: String,
    pub value: String,
}

/// A child of an element: a nested element or a run of character data.
pub enum XmlNode {
    Element(XmlElement),
    Text(String),
}

/// An element with its qualified name, attributes in document order and children.
pub struct XmlElement {
    pub name: String,
    pub attributes: Vec<XmlAttribute>,
    pub children: Vec<XmlNode>,
}

/// The attributes as name/value pairs.
pub open spec fn attribute_pairs(attrs: Seq<XmlAttribute>) -> Seq<(Seq<char>, Seq<char>)> {
    attrs.map_values(|a: XmlAttribute| (a.name@, a.value@))
}

/// The value of the first attribute whose local name is `local`.
pub open spec fn attribute_lookup(attrs: Seq<XmlAttribute>, local: Seq<char>) -> Option<Seq<char>>
    decreases attrs.len(),
{
    if attrs.len() == 0 {
        None
    } else if local_part(attrs[0].name@) == local {
        Some(attrs[0].value@)
    } else {
        attribute_lookup(attrs.drop_first(), local)
    }
}

/// The character data directly inside an element, in order.
pub open spec fn text_of(children: Seq<XmlNode>) -> Seq<char>
    decreases children.len(),
{
    if children.len() == 0 {
        Seq::empty()
    } else {
        text_of(children.drop_last()) + match children.last() {
            XmlNode::Text(t) => t@,
            XmlNode::Element(_) => Seq::empty(),
        }
    }
}

/// The first child element whose local name is `local`.
pub open spec fn child_lookup(children: Seq<XmlNode>, local: Seq<char>) -> Option<XmlElement>
    decreases children.len(),
{
    if children.len() == 0 {
        None
    } else {
        match children[0] {
            XmlNode::Element(c) => if local_part(c.name@) == local {
                Some(c)
            } else {
                child_lookup(children.drop_first(), local)
            },
            XmlNode::Text(_) => child_lookup(children.drop_first(), local),
        }
    }
}

/// The text of the first child element named `local`.
pub open spec fn child_text(children: Seq<XmlNode>, local: Seq<char>) -> Result<Seq<char>, CwmpError> {
    match child_lookup(children, local) {
        Some(c) => Ok(text_of(c.children@)),
        None => Err(CwmpError::MissingElement),
    }
}

/// The number that the first child element named `local` holds.
pub open spec fn child_number(children: Seq<XmlNode>, local: Seq<char>) -> Result<u32, CwmpError> {
    match child_text(children, local) {
        Ok(t) => if is_numeral(t) && numeral_value(t) <= u32::MAX {
            Ok(numeral_value(t) as u32)
        } else {
            Err(CwmpError::InvalidValue)
        },
        Err(e) => Err(e),
    }
}

/// `e` is an element named `name` with no attributes whose only child is the text `t`.
pub open spec fn is_text_element(e: XmlElement, name: Seq<char>, t: Seq<char>) -> bool {
    &&& e.name@ == name
    &&& e.attributes@.len() == 0
    &&& e.children@.len() == 1
    &&& e.children@[0] is Text
    &&& e.children@[0]->Text_0@ == t
}

impl XmlElement {
    /// An element with no attributes and no children.
    pub fn new(name: &str) -> (r: XmlElement)
        ensures
            r.name@ == name@,
            r.attributes@.len() == 0,
            r.children@.len() == 0,
    {
        XmlElement { name: String::from_str(name), attributes: Vec::new(), children: Vec::new() }
    }

    /// The element with one more attribute after the present ones.
    pub fn with_attribute(self, name: &str, value: String) -> (r: XmlElement)
        ensures
            r.name == self.name,
            r.children == self.children,
            r.attributes@.len() == self.attributes@.len() + 1,
            r.attributes@.drop_last() == self.attributes@,
            r.attributes@.last().name@ == name@,
            r.attributes@.last().value@ == value@,
    {
        let mut e = self;
        e.attributes.push(XmlAttribute { name: String::from_str(name), value });
        proof {
            assert(e.attributes@.drop_last() =~= self.attributes@);
        }
        e
    }

    /// The element with one more child element after the present children.
    pub fn with_child(self, child: XmlElement) -> (r: XmlElement)
        ensures
            r.name == self.name,
            r.attributes == self.attributes,
            r.children@ == self.children@.push(XmlNode::Element(child)),
    {
        let mut e = self;
        e.children.push(XmlNode::Element(child));
        e
    }

    /// The element with one more run of text after the present children.
    pub fn with_text(self, t: String) -> (r: XmlElement)
        ensures
            r.name == self.name,
            r.attributes == self.attributes,
            r.children@ == self.children@.push(XmlNode::Text(t)),
    {
        let mut e = self;
        e.children.push(XmlNode::Text(t));
        e
    }

    /// An element named `name` holding the text `t` and nothing else.
    pub fn text_element(name: &str, t: String) -> (r: XmlElement)
        ensures
            is_text_element(r, name@, t@),
    {
        let e = XmlElement::new(name).with_text(t);
        e
    }

    /// Whether the local part of this element's name is `local`.
    pub fn is_named(&self, local: &str) -> (r: bool)
        ensures
            r == (local_part(self.name@) == local@),
    {
        has_local_part(self.name.as_str(), local)
    }

    /// The value of the first attribute whose local name is `local`.
    pub fn attribute(&self, local: &str) -> (r: Option<String>)
        ensures
            r matches Some(v) ==> attribute_lookup(self.attributes@, local@) == Some(v@),
            r is None ==> attribute_lookup(self.attributes@, local@) is None,
    {
        let n = self.attributes.len();
        let mut i: usize = 0;
        assert(self.attributes@.subrange(0, n as int) =~= self.attributes@);
        while i < n
            invariant
                n == self.attributes@.len(),
                i <= n,
                attribute_lookup(self.attributes@, local@)
                    == attribute_lookup(self.attributes@.subrange(i as int, n as int), local@),
            decreases n - i,
        {
            let a = &self.attributes[i];
            assert(self.attributes@.subrange(i as int, n as int).drop_first()
                =~= self.attributes@.subrange(i + 1, n as int));
            if has_local_part(a.name.as_str(), local) {
                return Some(a.value.clone());
            }
            i = i + 1;
        }
        None
    }

    /// The first child element whose local name is `local`.
    pub fn child(&self, local: &str) -> (r: Option<&XmlElement>)
        ensures
            r matches Some(c) ==> child_lookup(self.children@, local@) == Some(*c),
            r is None ==> child_lookup(self.children@, local@) is None,
    {
        let n = self.children.len();
        let mut i: usize = 0;
        assert(self.children@.subrange(0, n as int) =~= self.children@);
        while i < n
            invariant
                n == self.children@.len(),
                i <= n,
                child_lookup(self.children@, local@)
                    == child_lookup(self.children@.subrange(i as int, n as int), local@),
            decreases n - i,
        {
            assert(self.children@.subrange(i as int, n as int).drop_first()
                =~= self.children@.subrange(i + 1, n as int));
            match &self.children[i] {
                XmlNode::Element(c) => {
                    if c.is_named(local) {
                        return Some(c);
                    }
                },
                XmlNode::Text(_) => {},
            }
            i = i + 1;
        }
        None
    }

    /// The text of the first child element named `local`.
    pub fn child_text(&self, local: &str) -> (r: Result<String, CwmpError>)
        ensures
            match (r, child_text(self.children@, local@)) {
                (Ok(t), Ok(u)) => t@ == u,
                (Err(x), Err(y)) => x == y,
                _ => false,
            },
    {
        match self.child(local) {
            Some(c) => Ok(c.text()),
            None => Err(CwmpError::MissingElement),
        }
    }

    /// The number that the first child element named `local` holds.
    pub fn child_number(&self, local: &str) -> (r: Result<u32, CwmpError>)
        ensures
            r == child_number(self.children@, local@),
    {
        match self.child_text(local) {
            Ok(t) => match parse_u32(t.as_str()) {
                Some(v) => Ok(v),
                None => Err(CwmpError::InvalidValue),
            },
            Err(e) => Err(e),
        }
    }

    /// The character data directly inside this element.
    pub fn text(&self) -> (r: String)
        ensures
            r@ == text_of(self.children@),
    {
        let n = self.children.len();
        let mut r = String::new();
        let mut i: usize = 0;
        while i < n
            invariant
                n == self.children@.len(),
                i <= n,
                r@ == text_of(self.children@.take(i as int)),
            decreases n - i,
        {
            assert(self.children@.take(i + 1).drop_last() =~= self.children@.take(i as int));
            match &self.children[i] {
                XmlNode::Text(t) => {
                    r.append(t.as_str());
                },
                XmlNode::Element(_) => {
                    assert(r@ + Seq::<char>::empty() =~= r@);
                },
            }
            i = i + 1;
        }
        assert(self.children@.take(n as int) =~= self.children@);
        r
    }
}

} // verus!
