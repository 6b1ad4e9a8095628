//! The pieces of an XML document, as the XML reader hands them out.

use vstd::prelude::*;
use xml::reader::{EventReader, XmlEvent};

verus! {

/// One piece of an XML document.
pub enum Token {
    /// A start tag, with the local name of its element.
    Open(Seq<char>),
    /// An end tag.
    Close,
    /// Character data between tags.
    Text(Seq<char>),
    /// Anything that carries no content of an element: the declaration, a
    /// processing instruction, a comment, the end of the document.
    Other,
}

/// One piece of an XML document, as the program holds it.
#[derive(Debug, Clone)]
pub enum XmlToken {
    /// A start tag, with the local name of its element.
    Open(String),
    /// An end tag.
    Close,
    /// Character data between tags.
    Text(String),
    /// Anything that carries no content of an element.
    Other,
}

impl View for XmlToken {
    type V = Token;

    open spec fn view(&self) -> Token {
        match *self {
            XmlToken::Open(name) => Token::Open(name@),
            XmlToken::Close => Token::Close,
            XmlToken::Text(text) => Token::Text(text@),
            XmlToken::Other => Token::Other,
        }
    }
}

/// The pieces that a vector of tokens stands for.
pub open spec fn token_views(tokens: Seq<XmlToken>) -> Seq<Token> {
    tokens.map_values(|token: XmlToken| token@)
}

/// `xml::reader::Error`: why the XML reader failed. Nothing is read off it.
#[verifier::external_type_specification]
#[verifier::external_body]
pub struct ExXmlError(xml::reader::Error);

/// The pieces into which the XML reader of the crate `xml` takes the document
/// `data` apart, in document order, or `None` where it reports an error.
pub uninterp spec fn xml_tokens(data: Seq<u8>) -> Option<Seq<Token>>;

/// Runs `xml::reader::EventReader` with its default settings over `data` and
/// hands out every event up to the end of the document, or the reader's first
/// error. An element's start gives `Open` with the local name, its end
/// `Close`; character data, a CDATA section and white space give `Text`; all
/// other events give `Other`. The reader's answer depends on `data` alone.
#[verifier::external_body]
pub(crate) fn tokenize(data: &[u8]) -> (r: Result<Vec<XmlToken>, xml::reader::Error>)
    ensures
        match r {
            Ok(tokens) => xml_tokens(data@) == Some(token_views(tokens@)),
            Err(_) => xml_tokens(data@) is None,
        },
{
    EventReader::new(data).into_iter().map(|event| Ok(match event? {
        XmlEvent::StartElement { name, .. } => XmlToken::Open(name.local_name),
        XmlEvent::EndElement { .. } => XmlToken::Close,
        XmlEvent::Characters(text) => XmlToken::Text(text),
        XmlEvent::CData(text) => XmlToken::Text(text),
        XmlEvent::Whitespace(text) => XmlToken::Text(text),
        XmlEvent::StartDocument { .. } => XmlToken::Other,
        XmlEvent::EndDocument => XmlToken::Other,
        XmlEvent::ProcessingInstruction { .. } => XmlToken::Other,
        XmlEvent::Comment(_) => XmlToken::Other,
    })).collect()
}

} // verus!
