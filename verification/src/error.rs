//! Parse errors. Every failure the parser can report is one of the kinds
//! below; the parse is fail-fast, so the first of them aborts the whole run.

use vstd::prelude::*;
use vstd::string::*;

use crate::tags::Tag;
use crate::text::eq_str;

verus! {

/// Model of a parse error.
#[verifier::ext_equal]
pub enum ErrorView {
    /// `tag` was opened without the required `attribute`.
    MissingAttribute { tag: Tag, attribute: Seq<char> },
    /// `Edm.Decimal` without both scale and precision.
    MissingDecimalBounds,
    /// An EDM type string outside the recognized set.
    UnknownODataType { name: Seq<char> },
    /// A `PropertyRef` name with no matching property in its entity.
    UnresolvedKey { name: Seq<char> },
    /// A failure of the underlying tag source, wrapped as its message.
    UnderlyingSource { message: Seq<char> },
    /// Any other parser-level reason, carried as plain text.
    General { message: Seq<char> },
}

/// The kind of a parse error, with what it names.
#[derive(Debug)]
pub enum ErrorKind {
    MissingAttribute { tag: Tag, attribute: String },
    MissingDecimalBounds,
    UnknownODataType { name: String },
    UnresolvedKey { name: String },
    UnderlyingSource { message: String },
    General { message: String },
}

impl View for ErrorKind {
    type V = ErrorView;

    open spec fn view(&self) -> ErrorView {
        match self {
            ErrorKind::MissingAttribute { tag, attribute } => ErrorView::MissingAttribute {
                tag: *tag,
                attribute: attribute@,
            },
            ErrorKind::MissingDecimalBounds => ErrorView::MissingDecimalBounds,
            ErrorKind::UnknownODataType { name } => ErrorView::UnknownODataType { name: name@ },
            ErrorKind::UnresolvedKey { name } => ErrorView::UnresolvedKey { name: name@ },
            ErrorKind::UnderlyingSource { message } => ErrorView::UnderlyingSource {
                message: message@,
            },
            ErrorKind::General { message } => ErrorView::General { message: message@ },
        }
    }
}

/// An error reported by the metadata parser.
#[derive(Debug)]
pub struct ParserError {
    pub kind: ErrorKind,
}

impl View for ParserError {
    type V = ErrorView;

    open spec fn view(&self) -> ErrorView {
        self.kind@
    }
}

/// The reason text for a missing attribute, by the construct it belongs to.
pub open spec fn missing_attr_text(tag: Tag, attribute: Seq<char>) -> Seq<char> {
    if tag == Tag::Schema {
        "Failed to get schema name"@
    } else if tag == Tag::EntityType {
        "Failed to get entity's name"@
    } else if tag == Tag::Property && attribute == "Type"@ {
        "Failed to get property's type"@
    } else if tag == Tag::Property {
        "Failed to get property's name"@
    } else if tag == Tag::NavigationProperty && attribute == "Name"@ {
        "Failed to get nav. property's name"@
    } else if tag == Tag::NavigationProperty {
        "Failed to get nav. property's target"@
    } else if tag == Tag::PropertyRef {
        "Failed to get property ref's name"@
    } else {
        "Missing attribute"@
    }
}

/// The full user-visible message of an error.
pub open spec fn message_view(e: ErrorView) -> Seq<char> {
    match e {
        ErrorView::MissingAttribute { tag, attribute } => "Metadata Parser Error, reason: "@
            + missing_attr_text(tag, attribute),
        ErrorView::MissingDecimalBounds => {
            "Metadata Parser Error, reason: Failed to parse a Decimal type, scale or precision is missing"@
        },
        ErrorView::UnknownODataType { name } => {
            "Metadata Parser Error, reason: Unknown/Unsupported OData Type '"@ + name + "'"@
        },
        ErrorView::UnresolvedKey { name } => {
            "Metadata Parser Error, reason: Unknown property in property ref"@
        },
        ErrorView::UnderlyingSource { message } => "Tag Parser Backend Error, reason: "@ + message,
        ErrorView::General { message } => "Metadata Parser Error, reason: "@ + message,
    }
}

impl ParserError {
    /// Wraps any reason text as a parser-level error, shown as
    /// `Metadata Parser Error, reason: <message>`.
    pub fn new(message: &str) -> (r: ParserError)
        ensures
            r@ == (ErrorView::General { message: message@ }),
    {
        ParserError { kind: ErrorKind::General { message: message.to_owned() } }
    }

    /// `new`, boxed.
    pub fn new_boxed(message: &str) -> (r: Box<ParserError>)
        ensures
            r@ == (ErrorView::General { message: message@ }),
    {
        Box::new(Self::new(message))
    }

    /// Wraps a failure message of the underlying tag source, shown as
    /// `Tag Parser Backend Error, reason: <message>`.
    pub fn from_source(message: &str) -> (r: ParserError)
        ensures
            r@ == (ErrorView::UnderlyingSource { message: message@ }),
    {
        ParserError { kind: ErrorKind::UnderlyingSource { message: message.to_owned() } }
    }

    /// The user-visible message.
    pub fn message(&self) -> (r: String)
        ensures
            r@ == message_view(self@),
    {
        match &self.kind {
            ErrorKind::MissingAttribute { tag, attribute } => {
                let mut out = String::from_str("Metadata Parser Error, reason: ");
                let reason: &str = if *tag == Tag::Schema {
                    "Failed to get schema name"
                } else if *tag == Tag::EntityType {
                    "Failed to get entity's name"
                } else if *tag == Tag::Property && eq_str(attribute.as_str(), "Type") {
                    "Failed to get property's type"
                } else if *tag == Tag::Property {
                    "Failed to get property's name"
                } else if *tag == Tag::NavigationProperty && eq_str(attribute.as_str(), "Name") {
                    "Failed to get nav. property's name"
                } else if *tag == Tag::NavigationProperty {
                    "Failed to get nav. property's target"
                } else if *tag == Tag::PropertyRef {
                    "Failed to get property ref's name"
                } else {
                    "Missing attribute"
                };
                out.append(reason);
                out
            },
            ErrorKind::MissingDecimalBounds => {
                String::from_str(
                    "Metadata Parser Error, reason: Failed to parse a Decimal type, scale or precision is missing",
                )
            },
            ErrorKind::UnknownODataType { name } => {
                let mut out = String::from_str(
                    "Metadata Parser Error, reason: Unknown/Unsupported OData Type '",
                );
                out.append(name.as_str());
                out.append("'");
                out
            },
            ErrorKind::UnresolvedKey { name } => {
                String::from_str("Metadata Parser Error, reason: Unknown property in property ref")
            },
            ErrorKind::UnderlyingSource { message } => {
                let mut out = String::from_str("Tag Parser Backend Error, reason: ");
                out.append(message.as_str());
                out
            },
            ErrorKind::General { message } => {
                let mut out = String::from_str("Metadata Parser Error, reason: ");
                out.append(message.as_str());
                out
            },
        }
    }
}

} // verus!
