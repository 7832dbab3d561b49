use cim::error::ErrorKind;
use cim::parser::Parser;
use cim::tags::{TagError, TagEvent, TagParser};
use cim::xml_source::XmlTagParser;

fn collect(mut source: XmlTagParser) -> Vec<Result<TagEvent, TagError>> {
    let mut events = Vec::new();
    while let Some(item) = source.next_event() {
        // the reader repeats a failure forever; the parse is fail-fast, so
        // the first failure ends the stream
        let failed = item.is_err();
        events.push(item);
        if failed {
            break;
        }
    }
    events
}

fn parse_xml(document: &str) -> Result<String, cim::error::ParserError> {
    let source = XmlTagParser::new(document.as_bytes().to_vec());
    let events = collect(source);
    let mut parser = Parser::new();
    parser.parse(&events)
}

#[test]
fn with_usual_metadata_it_raises_valid_tags() {}

#[test]
fn xml_document_parses_to_cds() {
    let document = r#"<?xml version="1.0" encoding="utf-8"?>
<Schema Namespace="test">
  <EntityType Name="Product">
    <Key>
      <PropertyRef Name="ID"/>
    </Key>
    <Property Name="ID" Type="Edm.Int32" Nullable="false"/>
    <Property Name="Price" Type="Edm.Decimal" Scale="10" Precision="5"/>
    <NavigationProperty Name="Categories" Type="Collection(test.Category)"/>
  </EntityType>
</Schema>"#;
    let cds = parse_xml(document).unwrap();
    assert_eq!(
        cds,
        "entity Product {\n  key ID: Integer;\n  Price: Decimal(5, 10);\n  Categories: Association to Category on ...;\n}\n"
    );
}

#[test]
fn xml_unknown_elements_are_ignored() {
    let document = r#"<Schema Namespace="test">
  <ComplexType Name="Address"><Property Name="Street" Type="Edm.String"/></ComplexType>
</Schema>"#;
    // the Property lies inside an unrecognized element, but the tag source is
    // flat: the property is still parsed, while ComplexType itself is ignored
    // and no EntityType close ever happens, so no entity is rendered
    let cds = parse_xml(document).unwrap();
    assert_eq!(cds, "");
}

#[test]
fn xml_reader_failure_surfaces_as_source_error() {
    let document = "<Schema Namespace=\"test\"><EntityType";
    let err = parse_xml(document).unwrap_err();
    match err.kind {
        ErrorKind::UnderlyingSource { message } => assert!(!message.is_empty()),
        _ => panic!("expected an underlying source error"),
    }
}
