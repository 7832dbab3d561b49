//! The CDS data model: field types, fields and entities, the EDM type
//! mapping, and the deterministic text renderer.

use vstd::prelude::*;
use vstd::string::*;

use crate::error::{ErrorKind, ErrorView, ParserError};
use crate::tags::{lookup, Attributes, AttrsView};
use crate::text::eq_str;

verus! {

/// Model of a CDS field type.
#[verifier::ext_equal]
pub enum TypeView {
    Uuid,
    Boolean,
    Integer,
    Integer64,
    Decimal { precision: Seq<char>, scale: Seq<char> },
    Double,
    Date,
    Time,
    DateTime,
    String { length: Option<Seq<char>> },
    Binary,
    Single,
    Byte,
    SByte,
    Stream,
    Association { target: Seq<char> },
}

/// A CDS field type. Precision, scale and length are carried as opaque text,
/// passed through verbatim from the source attributes.
#[derive(Debug)]
pub enum CDSType {
    Uuid,
    Boolean,
    Integer,
    Integer64,
    Decimal { precision: String, scale: String },
    Double,
    Date,
    Time,
    DateTime,
    String { length: Option<String> },
    Binary,
    Single,
    Byte,
    SByte,
    Stream,
    Association { target: String },
}

impl View for CDSType {
    type V = TypeView;

    open spec fn view(&self) -> TypeView {
        match self {
            CDSType::Uuid => TypeView::Uuid,
            CDSType::Boolean => TypeView::Boolean,
            CDSType::Integer => TypeView::Integer,
            CDSType::Integer64 => TypeView::Integer64,
            CDSType::Decimal { precision, scale } => TypeView::Decimal {
                precision: precision@,
                scale: scale@,
            },
            CDSType::Double => TypeView::Double,
            CDSType::Date => TypeView::Date,
            CDSType::Time => TypeView::Time,
            CDSType::DateTime => TypeView::DateTime,
            CDSType::String { length } => TypeView::String {
                length: match length {
                    Some(l) => Some(l@),
                    None => None,
                },
            },
            CDSType::Binary => TypeView::Binary,
            CDSType::Single => TypeView::Single,
            CDSType::Byte => TypeView::Byte,
            CDSType::SByte => TypeView::SByte,
            CDSType::Stream => TypeView::Stream,
            CDSType::Association { target } => TypeView::Association { target: target@ },
        }
    }
}

impl Clone for CDSType {
    fn clone(&self) -> (r: Self)
        ensures
            r == *self,
    {
        match self {
            CDSType::Uuid => CDSType::Uuid,
            CDSType::Boolean => CDSType::Boolean,
            CDSType::Integer => CDSType::Integer,
            CDSType::Integer64 => CDSType::Integer64,
            CDSType::Decimal { precision, scale } => CDSType::Decimal {
                precision: precision.clone(),
                scale: scale.clone(),
            },
            CDSType::Double => CDSType::Double,
            CDSType::Date => CDSType::Date,
            CDSType::Time => CDSType::Time,
            CDSType::DateTime => CDSType::DateTime,
            CDSType::String { length } => CDSType::String {
                length: match length {
                    Some(l) => Some(l.clone()),
                    None => None,
                },
            },
            CDSType::Binary => CDSType::Binary,
            CDSType::Single => CDSType::Single,
            CDSType::Byte => CDSType::Byte,
            CDSType::SByte => CDSType::SByte,
            CDSType::Stream => CDSType::Stream,
            CDSType::Association { target } => CDSType::Association { target: target.clone() },
        }
    }
}

/// The first of the two options that holds a value, if any.
pub open spec fn opt_or(a: Option<Seq<char>>, b: Option<Seq<char>>) -> Option<Seq<char>> {
    match a {
        Some(v) => Some(v),
        None => b,
    }
}

/// The EDM type mapping table: an EDM type name plus the element's attribute
/// set give a CDS type, or the error that rules the input out.
pub open spec fn map_odata_type(name: Seq<char>, attrs: AttrsView) -> Result<TypeView, ErrorView> {
    if name == "Edm.Guid"@ {
        Ok(TypeView::Uuid)
    } else if name == "Edm.Boolean"@ {
        Ok(TypeView::Boolean)
    } else if name == "Edm.Int16"@ || name == "Edm.Int32"@ {
        Ok(TypeView::Integer)
    } else if name == "Edm.Int64"@ {
        Ok(TypeView::Integer64)
    } else if name == "Edm.Decimal"@ {
        match (
            opt_or(lookup(attrs, "scale"@), lookup(attrs, "Scale"@)),
            opt_or(lookup(attrs, "precision"@), lookup(attrs, "Precision"@)),
        ) {
            (Some(scale), Some(precision)) => Ok(TypeView::Decimal { precision, scale }),
            _ => Err(ErrorView::MissingDecimalBounds),
        }
    } else if name == "Edm.Double"@ {
        Ok(TypeView::Double)
    } else if name == "Edm.Date"@ {
        Ok(TypeView::Date)
    } else if name == "Edm.TimeOfDay"@ || name == "Edm.Time"@ {
        Ok(TypeView::Time)
    } else if name == "Edm.DateTime"@ || name == "Edm.DateTimeOffset"@ {
        Ok(TypeView::DateTime)
    } else if name == "Edm.String"@ {
        Ok(TypeView::String { length: lookup(attrs, "MaxLength"@) })
    } else if name == "Edm.Binary"@ {
        Ok(TypeView::Binary)
    } else if name == "Edm.Single"@ {
        Ok(TypeView::Single)
    } else if name == "Edm.Byte"@ {
        Ok(TypeView::Byte)
    } else if name == "Edm.SByte"@ {
        Ok(TypeView::SByte)
    } else if name == "Edm.Stream"@ {
        Ok(TypeView::Stream)
    } else {
        Err(ErrorView::UnknownODataType { name })
    }
}

/// The fixed text of each CDS type.
pub open spec fn render_type(t: TypeView) -> Seq<char> {
    match t {
        TypeView::Uuid => "UUID"@,
        TypeView::Boolean => "Boolean"@,
        TypeView::Integer => "Integer"@,
        TypeView::Integer64 => "Integer64"@,
        TypeView::Decimal { precision, scale } => "Decimal("@ + precision + ", "@ + scale + ")"@,
        TypeView::Double => "Double"@,
        TypeView::Date => "Date"@,
        TypeView::Time => "Time"@,
        TypeView::DateTime => "DateTime"@,
        TypeView::String { length } => match length {
            Some(l) => "String("@ + l + ")"@,
            None => "String"@,
        },
        TypeView::Binary => "Binary"@,
        TypeView::Single => "Double @odata.Type: 'Edm.Single'"@,
        TypeView::Byte => "Integer @odata.Type: 'Edm.Byte'"@,
        TypeView::SByte => "Integer @odata.Type: 'Edm.SByte'"@,
        TypeView::Stream => "LargeBinary @odata.Type: 'Edm.Stream'"@,
        TypeView::Association { target } => "Association to "@ + target + " on ..."@,
    }
}

impl CDSType {
    /// Maps an EDM type name to a CDS type, looking decimal bounds and string
    /// length up in the element's attribute set.
    pub fn from_odata(odata_type: String, attributes: &Attributes) -> (r: Result<
        CDSType,
        ParserError,
    >)
        ensures
            match map_odata_type(odata_type@, attributes@) {
                Ok(t) => r matches Ok(c) && c@ == t,
                Err(e) => r matches Err(p) && p@ == e,
            },
    {
        let ty: &str = odata_type.as_str();
        if eq_str(ty, "Edm.Guid") {
            Ok(CDSType::Uuid)
        } else if eq_str(ty, "Edm.Boolean") {
            Ok(CDSType::Boolean)
        } else if eq_str(ty, "Edm.Int16") || eq_str(ty, "Edm.Int32") {
            Ok(CDSType::Integer)
        } else if eq_str(ty, "Edm.Int64") {
            Ok(CDSType::Integer64)
        } else if eq_str(ty, "Edm.Decimal") {
            let scale = match attributes.get("scale") {
                Some(v) => Some(v),
                None => attributes.get("Scale"),
            };
            let precision = match attributes.get("precision") {
                Some(v) => Some(v),
                None => attributes.get("Precision"),
            };
            match (scale, precision) {
                (Some(scale), Some(precision)) => Ok(CDSType::Decimal { precision, scale }),
                _ => Err(ParserError { kind: ErrorKind::MissingDecimalBounds }),
            }
        } else if eq_str(ty, "Edm.Double") {
            Ok(CDSType::Double)
        } else if eq_str(ty, "Edm.Date") {
            Ok(CDSType::Date)
        } else if eq_str(ty, "Edm.TimeOfDay") || eq_str(ty, "Edm.Time") {
            Ok(CDSType::Time)
        } else if eq_str(ty, "Edm.DateTime") || eq_str(ty, "Edm.DateTimeOffset") {
            Ok(CDSType::DateTime)
        } else if eq_str(ty, "Edm.String") {
            Ok(CDSType::String { length: attributes.get("MaxLength") })
        } else if eq_str(ty, "Edm.Binary") {
            Ok(CDSType::Binary)
        } else if eq_str(ty, "Edm.Single") {
            Ok(CDSType::Single)
        } else if eq_str(ty, "Edm.Byte") {
            Ok(CDSType::Byte)
        } else if eq_str(ty, "Edm.SByte") {
            Ok(CDSType::SByte)
        } else if eq_str(ty, "Edm.Stream") {
            Ok(CDSType::Stream)
        } else {
            Err(ParserError { kind: ErrorKind::UnknownODataType { name: odata_type } })
        }
    }

    /// The fixed text of this type, as it appears after `: ` in a field line.
    pub fn to_cds(&self) -> (r: String)
        ensures
            r@ == render_type(self@),
    {
        match self {
            CDSType::Uuid => String::from_str("UUID"),
            CDSType::Boolean => String::from_str("Boolean"),
            CDSType::Integer => String::from_str("Integer"),
            CDSType::Integer64 => String::from_str("Integer64"),
            CDSType::Decimal { precision, scale } => {
                let mut out = String::from_str("Decimal(");
                out.append(precision.as_str());
                out.append(", ");
                out.append(scale.as_str());
                out.append(")");
                out
            },
            CDSType::Double => String::from_str("Double"),
            CDSType::Date => String::from_str("Date"),
            CDSType::Time => String::from_str("Time"),
            CDSType::DateTime => String::from_str("DateTime"),
            CDSType::String { length } => match length {
                Some(l) => {
                    let mut out = String::from_str("String(");
                    out.append(l.as_str());
                    out.append(")");
                    out
                },
                None => String::from_str("String"),
            },
            CDSType::Binary => String::from_str("Binary"),
            CDSType::Single => String::from_str("Double @odata.Type: 'Edm.Single'"),
            CDSType::Byte => String::from_str("Integer @odata.Type: 'Edm.Byte'"),
            CDSType::SByte => String::from_str("Integer @odata.Type: 'Edm.SByte'"),
            CDSType::Stream => String::from_str("LargeBinary @odata.Type: 'Edm.Stream'"),
            CDSType::Association { target } => {
                let mut out = String::from_str("Association to ");
                out.append(target.as_str());
                out.append(" on ...");
                out
            },
        }
    }
}

/// Model of a field.
#[verifier::ext_equal]
pub struct FieldView {
    pub name: Seq<char>,
    pub is_key: bool,
    pub cds_type: TypeView,
}

/// One field of an entity: a name, a CDS type, and whether the field is part
/// of the entity's key. The key flag starts false and is set once, during
/// entity finalization.
pub struct Field {
    name: String,
    is_key: bool,
    cds_type: CDSType,
}

impl View for Field {
    type V = FieldView;

    closed spec fn view(&self) -> FieldView {
        FieldView { name: self.name@, is_key: self.is_key, cds_type: self.cds_type@ }
    }
}

impl Clone for Field {
    fn clone(&self) -> (r: Self)
        ensures
            r == *self,
    {
        Field { name: self.name.clone(), is_key: self.is_key, cds_type: self.cds_type.clone() }
    }
}

/// One line of an entity body, without the indent: `key ` when the field is
/// part of the key, then `<name>: <type>;` and a newline.
pub open spec fn render_field(f: FieldView) -> Seq<char> {
    (if f.is_key {
        "key "@
    } else {
        Seq::<char>::empty()
    }) + f.name + ": "@ + render_type(f.cds_type) + ";\n"@
}

impl Field {
    fn new(name: String, cds_type: CDSType) -> (r: Field)
        ensures
            r@ == (FieldView { name: name@, is_key: false, cds_type: cds_type@ }),
    {
        Field { name, cds_type, is_key: false }
    }

    /// Builds a field from an OData property: its name, its EDM type name and
    /// the element's attribute set. Fails exactly where the type mapping does.
    pub fn from_odata(name: &str, odata_type: &str, attributes: &Attributes) -> (r: Result<
        Field,
        ParserError,
    >)
        ensures
            match map_odata_type(odata_type@, attributes@) {
                Ok(t) => r matches Ok(f) && f@ == (FieldView {
                    name: name@,
                    is_key: false,
                    cds_type: t,
                }),
                Err(e) => r matches Err(p) && p@ == e,
            },
    {
        match CDSType::from_odata(odata_type.to_owned(), attributes) {
            Ok(cds_type) => Ok(Field::new(name.to_owned(), cds_type)),
            Err(e) => Err(e),
        }
    }

    /// Builds an association field from a navigation property's name and its
    /// normalized target.
    pub fn new_association(name: &str, target: &str) -> (r: Field)
        ensures
            r@ == (FieldView {
                name: name@,
                is_key: false,
                cds_type: TypeView::Association { target: target@ },
            }),
    {
        Field::new(name.to_owned(), CDSType::Association { target: target.to_owned() })
    }

    /// The field's name.
    pub fn name(&self) -> (r: &String)
        ensures
            r@ == self@.name,
    {
        &self.name
    }

    /// Marks the field as part of its entity's key.
    pub fn set_as_key(&mut self)
        ensures
            final(self)@ == (FieldView { is_key: true, ..old(self)@ }),
    {
        self.is_key = true;
    }

    /// This field's line, without the indent.
    pub fn to_cds(&self) -> (r: String)
        ensures
            r@ == render_field(self@),
    {
        let mut out = if self.is_key {
            String::from_str("key ")
        } else {
            String::new()
        };
        out.append(self.name.as_str());
        out.append(": ");
        let ty = self.cds_type.to_cds();
        out.append(ty.as_str());
        out.append(";\n");
        out
    }
}

/// Is there a field of this name?
pub open spec fn has_field(fs: Seq<FieldView>, name: Seq<char>) -> bool {
    exists|j: int| 0 <= j < fs.len() && fs[j].name == name
}

/// Index of the first field of this name (meaningful only when one exists).
pub open spec fn field_index(fs: Seq<FieldView>, name: Seq<char>) -> int
    decreases fs.len(),
{
    if fs.len() == 0 {
        0
    } else if fs[0].name == name {
        0
    } else {
        1 + field_index(fs.drop_first(), name)
    }
}

/// Inserting a field under its name: the first field of that name is
/// overwritten in place — its position, and with it the declaration order,
/// is kept — and a new name is appended.
pub open spec fn insert_field(fs: Seq<FieldView>, f: FieldView) -> Seq<FieldView> {
    if has_field(fs, f.name) {
        fs.update(field_index(fs, f.name), f)
    } else {
        fs.push(f)
    }
}

/// Pinpoints `field_index`: a match at `j` with no earlier match is first.
pub proof fn lemma_field_index_at(fs: Seq<FieldView>, name: Seq<char>, j: int)
    requires
        0 <= j < fs.len(),
        fs[j].name == name,
        forall|k: int| 0 <= k < j ==> (#[trigger] fs[k]).name != name,
    ensures
        has_field(fs, name),
        field_index(fs, name) == j,
    decreases j,
{
    if j == 0 {
    } else {
        assert(fs[0].name != name);
        assert(fs.drop_first()[j - 1] == fs[j]);
        assert(forall|k: int| 0 <= k < j - 1 ==> (#[trigger] fs.drop_first()[k]).name != name);
        lemma_field_index_at(fs.drop_first(), name, j - 1);
    }
}

/// The fields with every name on the key list marked as key.
pub open spec fn mark_keys(fs: Seq<FieldView>, keys: Seq<Seq<char>>) -> Seq<FieldView> {
    fs.map_values(
        |f: FieldView|
            if keys.contains(f.name) {
                FieldView { is_key: true, ..f }
            } else {
                f
            },
    )
}

/// Model of an entity.
#[verifier::ext_equal]
pub struct EntityView {
    pub name: Seq<char>,
    pub fields: Seq<FieldView>,
}

/// One parsed entity: a name and its fields in declaration order.
pub struct Entity {
    name: String,
    fields: Vec<Field>,
}

impl View for Entity {
    type V = EntityView;

    closed spec fn view(&self) -> EntityView {
        EntityView { name: self.name@, fields: self.fields@.map_values(|f: Field| f@) }
    }
}

/// The body lines of an entity: each field indented by two spaces.
pub open spec fn render_fields(fs: Seq<FieldView>) -> Seq<char>
    decreases fs.len(),
{
    if fs.len() == 0 {
        Seq::<char>::empty()
    } else {
        "  "@ + render_field(fs[0]) + render_fields(fs.drop_first())
    }
}

/// One entity block: header line, indented field lines, closing brace.
pub open spec fn render_entity(e: EntityView) -> Seq<char> {
    "entity "@ + e.name + " {\n"@ + render_fields(e.fields) + "}\n"@
}

/// The whole document: entity blocks concatenated in order, nothing between.
pub open spec fn render_doc(es: Seq<EntityView>) -> Seq<char>
    decreases es.len(),
{
    if es.len() == 0 {
        Seq::<char>::empty()
    } else {
        render_entity(es[0]) + render_doc(es.drop_first())
    }
}

/// Field lines render piecewise: one more field appends one more line.
pub proof fn lemma_render_fields_concat(a: Seq<FieldView>, b: Seq<FieldView>)
    ensures
        render_fields(a + b) == render_fields(a) + render_fields(b),
    decreases a.len(),
{
    if a.len() == 0 {
        assert(a + b =~= b);
        assert(render_fields(a) + render_fields(b) =~= render_fields(b));
    } else {
        lemma_render_fields_concat(a.drop_first(), b);
        assert((a + b).drop_first() =~= a.drop_first() + b);
        assert((a + b)[0] == a[0]);
        assert(render_fields(a + b) == "  "@ + render_field(a[0]) + (render_fields(a.drop_first())
            + render_fields(b)));
        assert("  "@ + render_field(a[0]) + (render_fields(a.drop_first()) + render_fields(b)) =~= (
        "  "@ + render_field(a[0]) + render_fields(a.drop_first())) + render_fields(b));
    }
}

/// Entity blocks render piecewise: one more entity appends one more block.
pub proof fn lemma_render_doc_concat(a: Seq<EntityView>, b: Seq<EntityView>)
    ensures
        render_doc(a + b) == render_doc(a) + render_doc(b),
    decreases a.len(),
{
    if a.len() == 0 {
        assert(a + b =~= b);
        assert(render_doc(a) + render_doc(b) =~= render_doc(b));
    } else {
        lemma_render_doc_concat(a.drop_first(), b);
        assert((a + b).drop_first() =~= a.drop_first() + b);
        assert((a + b)[0] == a[0]);
        assert(render_doc(a + b) == render_entity(a[0]) + (render_doc(a.drop_first()) + render_doc(
            b,
        )));
        assert(render_entity(a[0]) + (render_doc(a.drop_first()) + render_doc(b)) =~= (render_entity(
            a[0],
        ) + render_doc(a.drop_first())) + render_doc(b));
    }
}

/// Rendering an entity is idempotent: the text is a function of the model
/// alone, so any two renderings of equal entities are byte-identical.
pub proof fn lemma_to_cds_deterministic(e1: &Entity, e2: &Entity, r1: String, r2: String)
    requires
        e1@ == e2@,
        call_ensures(Entity::to_cds, (e1,), r1),
        call_ensures(Entity::to_cds, (e2,), r2),
    ensures
        r1@ == r2@,
{
}

impl Entity {
    /// Builds an entity from its name and its fields in declaration order.
    pub fn new(name: &str, fields: &Vec<Field>) -> (r: Entity)
        ensures
            r@ == (EntityView { name: name@, fields: fields@.map_values(|f: Field| f@) }),
    {
        let mut copied: Vec<Field> = Vec::new();
        let n: usize = fields.len();
        let mut i: usize = 0;
        while i < n
            invariant
                i <= n,
                n == fields.len(),
                copied@.map_values(|f: Field| f@) =~= fields@.take(i as int).map_values(
                    |f: Field| f@,
                ),
            decreases n - i,
        {
            copied.push(fields[i].clone());
            assert(fields@.take(i + 1).map_values(|f: Field| f@) =~= fields@.take(
                i as int,
            ).map_values(|f: Field| f@).push(fields@[i as int]@));
            i = i + 1;
        }
        assert(fields@.take(n as int) =~= fields@);
        let r = Entity { name: name.to_owned(), fields: copied };
        assert(r@ =~= (EntityView { name: name@, fields: fields@.map_values(|f: Field| f@) }));
        r
    }

    /// This entity's block of CDS text.
    pub fn to_cds(&self) -> (r: String)
        ensures
            r@ == render_entity(self@),
    {
        let mut out = String::from_str("entity ");
        out.append(self.name.as_str());
        out.append(" {\n");
        let ghost fvs = self@.fields;
        let n: usize = self.fields.len();
        let mut i: usize = 0;
        assert(fvs.take(0) =~= Seq::<FieldView>::empty());
        while i < n
            invariant
                i <= n,
                n == self.fields.len(),
                fvs == self@.fields,
                fvs.len() == n,
                forall|j: int| 0 <= j < n ==> fvs[j] == #[trigger] self.fields@[j]@,
                out@ == "entity "@ + self@.name + " {\n"@ + render_fields(fvs.take(i as int)),
            decreases n - i,
        {
            out.append("  ");
            let line = self.fields[i].to_cds();
            out.append(line.as_str());
            proof {
                assert(fvs.take(i + 1) =~= fvs.take(i as int) + seq![fvs[i as int]]);
                lemma_render_fields_concat(fvs.take(i as int), seq![fvs[i as int]]);
                assert(seq![fvs[i as int]].drop_first() =~= Seq::<FieldView>::empty());
                assert(render_fields(seq![fvs[i as int]]) == "  "@ + render_field(fvs[i as int])
                    + render_fields(Seq::<FieldView>::empty()));
                assert("  "@ + render_field(fvs[i as int]) + Seq::<char>::empty() =~= "  "@
                    + render_field(fvs[i as int]));
                assert(out@ =~= "entity "@ + self@.name + " {\n"@ + render_fields(
                    fvs.take(i + 1),
                ));
            }
            i = i + 1;
        }
        assert(fvs.take(n as int) =~= fvs);
        out.append("}\n");
        assert(out@ =~= render_entity(self@));
        out
    }
}

} // verus!
