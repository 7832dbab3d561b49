//! The parser: a state machine folded over the tag-event stream.
//!
//! Every transition is specified by a spec function over `StateView`, the
//! mathematical model of the accumulator; `run_from` folds them over a whole
//! stream. The executable parser is proved to implement that fold exactly:
//! its result and its final state are pinned by `run_from`, for every input.

use vstd::prelude::*;
use vstd::string::*;

use crate::cds::{
    has_field, insert_field, lemma_render_doc_concat, map_odata_type, mark_keys, render_doc,
    Entity, EntityView, Field, FieldView, TypeView,
};
use crate::error::{ErrorKind, ErrorView, ParserError};
use crate::tags::{
    get_attribute, item_view, items_view, lookup, Attributes, AttrsView, EventView, ItemView, Tag,
    TagError, TagEvent,
};
use crate::text::{remove_all, remove_all_view};

verus! {

/// Model of the parser's accumulator.
#[verifier::ext_equal]
pub struct StateView {
    /// Entities already closed, in document order.
    pub finished: Seq<EntityView>,
    /// Name of the entity currently open, if any.
    pub entity_name: Seq<char>,
    /// Working set of the open entity's fields, in declaration order, one
    /// per name (a repeated name overwrites in place).
    pub fields: Seq<FieldView>,
    /// Pending key names from `PropertyRef` elements.
    pub keys: Seq<Seq<char>>,
    /// Scratch of the property or navigation property currently open.
    pub field_name: Seq<char>,
    pub field_type: Seq<char>,
    pub associated_target: Seq<char>,
    pub field_attributes: AttrsView,
    /// Namespace of the current schema.
    pub schema_name: Seq<char>,
}

/// The accumulator a fresh parse starts from: everything empty.
pub open spec fn init_view() -> StateView {
    StateView {
        finished: Seq::empty(),
        entity_name: Seq::empty(),
        fields: Seq::empty(),
        keys: Seq::empty(),
        field_name: Seq::empty(),
        field_type: Seq::empty(),
        associated_target: Seq::empty(),
        field_attributes: Seq::empty(),
        schema_name: Seq::empty(),
    }
}

/// The first of the two options that holds a value, if any.
pub open spec fn opt_first(a: Option<Seq<char>>, b: Option<Seq<char>>) -> Option<Seq<char>> {
    match a {
        Some(v) => Some(v),
        None => b,
    }
}

/// Open Schema: record the `Namespace` attribute as the schema name.
pub open spec fn schema_open(s: StateView, attrs: AttrsView) -> Result<StateView, ErrorView> {
    match lookup(attrs, "Namespace"@) {
        Some(v) => Ok(StateView { schema_name: v, ..s }),
        None => Err(ErrorView::MissingAttribute { tag: Tag::Schema, attribute: "Namespace"@ }),
    }
}

/// Open EntityType: record the `Name` attribute and reset per-entity scratch.
pub open spec fn entity_open(s: StateView, attrs: AttrsView) -> Result<StateView, ErrorView> {
    match lookup(attrs, "Name"@) {
        Some(v) => Ok(
            StateView { entity_name: v, fields: Seq::empty(), keys: Seq::empty(), ..s },
        ),
        None => Err(ErrorView::MissingAttribute { tag: Tag::EntityType, attribute: "Name"@ }),
    }
}

/// Open Property: record `Name` and `Type` and snapshot the attribute set.
pub open spec fn property_open(s: StateView, attrs: AttrsView) -> Result<StateView, ErrorView> {
    match lookup(attrs, "Name"@) {
        None => Err(ErrorView::MissingAttribute { tag: Tag::Property, attribute: "Name"@ }),
        Some(n) => match lookup(attrs, "Type"@) {
            None => Err(ErrorView::MissingAttribute { tag: Tag::Property, attribute: "Type"@ }),
            Some(t) => Ok(
                StateView { field_name: n, field_type: t, field_attributes: attrs, ..s },
            ),
        },
    }
}

/// A navigation target, normalized: with the schema prefix `<schema>.` gone
/// (wherever it occurs), then every `Collection(` and `)` gone.
pub open spec fn normalize_target(schema: Seq<char>, target: Seq<char>) -> Seq<char> {
    let stripped = if schema.len() > 0 {
        remove_all_view(target, schema + "."@)
    } else {
        target
    };
    remove_all_view(remove_all_view(stripped, "Collection("@), ")"@)
}

/// Open NavigationProperty: record `Name`; the target is `Type`, or `ToRole`
/// as the fallback, normalized against the current schema name. A target
/// that normalizes to nothing is an unresolvable reference and is rejected
/// rather than silently defaulted.
pub open spec fn nav_open(s: StateView, attrs: AttrsView) -> Result<StateView, ErrorView> {
    match lookup(attrs, "Name"@) {
        None => Err(
            ErrorView::MissingAttribute { tag: Tag::NavigationProperty, attribute: "Name"@ },
        ),
        Some(n) => match opt_first(lookup(attrs, "Type"@), lookup(attrs, "ToRole"@)) {
            None => Err(
                ErrorView::MissingAttribute { tag: Tag::NavigationProperty, attribute: "Type"@ },
            ),
            Some(t) => {
                let normalized = normalize_target(s.schema_name, t);
                if normalized.len() == 0 {
                    Err(ErrorView::UnresolvedKey { name: n })
                } else {
                    Ok(StateView { field_name: n, associated_target: normalized, ..s })
                }
            },
        },
    }
}

/// Open PropertyRef: append the `Name` attribute to the pending key names.
pub open spec fn propertyref_open(s: StateView, attrs: AttrsView) -> Result<StateView, ErrorView> {
    match lookup(attrs, "Name"@) {
        Some(n) => Ok(StateView { keys: s.keys.push(n), ..s }),
        None => Err(ErrorView::MissingAttribute { tag: Tag::PropertyRef, attribute: "Name"@ }),
    }
}

/// Close Property: resolve the EDM type and insert the field under its name;
/// clear the scratch. A mapping error aborts with the accumulator unchanged.
pub open spec fn property_close(s: StateView) -> Result<StateView, ErrorView> {
    match map_odata_type(s.field_type, s.field_attributes) {
        Ok(t) => Ok(
            StateView {
                fields: insert_field(
                    s.fields,
                    FieldView { name: s.field_name, is_key: false, cds_type: t },
                ),
                field_name: Seq::empty(),
                field_type: Seq::empty(),
                field_attributes: Seq::empty(),
                ..s
            },
        ),
        Err(e) => Err(e),
    }
}

/// Close NavigationProperty: insert an association field under its name and
/// clear the scratch.
pub open spec fn nav_close(s: StateView) -> StateView {
    StateView {
        fields: insert_field(
            s.fields,
            FieldView {
                name: s.field_name,
                is_key: false,
                cds_type: TypeView::Association { target: s.associated_target },
            },
        ),
        field_name: Seq::empty(),
        associated_target: Seq::empty(),
        ..s
    }
}

/// The first pending key name with no field of that name, if any.
pub open spec fn first_unresolved(keys: Seq<Seq<char>>, fs: Seq<FieldView>) -> Option<Seq<char>>
    decreases keys.len(),
{
    if keys.len() == 0 {
        None
    } else if !has_field(fs, keys[0]) {
        Some(keys[0])
    } else {
        first_unresolved(keys.drop_first(), fs)
    }
}

/// Close EntityType: mark each pending key name's field as key, append the
/// finished entity, and clear all per-entity scratch. A key name with no
/// matching field aborts with the accumulator unchanged.
pub open spec fn entity_close(s: StateView) -> Result<StateView, ErrorView> {
    match first_unresolved(s.keys, s.fields) {
        Some(k) => Err(ErrorView::UnresolvedKey { name: k }),
        None => Ok(
            StateView {
                finished: s.finished.push(
                    EntityView { name: s.entity_name, fields: mark_keys(s.fields, s.keys) },
                ),
                entity_name: Seq::empty(),
                fields: Seq::empty(),
                keys: Seq::empty(),
                ..s
            },
        ),
    }
}

/// One transition of the state machine: only the listed tags change state,
/// everything else is a no-op.
pub open spec fn step_view(s: StateView, ev: EventView) -> Result<StateView, ErrorView> {
    match ev {
        EventView::Open { tag, attributes } => match tag {
            Tag::Schema => schema_open(s, attributes),
            Tag::EntityType => entity_open(s, attributes),
            Tag::Property => property_open(s, attributes),
            Tag::NavigationProperty => nav_open(s, attributes),
            Tag::PropertyRef => propertyref_open(s, attributes),
            Tag::Unknown => Ok(s),
        },
        EventView::Close { tag } => match tag {
            Tag::EntityType => entity_close(s),
            Tag::Property => property_close(s),
            Tag::NavigationProperty => Ok(nav_close(s)),
            _ => Ok(s),
        },
    }
}

/// The whole fold: the state after consuming `items` from `s`, paired with
/// the outcome — the rendered document, or the first error. The fold is
/// fail-fast: an error leaves the state where it was and stops.
pub open spec fn run_from(s: StateView, items: Seq<ItemView>) -> (StateView, Result<
    Seq<char>,
    ErrorView,
>)
    decreases items.len(),
{
    if items.len() == 0 {
        (s, Ok(render_doc(s.finished)))
    } else {
        match items[0] {
            Err(msg) => (s, Err(ErrorView::UnderlyingSource { message: msg })),
            Ok(ev) => match step_view(s, ev) {
                Err(e) => (s, Err(e)),
                Ok(s2) => run_from(s2, items.drop_first()),
            },
        }
    }
}

/// What a whole parse of `items` returns, from a fresh accumulator.
pub open spec fn parse_outcome(items: Seq<ItemView>) -> Result<Seq<char>, ErrorView> {
    run_from(init_view(), items).1
}

/// Does the exec result hold exactly what the spec outcome holds?
pub open spec fn outcome_matches(r: Result<String, ParserError>, sr: Result<
    Seq<char>,
    ErrorView,
>) -> bool {
    match r {
        Ok(s) => sr == Ok::<Seq<char>, ErrorView>(s@),
        Err(e) => sr == Err::<Seq<char>, ErrorView>(e@),
    }
}

/// Does the exec step result match the spec transition: on `Ok` the new state
/// is the transition's, on `Err` the error matches and the state stood still?
pub open spec fn step_matches(
    r: Result<(), ParserError>,
    pre: StateView,
    post: StateView,
    sr: Result<StateView, ErrorView>,
) -> bool {
    match sr {
        Ok(s2) => r is Ok && post == s2,
        Err(e) => r is Err && r->Err_0@ == e && post == pre,
    }
}

/// The entity names a stream declares, in document order: each close of an
/// `EntityType` emits the name recorded by the innermost open before it
/// (`current`, reset once used, as the machine resets it).
pub open spec fn declared_names(items: Seq<ItemView>, current: Seq<char>) -> Seq<Seq<char>>
    decreases items.len(),
{
    if items.len() == 0 {
        Seq::empty()
    } else {
        match items[0] {
            Ok(EventView::Open { tag: Tag::EntityType, attributes }) => match lookup(
                attributes,
                "Name"@,
            ) {
                Some(n) => declared_names(items.drop_first(), n),
                None => Seq::empty(),
            },
            Ok(EventView::Close { tag: Tag::EntityType }) => seq![current] + declared_names(
                items.drop_first(),
                Seq::empty(),
            ),
            _ => declared_names(items.drop_first(), current),
        }
    }
}

/// The induction behind `lemma_entity_names`, from any starting accumulator.
proof fn lemma_entity_names_from(s: StateView, items: Seq<ItemView>)
    requires
        run_from(s, items).1 is Ok,
    ensures
        run_from(s, items).1 == Ok::<Seq<char>, ErrorView>(
            render_doc(run_from(s, items).0.finished),
        ),
        run_from(s, items).0.finished.map_values(|e: EntityView| e.name) == s.finished.map_values(
            |e: EntityView| e.name,
        ) + declared_names(items, s.entity_name),
    decreases items.len(),
{
    let names = |e: EntityView| e.name;
    if items.len() == 0 {
        assert(s.finished.map_values(names) + declared_names(items, s.entity_name)
            =~= s.finished.map_values(names));
    } else {
        let ev = items[0]->Ok_0;
        let s2 = step_view(s, ev)->Ok_0;
        lemma_entity_names_from(s2, items.drop_first());
        match ev {
            EventView::Open { tag, attributes } => {
                match tag {
                    Tag::EntityType => {
                        assert(s2.finished == s.finished);
                        assert(s.finished.map_values(names) + declared_names(items, s.entity_name)
                            =~= s.finished.map_values(names) + declared_names(
                            items.drop_first(),
                            s2.entity_name,
                        ));
                    },
                    _ => {
                        assert(s2.finished == s.finished && s2.entity_name == s.entity_name);
                    },
                }
            },
            EventView::Close { tag } => {
                match tag {
                    Tag::EntityType => {
                        let e = EntityView {
                            name: s.entity_name,
                            fields: mark_keys(s.fields, s.keys),
                        };
                        assert(s2.finished == s.finished.push(e));
                        assert(s2.entity_name =~= Seq::<char>::empty());
                        assert(s2.finished.map_values(names) =~= s.finished.map_values(names).push(
                            s.entity_name,
                        ));
                        assert(s.finished.map_values(names).push(s.entity_name) + declared_names(
                            items.drop_first(),
                            Seq::empty(),
                        ) =~= s.finished.map_values(names) + (seq![s.entity_name] + declared_names(
                            items.drop_first(),
                            Seq::empty(),
                        )));
                    },
                    _ => {
                        assert(s2.finished == s.finished && s2.entity_name == s.entity_name);
                    },
                }
            },
        }
    }
}

/// For every stream that parses successfully, the parse's text is exactly the
/// rendered document of the finished entities, and those entities' names —
/// one `entity <Name> {` block each — are exactly the `EntityType` names the
/// stream declares, in document order.
pub proof fn lemma_entity_names(items: Seq<ItemView>)
    requires
        parse_outcome(items) is Ok,
    ensures
        parse_outcome(items) == Ok::<Seq<char>, ErrorView>(
            render_doc(run_from(init_view(), items).0.finished),
        ),
        run_from(init_view(), items).0.finished.map_values(|e: EntityView| e.name)
            == declared_names(items, Seq::empty()),
{
    lemma_entity_names_from(init_view(), items);
    let names = |e: EntityView| e.name;
    assert(init_view().finished.map_values(names) + declared_names(items, Seq::empty())
        =~= declared_names(items, Seq::empty()));
}

/// Rendering is deterministic: the document text is a function of the
/// finished entities alone, so composing the same model twice — from the same
/// parser or from two parsers that agree — yields identical text.
pub proof fn lemma_compose_deterministic(p1: &Parser, p2: &Parser, r1: String, r2: String)
    requires
        p1@.finished == p2@.finished,
        call_ensures(Parser::compose_cds_string, (p1,), r1),
        call_ensures(Parser::compose_cds_string, (p2,), r2),
    ensures
        r1@ == r2@,
{
}

/// The parser: the accumulator of one parse. Create one per document, feed
/// it the document's tag events, and read off the CDS text.
pub struct Parser {
    finished_entities: Vec<Entity>,
    entity_name: String,
    fields: Vec<Field>,
    keys: Vec<String>,
    field_name: String,
    field_type: String,
    associated_target: String,
    field_attributes: Attributes,
    schema_name: String,
}

impl View for Parser {
    type V = StateView;

    closed spec fn view(&self) -> StateView {
        StateView {
            finished: self.finished_entities@.map_values(|e: Entity| e@),
            entity_name: self.entity_name@,
            fields: self.fields@.map_values(|f: Field| f@),
            keys: self.keys@.map_values(|k: String| k@),
            field_name: self.field_name@,
            field_type: self.field_type@,
            associated_target: self.associated_target@,
            field_attributes: self.field_attributes@,
            schema_name: self.schema_name@,
        }
    }
}

/// Is there a field of this name?
fn contains_field(fields: &Vec<Field>, name: &String) -> (r: bool)
    ensures
        r == has_field(fields@.map_values(|f: Field| f@), name@),
{
    let ghost fvs = fields@.map_values(|f: Field| f@);
    let n: usize = fields.len();
    let mut j: usize = 0;
    while j < n
        invariant
            j <= n,
            n == fields.len(),
            fvs == fields@.map_values(|f: Field| f@),
            forall|k: int| 0 <= k < j ==> #[trigger] fvs[k].name != name@,
        decreases n - j,
    {
        if crate::text::eq_str(fields[j].name().as_str(), name.as_str()) {
            assert(fvs[j as int].name == name@);
            return true;
        }
        j = j + 1;
    }
    assert(!has_field(fvs, name@));
    false
}

/// Is this name among the pending key names?
fn contains_name(keys: &Vec<String>, name: &String) -> (r: bool)
    ensures
        r == keys@.map_values(|k: String| k@).contains(name@),
{
    let ghost kvs = keys@.map_values(|k: String| k@);
    let n: usize = keys.len();
    let mut j: usize = 0;
    while j < n
        invariant
            j <= n,
            n == keys.len(),
            kvs == keys@.map_values(|k: String| k@),
            forall|k: int| 0 <= k < j ==> #[trigger] kvs[k] != name@,
        decreases n - j,
    {
        if crate::text::eq_str(keys[j].as_str(), name.as_str()) {
            assert(kvs[j as int] == name@);
            return true;
        }
        j = j + 1;
    }
    assert(!kvs.contains(name@));
    false
}

/// Inserts `field` under its name: overwrites in place the first field of
/// that name, else appends.
fn insert_field_exec(fields: &mut Vec<Field>, field: Field)
    ensures
        final(fields)@.map_values(|f: Field| f@) == insert_field(
            old(fields)@.map_values(|f: Field| f@),
            field@,
        ),
{
    let ghost fvs = old(fields)@.map_values(|f: Field| f@);
    let ghost fv = field@;
    let n: usize = fields.len();
    let mut j: usize = 0;
    while j < n
        invariant
            j <= n,
            n == fields.len(),
            fields@ == old(fields)@,
            fvs == fields@.map_values(|f: Field| f@),
            fv == field@,
            forall|k: int| 0 <= k < j ==> #[trigger] fvs[k].name != fv.name,
        decreases n - j,
    {
        assert(fvs[j as int] == fields@[j as int]@);
        let current = &fields[j];
        assert(current@ == fvs[j as int]);
        let matched = crate::text::eq_str(current.name().as_str(), field.name().as_str());
        assert(matched == (fvs[j as int].name == fv.name));
        if matched {
            proof {
                crate::cds::lemma_field_index_at(fvs, fv.name, j as int);
            }
            fields.set(j, field);
            assert(fields@.map_values(|f: Field| f@) =~= fvs.update(j as int, fv));
            return ;
        }
        j = j + 1;
    }
    assert(!has_field(fvs, fv.name));
    fields.push(field);
    assert(fields@.map_values(|f: Field| f@) =~= fvs.push(fv));
}

/// Pinpoints `first_unresolved` at position `i` of the key list: with every
/// earlier key resolved, a miss at `i` is the first, and no miss means none.
proof fn lemma_first_unresolved_at(keys: Seq<Seq<char>>, fs: Seq<FieldView>, i: int)
    requires
        0 <= i <= keys.len(),
        forall|k: int| 0 <= k < i ==> has_field(fs, #[trigger] keys[k]),
    ensures
        i < keys.len() && !has_field(fs, keys[i]) ==> first_unresolved(keys, fs) == Some(keys[i]),
        i == keys.len() ==> first_unresolved(keys, fs) is None,
    decreases i,
{
    if i == 0 {
    } else {
        assert(has_field(fs, keys[0]));
        lemma_first_unresolved_at(keys.drop_first(), fs, i - 1);
        assert(keys.drop_first().len() == keys.len() - 1);
        if i < keys.len() {
            assert(keys.drop_first()[i - 1] == keys[i]);
        }
    }
}

impl Parser {
    /// A fresh parser: every part of the accumulator empty.
    pub fn new() -> (r: Parser)
        ensures
            r@ == init_view(),
    {
        let r = Parser {
            finished_entities: Vec::new(),
            entity_name: String::new(),
            fields: Vec::new(),
            keys: Vec::new(),
            field_name: String::new(),
            field_type: String::new(),
            associated_target: String::new(),
            field_attributes: Attributes::new(),
            schema_name: String::new(),
        };
        assert(r@ =~= init_view());
        r
    }

    /// Open Schema: record the `Namespace` attribute as the schema name.
    pub fn on_schema_start(&mut self, attributes: &Attributes) -> (r: Result<(), ParserError>)
        ensures
            step_matches(r, old(self)@, final(self)@, schema_open(old(self)@, attributes@)),
    {
        match get_attribute(attributes, "Namespace") {
            Some(v) => {
                self.schema_name = v;
                assert(self@ =~= schema_open(old(self)@, attributes@)->Ok_0);
                Ok(())
            },
            None => Err(
                ParserError {
                    kind: ErrorKind::MissingAttribute {
                        tag: Tag::Schema,
                        attribute: String::from_str("Namespace"),
                    },
                },
            ),
        }
    }

    /// Open EntityType: record the `Name` attribute, reset per-entity scratch.
    pub fn on_entity_start(&mut self, attributes: &Attributes) -> (r: Result<(), ParserError>)
        ensures
            step_matches(r, old(self)@, final(self)@, entity_open(old(self)@, attributes@)),
    {
        match get_attribute(attributes, "Name") {
            Some(v) => {
                self.entity_name = v;
                self.fields.clear();
                self.keys.clear();
                assert(self@ =~= entity_open(old(self)@, attributes@)->Ok_0);
                Ok(())
            },
            None => Err(
                ParserError {
                    kind: ErrorKind::MissingAttribute {
                        tag: Tag::EntityType,
                        attribute: String::from_str("Name"),
                    },
                },
            ),
        }
    }

    /// Open Property: record `Name` and `Type`, snapshot the attribute set.
    pub fn on_property_start(&mut self, attributes: &Attributes) -> (r: Result<(), ParserError>)
        ensures
            step_matches(r, old(self)@, final(self)@, property_open(old(self)@, attributes@)),
    {
        let name = match get_attribute(attributes, "Name") {
            Some(v) => v,
            None => {
                return Err(
                    ParserError {
                        kind: ErrorKind::MissingAttribute {
                            tag: Tag::Property,
                            attribute: String::from_str("Name"),
                        },
                    },
                );
            },
        };
        let ty = match get_attribute(attributes, "Type") {
            Some(v) => v,
            None => {
                return Err(
                    ParserError {
                        kind: ErrorKind::MissingAttribute {
                            tag: Tag::Property,
                            attribute: String::from_str("Type"),
                        },
                    },
                );
            },
        };
        self.field_name = name;
        self.field_type = ty;
        self.field_attributes = attributes.clone();
        assert(self@ =~= property_open(old(self)@, attributes@)->Ok_0);
        Ok(())
    }

    /// Open NavigationProperty: record `Name`; the target is `Type`, with
    /// `ToRole` as the fallback, normalized against the current schema name.
    /// A target that normalizes to nothing is rejected.
    pub fn on_navigation_property_start(&mut self, attributes: &Attributes) -> (r: Result<
        (),
        ParserError,
    >)
        ensures
            step_matches(r, old(self)@, final(self)@, nav_open(old(self)@, attributes@)),
    {
        let name = match get_attribute(attributes, "Name") {
            Some(v) => v,
            None => {
                return Err(
                    ParserError {
                        kind: ErrorKind::MissingAttribute {
                            tag: Tag::NavigationProperty,
                            attribute: String::from_str("Name"),
                        },
                    },
                );
            },
        };
        let target = match get_attribute(attributes, "Type") {
            Some(v) => Some(v),
            None => get_attribute(attributes, "ToRole"),
        };
        let target = match target {
            Some(v) => v,
            None => {
                return Err(
                    ParserError {
                        kind: ErrorKind::MissingAttribute {
                            tag: Tag::NavigationProperty,
                            attribute: String::from_str("Type"),
                        },
                    },
                );
            },
        };
        let stripped: String = if self.schema_name.as_str().unicode_len() > 0 {
            let mut pat = self.schema_name.clone();
            pat.append(".");
            proof {
                reveal_strlit(".");
            }
            remove_all(target.as_str(), pat.as_str())
        } else {
            target
        };
        proof {
            reveal_strlit("Collection(");
            reveal_strlit(")");
        }
        let no_collection = remove_all(stripped.as_str(), "Collection(");
        let normalized = remove_all(no_collection.as_str(), ")");
        if normalized.as_str().unicode_len() == 0 {
            return Err(ParserError { kind: ErrorKind::UnresolvedKey { name } });
        }
        self.field_name = name;
        self.associated_target = normalized;
        assert(self@ =~= nav_open(old(self)@, attributes@)->Ok_0);
        Ok(())
    }

    /// Open PropertyRef: append the `Name` attribute to the pending keys.
    pub fn on_property_ref(&mut self, attributes: &Attributes) -> (r: Result<(), ParserError>)
        ensures
            step_matches(r, old(self)@, final(self)@, propertyref_open(old(self)@, attributes@)),
    {
        match get_attribute(attributes, "Name") {
            Some(v) => {
                self.keys.push(v);
                assert(self@.keys =~= old(self)@.keys.push(v@)) by {
                    assert(self.keys@.map_values(|k: String| k@) =~= old(
                        self,
                    ).keys@.map_values(|k: String| k@).push(v@));
                }
                assert(self@ =~= propertyref_open(old(self)@, attributes@)->Ok_0);
                Ok(())
            },
            None => Err(
                ParserError {
                    kind: ErrorKind::MissingAttribute {
                        tag: Tag::PropertyRef,
                        attribute: String::from_str("Name"),
                    },
                },
            ),
        }
    }

    /// Close Property: resolve the type, insert the field, clear the scratch.
    pub fn on_property_close(&mut self) -> (r: Result<(), ParserError>)
        ensures
            step_matches(r, old(self)@, final(self)@, property_close(old(self)@)),
    {
        let field = match Field::from_odata(
            self.field_name.as_str(),
            self.field_type.as_str(),
            &self.field_attributes,
        ) {
            Ok(f) => f,
            Err(e) => {
                return Err(e);
            },
        };
        insert_field_exec(&mut self.fields, field);
        self.field_name = String::new();
        self.field_type = String::new();
        self.field_attributes = Attributes::new();
        assert(self@ =~= property_close(old(self)@)->Ok_0);
        Ok(())
    }

    /// Close NavigationProperty: insert the association field, clear scratch.
    pub fn on_navigation_property_close(&mut self)
        ensures
            final(self)@ == nav_close(old(self)@),
    {
        let field = Field::new_association(
            self.field_name.as_str(),
            self.associated_target.as_str(),
        );
        insert_field_exec(&mut self.fields, field);
        self.field_name = String::new();
        self.associated_target = String::new();
        assert(self@ =~= nav_close(old(self)@));
    }

    /// Close EntityType: check every pending key resolves, mark those fields,
    /// append the finished entity, and clear the per-entity scratch.
    pub fn on_entity_close(&mut self) -> (r: Result<(), ParserError>)
        ensures
            step_matches(r, old(self)@, final(self)@, entity_close(old(self)@)),
    {
        let ghost fvs = self@.fields;
        let ghost kvs = self@.keys;
        let nk: usize = self.keys.len();
        let mut i: usize = 0;
        while i < nk
            invariant
                i <= nk,
                nk == self.keys.len(),
                *self == *old(self),
                fvs == self@.fields,
                kvs == self@.keys,
                forall|k: int| 0 <= k < i ==> has_field(fvs, #[trigger] kvs[k]),
            decreases nk - i,
        {
            if !contains_field(&self.fields, &self.keys[i]) {
                proof {
                    lemma_first_unresolved_at(kvs, fvs, i as int);
                }
                return Err(
                    ParserError {
                        kind: ErrorKind::UnresolvedKey { name: self.keys[i].clone() },
                    },
                );
            }
            i = i + 1;
        }
        proof {
            lemma_first_unresolved_at(kvs, fvs, nk as int);
        }
        // every key resolves: mark the key fields in place
        let nf: usize = self.fields.len();
        let mut j: usize = 0;
        while j < nf
            invariant
                j <= nf,
                nf == self.fields.len(),
                kvs == self@.keys,
                self.finished_entities == old(self).finished_entities,
                self.entity_name == old(self).entity_name,
                self.keys == old(self).keys,
                self.field_name == old(self).field_name,
                self.field_type == old(self).field_type,
                self.associated_target == old(self).associated_target,
                self.field_attributes == old(self).field_attributes,
                self.schema_name == old(self).schema_name,
                fvs.len() == nf,
                fvs == old(self)@.fields,
                forall|k: int| j <= k < nf ==> #[trigger] self.fields@[k]@ == fvs[k],
                forall|k: int| 0 <= k < j ==> #[trigger] self.fields@[k]@ == (if kvs.contains(
                    fvs[k].name,
                ) {
                    FieldView { is_key: true, ..fvs[k] }
                } else {
                    fvs[k]
                }),
            decreases nf - j,
        {
            let marked = contains_name(&self.keys, self.fields[j].name());
            if marked {
                let mut f = self.fields[j].clone();
                f.set_as_key();
                self.fields[j] = f;
            }
            j = j + 1;
        }
        assert(self.fields@.map_values(|f: Field| f@) =~= mark_keys(fvs, kvs));
        let entity = Entity::new(self.entity_name.as_str(), &self.fields);
        assert(entity@ =~= (EntityView { name: old(self)@.entity_name, fields: mark_keys(fvs, kvs) }));
        self.finished_entities.push(entity);
        self.keys.clear();
        self.entity_name = String::new();
        self.fields.clear();
        assert(self@.finished =~= old(self)@.finished.push(
            EntityView { name: old(self)@.entity_name, fields: mark_keys(fvs, kvs) },
        )) by {
            assert(self.finished_entities@.map_values(|e: Entity| e@) =~= old(
                self,
            ).finished_entities@.map_values(|e: Entity| e@).push(entity@));
        }
        assert(self@ =~= entity_close(old(self)@)->Ok_0);
        Ok(())
    }

    /// The rendered document for the entities finished so far.
    pub fn compose_cds_string(&self) -> (r: String)
        ensures
            r@ == render_doc(self@.finished),
    {
        let ghost evs = self@.finished;
        let mut out = String::new();
        let n: usize = self.finished_entities.len();
        let mut i: usize = 0;
        assert(evs.take(0) =~= Seq::<EntityView>::empty());
        while i < n
            invariant
                i <= n,
                n == self.finished_entities.len(),
                evs == self@.finished,
                evs.len() == n,
                forall|k: int| 0 <= k < n ==> evs[k] == #[trigger] self.finished_entities@[k]@,
                out@ == render_doc(evs.take(i as int)),
            decreases n - i,
        {
            let block = self.finished_entities[i].to_cds();
            out.append(block.as_str());
            proof {
                assert(evs.take(i + 1) =~= evs.take(i as int) + seq![evs[i as int]]);
                lemma_render_doc_concat(evs.take(i as int), seq![evs[i as int]]);
                assert(seq![evs[i as int]].drop_first() =~= Seq::<EntityView>::empty());
                assert(render_doc(seq![evs[i as int]]) == crate::cds::render_entity(evs[i as int])
                    + render_doc(Seq::<EntityView>::empty()));
                assert(crate::cds::render_entity(evs[i as int]) + Seq::<char>::empty() =~= crate::cds::render_entity(
                    evs[i as int],
                ));
                assert(out@ =~= render_doc(evs.take(i + 1)));
            }
            i = i + 1;
        }
        assert(evs.take(n as int) =~= evs);
        out
    }

    /// Folds the whole event stream into this parser and renders the result.
    ///
    /// The result and the final accumulator are exactly `run_from` of the
    /// stream: the rendered document when every transition succeeds, else the
    /// first error — from the source or from a transition — with the
    /// accumulator left at the failing step.
    pub fn parse(&mut self, events: &Vec<Result<TagEvent, TagError>>) -> (r: Result<
        String,
        ParserError,
    >)
        ensures
            final(self)@ == run_from(old(self)@, items_view(events@)).0,
            outcome_matches(r, run_from(old(self)@, items_view(events@)).1),
    {
        let ghost items = items_view(events@);
        let n: usize = events.len();
        let mut i: usize = 0;
        assert(items.skip(0) =~= items);
        while i < n
            invariant
                i <= n,
                n == events.len(),
                items == items_view(events@),
                items.len() == n,
                run_from(old(self)@, items) == run_from(self@, items.skip(i as int)),
            decreases n - i,
        {
            proof {
                assert(items.skip(i as int)[0] == items[i as int]);
                assert(items.skip(i as int).drop_first() =~= items.skip(i + 1));
                assert(items[i as int] == item_view(events@[i as int]));
            }
            let item = &events[i];
            match item {
                Err(e) => {
                    let message = e.message();
                    return Err(ParserError::from_source(message.as_str()));
                },
                Ok(event) => {
                    let step: Result<(), ParserError> = match event {
                        TagEvent::Open { tag, attributes } => match tag {
                            Tag::Schema => self.on_schema_start(attributes),
                            Tag::EntityType => self.on_entity_start(attributes),
                            Tag::Property => self.on_property_start(attributes),
                            Tag::NavigationProperty => self.on_navigation_property_start(
                                attributes,
                            ),
                            Tag::PropertyRef => self.on_property_ref(attributes),
                            Tag::Unknown => Ok(()),
                        },
                        TagEvent::Close { tag } => match tag {
                            Tag::EntityType => self.on_entity_close(),
                            Tag::Property => self.on_property_close(),
                            Tag::NavigationProperty => {
                                self.on_navigation_property_close();
                                Ok(())
                            },
                            _ => Ok(()),
                        },
                    };
                    match step {
                        Err(e) => {
                            return Err(e);
                        },
                        Ok(_) => {},
                    }
                },
            }
            i = i + 1;
        }
        assert(items.skip(n as int) =~= Seq::<ItemView>::empty());
        Ok(self.compose_cds_string())
    }
}

} // verus!
