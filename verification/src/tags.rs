//! Tag events: the interface between a concrete markup reader and the parser.
//!
//! A tag source yields a finite stream of `Open`/`Close` events for the CSDL
//! elements the parser knows about; anything else is surfaced as `Unknown`
//! and ignored downstream. Attributes travel with each `Open` event as an
//! ordered list of name/value pairs looked up by exact name.

use vstd::prelude::*;

verus! {

/// The recognized CSDL element kinds.
#[derive(Clone, Copy, PartialEq, Eq, Structural, Debug)]
pub enum Tag {
    Schema,
    EntityType,
    Property,
    NavigationProperty,
    PropertyRef,
    Unknown,
}

/// Mathematical model of an attribute set: name/value pairs in order.
pub type AttrsView = Seq<(Seq<char>, Seq<char>)>;

/// Value of `name` in `attrs`. The last pair with that exact name wins, as
/// in a map built by inserting the pairs in order.
pub open spec fn lookup(attrs: AttrsView, name: Seq<char>) -> Option<Seq<char>>
    decreases attrs.len(),
{
    if attrs.len() == 0 {
        None
    } else if attrs.last().0 == name {
        Some(attrs.last().1)
    } else {
        lookup(attrs.drop_last(), name)
    }
}

/// Does the exec option hold exactly the string that the spec option holds?
pub open spec fn opt_str_matches(r: Option<String>, s: Option<Seq<char>>) -> bool {
    match r {
        Some(v) => s == Some(v@),
        None => s is None,
    }
}

/// One element's attribute set. Names are unique in well-formed markup; if a
/// name repeats, the last occurrence wins on lookup, as it would in a map
/// the pairs are inserted into one after the other.
pub struct Attributes {
    entries: Vec<(String, String)>,
}

impl View for Attributes {
    type V = AttrsView;

    closed spec fn view(&self) -> AttrsView {
        self.entries@.map_values(|p: (String, String)| (p.0@, p.1@))
    }
}

impl Attributes {
    /// An empty attribute set.
    pub fn new() -> (r: Attributes)
        ensures
            r@ =~= Seq::<(Seq<char>, Seq<char>)>::empty(),
    {
        Attributes { entries: Vec::new() }
    }

    /// Appends one name/value pair.
    pub fn add(&mut self, name: &str, value: &str)
        ensures
            final(self)@ =~= old(self)@.push((name@, value@)),
    {
        self.entries.push((name.to_owned(), value.to_owned()));
    }

    /// Wraps a plain list of pairs, keeping their order.
    pub fn from_pairs(pairs: Vec<(String, String)>) -> (r: Attributes)
        ensures
            r@ =~= pairs@.map_values(|p: (String, String)| (p.0@, p.1@)),
    {
        Attributes { entries: pairs }
    }

    /// Looks the attribute up by exact, case-sensitive name, scanning from
    /// the back so that the last pair of that name wins.
    pub fn get(&self, name: &str) -> (r: Option<String>)
        ensures
            opt_str_matches(r, lookup(self@, name@)),
    {
        let mut i: usize = self.entries.len();
        assert(self@.take(i as int) =~= self@);
        while i > 0
            invariant
                i <= self.entries.len(),
                lookup(self@, name@) == lookup(self@.take(i as int), name@),
            decreases i,
        {
            i = i - 1;
            assert(self@.take(i + 1).last() == self@[i as int]);
            assert(self@.take(i + 1).drop_last() =~= self@.take(i as int));
            let pair = &self.entries[i];
            if pair.0 == name.to_owned() {
                return Some(pair.1.clone());
            }
        }
        assert(self@.take(0) =~= Seq::<(Seq<char>, Seq<char>)>::empty());
        None
    }
}

impl Clone for Attributes {
    fn clone(&self) -> (r: Self)
        ensures
            r@ == self@,
    {
        let mut entries: Vec<(String, String)> = Vec::new();
        let n: usize = self.entries.len();
        let mut i: usize = 0;
        while i < n
            invariant
                i <= n,
                n == self.entries.len(),
                entries@.map_values(|p: (String, String)| (p.0@, p.1@)) =~= self@.take(i as int),
            decreases n - i,
        {
            let pair = &self.entries[i];
            let name = pair.0.clone();
            let value = pair.1.clone();
            assert(name@ == self@[i as int].0 && value@ == self@[i as int].1);
            entries.push((name, value));
            assert(self@.take(i + 1) =~= self@.take(i as int).push(self@[i as int]));
            assert(entries@.map_values(|p: (String, String)| (p.0@, p.1@)) =~= self@.take(i + 1));
            i = i + 1;
        }
        assert(self@.take(n as int) =~= self@);
        let r = Attributes { entries };
        assert(r@ =~= self@);
        r
    }
}

/// Looks `name` up in `attributes`, cloning the value when present.
pub fn get_attribute(attributes: &Attributes, name: &str) -> (r: Option<String>)
    ensures
        opt_str_matches(r, lookup(attributes@, name@)),
{
    attributes.get(name)
}

/// One event of the tag stream.
pub enum TagEvent {
    Open { tag: Tag, attributes: Attributes },
    Close { tag: Tag },
}

/// Model of a tag event.
#[verifier::ext_equal]
pub enum EventView {
    Open { tag: Tag, attributes: AttrsView },
    Close { tag: Tag },
}

impl View for TagEvent {
    type V = EventView;

    open spec fn view(&self) -> EventView {
        match self {
            TagEvent::Open { tag, attributes } => EventView::Open { tag: *tag, attributes: attributes@ },
            TagEvent::Close { tag } => EventView::Close { tag: *tag },
        }
    }
}

/// A failure of the underlying markup reader, carried as its message.
pub struct TagError {
    message: String,
}

impl View for TagError {
    type V = Seq<char>;

    closed spec fn view(&self) -> Seq<char> {
        self.message@
    }
}

impl TagError {
    pub fn new(message: &str) -> (r: TagError)
        ensures
            r@ == message@,
    {
        TagError { message: message.to_owned() }
    }

    /// The reader's failure message.
    pub fn message(&self) -> (r: String)
        ensures
            r@ == self@,
    {
        self.message.clone()
    }
}

/// Model of one item of a tag stream: an event, or the source's failure.
pub type ItemView = Result<EventView, Seq<char>>;

pub open spec fn item_view(r: Result<TagEvent, TagError>) -> ItemView {
    match r {
        Ok(e) => Ok(e@),
        Err(t) => Err(t@),
    }
}

pub open spec fn items_view(s: Seq<Result<TagEvent, TagError>>) -> Seq<ItemView> {
    s.map_values(|r: Result<TagEvent, TagError>| item_view(r))
}

/// Does the exec item option hold exactly what the spec option holds?
pub open spec fn opt_item_matches(
    r: Option<Result<TagEvent, TagError>>,
    s: Option<ItemView>,
) -> bool {
    match r {
        Some(item) => s == Some(item_view(item)),
        None => s is None,
    }
}

/// A source of tag events: a finite, single-pass stream. `next_event` hands
/// out the next event, a source failure, or `None` once exhausted.
pub trait TagParser {
    fn next_event(&mut self) -> Option<Result<TagEvent, TagError>>;
}

/// A tag source over an in-memory list of items, handed out front to back.
pub struct VecTagParser {
    events: Vec<Result<TagEvent, TagError>>,
}

impl View for VecTagParser {
    type V = Seq<ItemView>;

    closed spec fn view(&self) -> Seq<ItemView> {
        items_view(self.events@)
    }
}

impl VecTagParser {
    pub fn new(events: Vec<Result<TagEvent, TagError>>) -> (r: VecTagParser)
        ensures
            r@ =~= items_view(events@),
    {
        VecTagParser { events }
    }

    /// Removes and hands out the front item; `None` once the list is empty.
    pub fn take_next(&mut self) -> (r: Option<Result<TagEvent, TagError>>)
        ensures
            old(self)@.len() == 0 ==> r is None && final(self)@ == old(self)@,
            old(self)@.len() > 0 ==> opt_item_matches(r, Some(old(self)@[0])) && final(self)@
                == old(self)@.drop_first(),
    {
        if self.events.len() > 0 {
            let item = self.events.remove(0);
            assert(old(self)@[0] == item_view(old(self).events@[0]));
            assert(items_view(self.events@) =~= items_view(old(self).events@).drop_first());
            Some(item)
        } else {
            None
        }
    }
}

impl TagParser for VecTagParser {
    /// One item off the front of the list, through `take_next`.
    fn next_event(&mut self) -> Option<Result<TagEvent, TagError>> {
        self.take_next()
    }
}

} // verus!
