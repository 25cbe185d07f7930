//! The generic structured-document tree that test files are made of.
//!
//! A [`Document`] is an ordered list of named fields in which no name occurs
//! twice; a [`Value`] is a scalar, a list of values, or a document.

use crate::text::same_text;
use vstd::prelude::*;

verus! {

/// A node of a structured document.
#[derive(Debug, PartialEq)]
pub enum Value {
    Null,
    Bool(bool),
    Int(i64),
    /// A binary64 number, held as its bit pattern.
    Double(u64),
    Str(String),
    Array(Vec<Value>),
    Doc(Document),
}

/// An ordered mapping from field names to values.
#[derive(Debug, PartialEq)]
pub struct Document {
    entries: Vec<(String, Value)>,
}

/// The mathematical value of a [`Value`].
pub enum ValueView {
    Null,
    Bool(bool),
    Int(i64),
    Double(u64),
    Str(Seq<char>),
    Array(Seq<ValueView>),
    Doc(Seq<(Seq<char>, ValueView)>),
}

/// The mathematical value of a [`Document`]: its fields in order.
pub type DocView = Seq<(Seq<char>, ValueView)>;

/// The position of the first field named `key`, or the number of fields if
/// there is none.
pub open spec fn position(doc: DocView, key: Seq<char>) -> int
    decreases doc.len(),
{
    if doc.len() == 0 {
        0
    } else if doc[0].0 == key {
        0
    } else {
        1 + position(doc.drop_first(), key)
    }
}

/// Whether a field named `key` exists.
pub open spec fn has_key(doc: DocView, key: Seq<char>) -> bool {
    position(doc, key) < doc.len()
}

/// The value of the field named `key`.
pub open spec fn lookup(doc: DocView, key: Seq<char>) -> Option<ValueView> {
    if has_key(doc, key) {
        Some(doc[position(doc, key)].1)
    } else {
        None
    }
}

/// The document after `key` was set to `value`: an existing field keeps its
/// place and takes the new value, a new field goes to the end.
pub open spec fn with_field(doc: DocView, key: Seq<char>, value: ValueView) -> DocView {
    if has_key(doc, key) {
        doc.update(position(doc, key), (key, value))
    } else {
        doc.push((key, value))
    }
}

/// No field name occurs twice.
pub open spec fn distinct_keys(doc: DocView) -> bool {
    forall|i: int, j: int|
        0 <= i < j < doc.len() ==> (#[trigger] doc[i]).0 != (#[trigger] doc[j]).0
}

/// The text of a field, where the field exists and holds a string.
pub open spec fn lookup_str(doc: DocView, key: Seq<char>) -> Option<Seq<char>> {
    match lookup(doc, key) {
        Some(ValueView::Str(s)) => Some(s),
        _ => None,
    }
}

/// The document of a field, where the field exists and holds a document.
pub open spec fn lookup_doc(doc: DocView, key: Seq<char>) -> Option<DocView> {
    match lookup(doc, key) {
        Some(ValueView::Doc(d)) => Some(d),
        _ => None,
    }
}

/// The number of nodes of a tree.
pub open spec fn value_size(v: ValueView) -> nat
    decreases v,
{
    match v {
        ValueView::Array(items) => 1 + items_size(items, items.len()),
        ValueView::Doc(fields) => 1 + fields_size(fields, fields.len()),
        _ => 1,
    }
}

/// The number of nodes of the first `n` items of a list.
pub open spec fn items_size(items: Seq<ValueView>, n: nat) -> nat
    decreases items, n,
{
    if n == 0 || n > items.len() {
        0
    } else {
        items_size(items, (n - 1) as nat) + value_size(items[n - 1])
    }
}

/// The number of nodes of the values of the first `n` fields.
pub open spec fn fields_size(fields: DocView, n: nat) -> nat
    decreases fields, n,
{
    if n == 0 || n > fields.len() {
        0
    } else {
        fields_size(fields, (n - 1) as nat) + value_size(fields[n - 1].1)
    }
}

/// The number of nodes below a document.
pub open spec fn doc_size(doc: DocView) -> nat {
    fields_size(doc, doc.len())
}

/// The value of a field is smaller than the document that holds it.
pub proof fn lemma_field_size(fields: DocView, n: nat, i: int)
    requires
        0 <= i < n <= fields.len(),
    ensures
        value_size(fields[i].1) <= fields_size(fields, n),
    decreases n,
{
    if i < n - 1 {
        lemma_field_size(fields, (n - 1) as nat, i);
    }
}

/// What a lookup finds is smaller than the document.
pub proof fn lemma_lookup_size(doc: DocView, key: Seq<char>)
    ensures
        lookup(doc, key) matches Some(v) ==> value_size(v) <= doc_size(doc),
{
    lemma_position(doc, key);
    if has_key(doc, key) {
        lemma_field_size(doc, doc.len(), position(doc, key));
    }
}

/// What `position` finds: where it stops, the key stands; before, it does not.
pub proof fn lemma_position(doc: DocView, key: Seq<char>)
    ensures
        0 <= position(doc, key) <= doc.len(),
        position(doc, key) < doc.len() ==> doc[position(doc, key)].0 == key,
        forall|i: int| 0 <= i < position(doc, key) ==> (#[trigger] doc[i]).0 != key,
    decreases doc.len(),
{
    if doc.len() > 0 && doc[0].0 != key {
        let rest = doc.drop_first();
        lemma_position(rest, key);
        assert forall|i: int| 0 <= i < position(doc, key) implies (#[trigger] doc[i]).0 != key by {
            if i > 0 {
                assert(doc[i] == rest[i - 1]);
            }
        }
    }
}

/// The first index at which the key stands is its position.
pub proof fn lemma_position_is(doc: DocView, key: Seq<char>, at: int)
    requires
        0 <= at <= doc.len(),
        at < doc.len() ==> doc[at].0 == key,
        forall|i: int| 0 <= i < at ==> (#[trigger] doc[i]).0 != key,
    ensures
        position(doc, key) == at,
    decreases doc.len(),
{
    if doc.len() > 0 && at > 0 {
        let rest = doc.drop_first();
        assert forall|i: int| 0 <= i < at - 1 implies (#[trigger] rest[i]).0 != key by {}
        lemma_position_is(rest, key, at - 1);
    }
}

/// Setting a field keeps the names distinct, and the field then holds the value.
pub proof fn lemma_with_field(doc: DocView, key: Seq<char>, value: ValueView)
    ensures
        distinct_keys(doc) ==> distinct_keys(with_field(doc, key, value)),
        lookup(with_field(doc, key, value), key) == Some(value),
{
    lemma_position(doc, key);
    let after = with_field(doc, key, value);
    let at = position(doc, key);
    assert forall|i: int| 0 <= i < at implies (#[trigger] after[i]).0 != key by {}
    lemma_position_is(after, key, at);
    if distinct_keys(doc) {
        assert forall|i: int, j: int| 0 <= i < j < after.len() implies (#[trigger] after[i]).0 != (
        #[trigger] after[j]).0 by {}
    }
}

/// Setting a field leaves the fields of other names as they were.
pub proof fn lemma_with_field_other(
    doc: DocView,
    key: Seq<char>,
    value: ValueView,
    other: Seq<char>,
)
    requires
        other != key,
    ensures
        lookup(with_field(doc, key, value), other) == lookup(doc, other),
{
    lemma_position(doc, key);
    lemma_position(doc, other);
    let after = with_field(doc, key, value);
    let at = position(doc, other);
    let end = if at < doc.len() {
        at
    } else {
        after.len() as int
    };
    assert forall|i: int| 0 <= i < end implies (#[trigger] after[i]).0 != other by {}
    lemma_position_is(after, other, end);
}

/// The values of the first `n` items of a list.
pub open spec fn item_views(items: Seq<Value>, n: nat) -> Seq<ValueView>
    decreases items, n,
{
    if n == 0 || n > items.len() {
        Seq::empty()
    } else {
        item_views(items, (n - 1) as nat).push(value_view(items[n - 1]))
    }
}

/// The names and values of the first `n` fields of a list of fields.
pub open spec fn field_views(fields: Seq<(String, Value)>, n: nat) -> DocView
    decreases fields, n,
{
    if n == 0 || n > fields.len() {
        Seq::empty()
    } else {
        field_views(fields, (n - 1) as nat).push((fields[n - 1].0@, value_view(fields[n - 1].1)))
    }
}

/// The mathematical value of a node.
pub open spec fn value_view(v: Value) -> ValueView
    decreases v,
{
    match v {
        Value::Null => ValueView::Null,
        Value::Bool(b) => ValueView::Bool(b),
        Value::Int(n) => ValueView::Int(n),
        Value::Double(bits) => ValueView::Double(bits),
        Value::Str(s) => ValueView::Str(s@),
        Value::Array(items) => ValueView::Array(item_views(items@, items@.len())),
        Value::Doc(doc) => ValueView::Doc(doc_view(doc)),
    }
}

/// The fields of a document, in order.
pub closed spec fn doc_view(doc: Document) -> DocView
    decreases doc,
{
    field_views(doc.entries@, doc.entries@.len())
}

impl View for Value {
    type V = ValueView;

    open spec fn view(&self) -> ValueView {
        value_view(*self)
    }
}

impl View for Document {
    type V = DocView;

    open spec fn view(&self) -> DocView {
        doc_view(*self)
    }
}

/// The value of a list is made of the values of its items.
pub proof fn lemma_item_views(items: Seq<Value>, n: nat)
    requires
        n <= items.len(),
    ensures
        item_views(items, n).len() == n,
        forall|i: int|
            #![trigger item_views(items, n)[i]]
            #![trigger items[i]]
            0 <= i < n ==> item_views(items, n)[i] == items[i]@,
    decreases n,
{
    if n > 0 {
        lemma_item_views(items, (n - 1) as nat);
    }
}

/// The value of a list of fields is made of their names and values.
pub proof fn lemma_field_views(fields: Seq<(String, Value)>, n: nat)
    requires
        n <= fields.len(),
    ensures
        field_views(fields, n).len() == n,
        forall|i: int|
            #![trigger field_views(fields, n)[i]]
            #![trigger fields[i]]
            0 <= i < n ==> field_views(fields, n)[i] == (fields[i].0@, fields[i].1@),
    decreases n,
{
    if n > 0 {
        lemma_field_views(fields, (n - 1) as nat);
    }
}

impl Clone for Value {
    fn clone(&self) -> (r: Self)
        ensures
            r@ == self@,
        decreases self,
    {
        match self {
            Value::Null => Value::Null,
            Value::Bool(b) => Value::Bool(*b),
            Value::Int(n) => Value::Int(*n),
            Value::Double(bits) => Value::Double(*bits),
            Value::Str(s) => Value::Str(s.clone()),
            Value::Array(items) => {
                let mut out: Vec<Value> = Vec::new();
                let mut i: usize = 0;
                while i < items.len()
                    invariant
                        i <= items.len(),
                        out.len() == i,
                        decreases_to!(self => items@),
                        forall|k: int| 0 <= k < i ==> (#[trigger] out@[k])@ == items@[k]@,
                    decreases items.len() - i,
                {
                    out.push(items[i].clone());
                    i += 1;
                }
                let r = Value::Array(out);
                proof {
                    lemma_item_views(out@, out@.len());
                    lemma_item_views(items@, items@.len());
                    assert(r@->Array_0 =~= self@->Array_0);
                }
                r
            },
            Value::Doc(doc) => Value::Doc(doc.clone()),
        }
    }
}

impl Clone for Document {
    fn clone(&self) -> (r: Self)
        ensures
            r@ == self@,
        decreases self,
    {
        proof {
            use_type_invariant(self);
        }
        let mut out: Vec<(String, Value)> = Vec::new();
        let mut i: usize = 0;
        while i < self.entries.len()
            invariant
                i <= self.entries.len(),
                out.len() == i,
                forall|k: int|
                    0 <= k < i ==> (#[trigger] out@[k]).0@ == self.entries@[k].0@ && out@[k].1@
                        == self.entries@[k].1@,
            decreases self.entries.len() - i,
        {
            let key = self.entries[i].0.clone();
            let value = self.entries[i].1.clone();
            out.push((key, value));
            i += 1;
        }
        let r = Document { entries: out };
        proof {
            r.fields();
            self.fields();
        }
        r
    }
}

impl Document {
    #[verifier::type_invariant]
    spec fn names_distinct(self) -> bool {
        forall|i: int, j: int|
            0 <= i < j < self.entries@.len() ==> (#[trigger] self.entries@[i]).0@ != (
            #[trigger] self.entries@[j]).0@
    }

    /// The view lists the names and values of the fields.
    proof fn fields(&self)
        ensures
            self@.len() == self.entries@.len(),
            forall|i: int|
                #![trigger self@[i]]
                #![trigger self.entries@[i]]
                0 <= i < self.entries@.len() ==> self@[i] == (self.entries@[i].0@,
                    self.entries@[i].1@),
    {
        lemma_field_views(self.entries@, self.entries@.len());
    }

    /// A document without fields.
    pub fn new() -> (r: Document)
        ensures
            r@ == Seq::<(Seq<char>, ValueView)>::empty(),
    {
        let r = Document { entries: Vec::new() };
        proof {
            r.fields();
        }
        r
    }

    /// The number of fields.
    pub fn len(&self) -> (r: usize)
        ensures
            r == self@.len(),
    {
        proof {
            self.fields();
        }
        self.entries.len()
    }

    /// The name and the value of the field at position `i`, if there is one.
    pub fn entry_at(&self, i: usize) -> (r: Option<(&String, &Value)>)
        ensures
            r is Some <==> i < self@.len(),
            r matches Some((key, value)) ==> key@ == self@[i as int].0 && value@ == self@[i as int].1,
    {
        proof {
            self.fields();
        }
        if i < self.entries.len() {
            Some((&self.entries[i].0, &self.entries[i].1))
        } else {
            None
        }
    }

    /// Every document has distinct field names.
    pub fn keys_are_distinct(&self)
        ensures
            distinct_keys(self@),
    {
        proof {
            use_type_invariant(self);
            self.fields();
            assert forall|i: int, j: int| 0 <= i < j < self@.len() implies (#[trigger] self@[i]).0
                != (#[trigger] self@[j]).0 by {}
        }
    }

    /// The position of the field named `key`.
    fn find(&self, key: &str) -> (r: usize)
        ensures
            r == position(self@, key@),
            r <= self@.len(),
    {
        proof {
            self.fields();
        }
        let mut i: usize = 0;
        while i < self.entries.len()
            invariant
                i <= self.entries.len(),
                self@.len() == self.entries@.len(),
                forall|k: int|
                    0 <= k < self.entries@.len() ==> self@[k] == ((#[trigger] self.entries@[k]).0@,
                        self.entries@[k].1@),
                forall|k: int| 0 <= k < i ==> (#[trigger] self@[k]).0 != key@,
            decreases self.entries.len() - i,
        {
            if same_text(self.entries[i].0.as_str(), key) {
                proof {
                    lemma_position_is(self@, key@, i as int);
                }
                return i;
            }
            i += 1;
        }
        proof {
            lemma_position_is(self@, key@, i as int);
        }
        i
    }

    /// Whether a field named `key` exists.
    pub fn contains_key(&self, key: &str) -> (r: bool)
        ensures
            r == has_key(self@, key@),
    {
        proof {
            self.fields();
        }
        self.find(key) < self.entries.len()
    }

    /// The value of the field named `key`.
    pub fn get(&self, key: &str) -> (r: Option<&Value>)
        ensures
            r is Some <==> has_key(self@, key@),
            r matches Some(v) ==> Some(v@) == lookup(self@, key@),
    {
        let at = self.find(key);
        proof {
            self.fields();
        }
        if at < self.entries.len() {
            Some(&self.entries[at].1)
        } else {
            None
        }
    }

    /// The text of the field named `key`, where it holds a string.
    pub fn get_str(&self, key: &str) -> (r: Option<&str>)
        ensures
            r is Some <==> lookup_str(self@, key@) is Some,
            r matches Some(s) ==> Some(s@) == lookup_str(self@, key@),
    {
        match self.get(key) {
            Some(Value::Str(s)) => Some(s.as_str()),
            _ => None,
        }
    }

    /// The document of the field named `key`, where it holds a document.
    pub fn get_document(&self, key: &str) -> (r: Option<&Document>)
        ensures
            r is Some <==> lookup_doc(self@, key@) is Some,
            r matches Some(d) ==> Some(d@) == lookup_doc(self@, key@),
    {
        match self.get(key) {
            Some(Value::Doc(d)) => Some(d),
            _ => None,
        }
    }

    /// Sets the field named `key` to `value`: an existing field keeps its
    /// place, a new one goes to the end.
    pub fn insert(&mut self, key: &str, value: Value)
        ensures
            final(self)@ == with_field(old(self)@, key@, value@),
            lookup(final(self)@, key@) == Some(value@),
            forall|other: Seq<char>|
                other != key@ ==> #[trigger] lookup(final(self)@, other) == lookup(
                    old(self)@,
                    other,
                ),
    {
        proof {
            use_type_invariant(&*self);
            lemma_with_field(self@, key@, value@);
            assert forall|other: Seq<char>| other != key@ implies #[trigger] lookup(
                with_field(self@, key@, value@),
                other,
            ) == lookup(self@, other) by {
                lemma_with_field_other(self@, key@, value@, other);
            }
        }
        let at = self.find(key);
        let ghost before = self@;
        proof {
            lemma_position(before, key@);
            self.fields();
        }
        let mut entries: Vec<(String, Value)> = Vec::new();
        core::mem::swap(&mut self.entries, &mut entries);
        if at < entries.len() {
            entries.set(at, (key.to_owned(), value));
        } else {
            entries.push((key.to_owned(), value));
        }
        proof {
            assert forall|i: int, j: int| 0 <= i < j < entries@.len() implies (
            #[trigger] entries@[i]).0@ != (#[trigger] entries@[j]).0@ by {}
        }
        core::mem::swap(&mut self.entries, &mut entries);
        proof {
            self.fields();
        }
    }
}

/// The values of a list are the values of its items.
pub proof fn lemma_items_deep_view(items: Vec<Value>)
    ensures
        item_views(items@, items@.len()) == items.deep_view(),
{
    lemma_item_views(items@, items@.len());
}

impl Value {
    /// A list node.
    pub fn array(items: Vec<Value>) -> (r: Value)
        ensures
            r@ == ValueView::Array(items.deep_view()),
    {
        proof {
            lemma_items_deep_view(items);
        }
        Value::Array(items)
    }

    /// A string node.
    pub fn text(s: &str) -> (r: Value)
        ensures
            r@ == ValueView::Str(s@),
    {
        Value::Str(s.to_owned())
    }

    /// The text of a string node.
    pub fn as_str(&self) -> (r: Option<&str>)
        ensures
            match self@ {
                ValueView::Str(s) => r matches Some(t) && t@ == s,
                _ => r is None,
            },
    {
        match self {
            Value::Str(s) => Some(s.as_str()),
            _ => None,
        }
    }

    /// The document of a document node.
    pub fn as_document(&self) -> (r: Option<&Document>)
        ensures
            match self@ {
                ValueView::Doc(d) => r matches Some(t) && t@ == d,
                _ => r is None,
            },
    {
        match self {
            Value::Doc(d) => Some(d),
            _ => None,
        }
    }

    /// The items of a list node.
    pub fn as_array(&self) -> (r: Option<&Vec<Value>>)
        ensures
            match self@ {
                ValueView::Array(items) => r matches Some(t) && t.deep_view() == items,
                _ => r is None,
            },
    {
        match self {
            Value::Array(items) => {
                proof {
                    lemma_items_deep_view(*items);
                }
                Some(items)
            },
            _ => None,
        }
    }
}

} // verus!


verus! {

impl DeepView for Value {
    type V = ValueView;

    open spec fn deep_view(&self) -> ValueView {
        value_view(*self)
    }
}

impl DeepView for Document {
    type V = DocView;

    open spec fn deep_view(&self) -> DocView {
        doc_view(*self)
    }
}

} // verus!
