//! Query documents: ordered lists of field names with the scalar each must
//! equal. The substrate builds them for identifier and uniqueness lookups and
//! hands them to whatever store performs the read.

use vstd::prelude::*;
use vstd::string::StringExecFns;

use crate::oid::ObjectId;

verus! {

/// A scalar that can stand in a document.
#[derive(Clone, Debug, PartialEq, Eq)]
pub enum Value {
    Text(String),
    Integer(i64),
    Boolean(bool),
    Id(ObjectId),
}

/// The mathematical content of a [`Value`].
pub enum ValueView {
    Text(Seq<char>),
    Integer(i64),
    Boolean(bool),
    Id(Seq<u8>),
}

impl View for Value {
    type V = ValueView;

    open spec fn view(&self) -> ValueView {
        match self {
            Value::Text(s) => ValueView::Text(s@),
            Value::Integer(n) => ValueView::Integer(*n),
            Value::Boolean(b) => ValueView::Boolean(*b),
            Value::Id(id) => ValueView::Id(id@),
        }
    }
}

impl DeepView for Value {
    type V = ValueView;

    open spec fn deep_view(&self) -> ValueView {
        self@
    }
}

/// One field of a document.
#[derive(Clone, Debug, PartialEq, Eq)]
pub struct Entry {
    pub key: String,
    pub value: Value,
}

impl View for Entry {
    type V = (Seq<char>, ValueView);

    open spec fn view(&self) -> (Seq<char>, ValueView) {
        (self.key@, self.value@)
    }
}

impl DeepView for Entry {
    type V = (Seq<char>, ValueView);

    open spec fn deep_view(&self) -> (Seq<char>, ValueView) {
        self@
    }
}

/// The mathematical content of a [`Document`]: its entries in order.
pub type DocumentView = Seq<(Seq<char>, ValueView)>;

/// An ordered list of fields.
#[derive(Clone, Debug, PartialEq, Eq)]
pub struct Document {
    pub entries: Vec<Entry>,
}

impl View for Document {
    type V = DocumentView;

    open spec fn view(&self) -> DocumentView {
        self.entries.deep_view()
    }
}

impl DeepView for Document {
    type V = DocumentView;

    open spec fn deep_view(&self) -> DocumentView {
        self@
    }
}

/// Whether a stored record answers a query: every field the query names is a
/// field of the record, with the same value.
pub open spec fn answers(record: DocumentView, query: DocumentView) -> bool {
    forall|i: int| 0 <= i < query.len() ==> record.contains(#[trigger] query[i])
}

impl Document {
    /// The document without fields; every record answers it.
    pub fn new() -> (document: Document)
        ensures
            document@ == Seq::<(Seq<char>, ValueView)>::empty(),
    {
        let document = Document { entries: Vec::new() };
        assert(document@ =~= Seq::<(Seq<char>, ValueView)>::empty());
        document
    }

    /// The document of the one field `key` with the value `value`.
    pub fn single(key: &str, value: Value) -> (document: Document)
        ensures
            document@ == seq![(key@, value@)],
    {
        let mut entries = Vec::new();
        entries.push(Entry { key: String::from_str(key), value });
        let document = Document { entries };
        assert(document@ =~= seq![(key@, value@)]);
        document
    }

    /// Adds a field behind those already there.
    pub fn push(&mut self, key: &str, value: Value)
        ensures
            final(self)@ == old(self)@.push((key@, value@)),
    {
        self.entries.push(Entry { key: String::from_str(key), value });
        assert(self@ =~= old(self)@.push((key@, value@)));
    }
}

/// A leaf value that a query can ask for.
pub trait Scalar {
    /// The scalar this value stands for in a document.
    spec fn scalar(&self) -> ValueView;

    fn to_value(&self) -> (value: Value)
        ensures
            value@ == self.scalar(),
    ;
}

impl Scalar for String {
    open spec fn scalar(&self) -> ValueView {
        ValueView::Text(self@)
    }

    fn to_value(&self) -> (value: Value) {
        Value::Text(self.clone())
    }
}

impl Scalar for i64 {
    open spec fn scalar(&self) -> ValueView {
        ValueView::Integer(*self)
    }

    fn to_value(&self) -> (value: Value) {
        Value::Integer(*self)
    }
}

impl Scalar for bool {
    open spec fn scalar(&self) -> ValueView {
        ValueView::Boolean(*self)
    }

    fn to_value(&self) -> (value: Value) {
        Value::Boolean(*self)
    }
}

impl Scalar for ObjectId {
    open spec fn scalar(&self) -> ValueView {
        ValueView::Id(self@)
    }

    fn to_value(&self) -> (value: Value) {
        Value::Id(*self)
    }
}

} // verus!
