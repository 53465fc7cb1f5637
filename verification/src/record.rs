//! A dynamically typed record: named values, each a number, a text, a
//! further record or a list of values.

use vstd::prelude::*;
use crate::text::same_text;

verus! {

/// A double-precision number, carried as its IEEE 754 bit pattern.
#[derive(Debug, Clone, Copy, PartialEq, Eq, Structural)]
pub struct Double {
    pub bits: u64,
}

/// The type of a value.
#[derive(Debug, Clone, Copy, PartialEq, Eq, Structural)]
pub enum ValueKind {
    Int,
    Int64,
    UInt64,
    Double,
    Text,
    List,
    Record,
    Other,
}

/// One value of a record.
#[derive(Debug, PartialEq, Eq)]
pub enum Value {
    /// A signed 32-bit integer.
    Int(i32),
    /// A signed 64-bit integer.
    Int64(i64),
    /// An unsigned 64-bit integer.
    UInt64(u64),
    /// A double-precision number.
    Double(Double),
    /// A text.
    Text(String),
    /// A list of values.
    List(Vec<Value>),
    /// A record.
    Record(OpaqueRecord),
    /// A value of any other type.
    Other,
}

/// A name and the value it stands for.
#[derive(Debug, PartialEq, Eq)]
pub struct Entry {
    pub key: String,
    pub value: Value,
}

/// A record. Where a name occurs more than once, the first entry counts.
#[derive(Debug, PartialEq, Eq)]
pub struct OpaqueRecord {
    pub entries: Vec<Entry>,
}

/// A [`Value`] as a plain value.
pub enum ValueView {
    Int(i32),
    Int64(i64),
    UInt64(u64),
    Double(Double),
    Text(Seq<char>),
    List(Seq<ValueView>),
    Record(RecordView),
    Other,
}

/// An [`OpaqueRecord`] as a plain value: its names and values, in order.
pub struct RecordView {
    pub entries: Seq<(Seq<char>, ValueView)>,
}

impl View for Value {
    type V = ValueView;

    open spec fn view(&self) -> ValueView
        decreases self,
    {
        match self {
            Value::Int(v) => ValueView::Int(*v),
            Value::Int64(v) => ValueView::Int64(*v),
            Value::UInt64(v) => ValueView::UInt64(*v),
            Value::Double(v) => ValueView::Double(*v),
            Value::Text(s) => ValueView::Text(s@),
            Value::List(l) => ValueView::List(
                Seq::new(
                    l@.len(),
                    |i: int|
                        if 0 <= i < l@.len() {
                            l@[i].view()
                        } else {
                            arbitrary()
                        },
                ),
            ),
            Value::Record(r) => ValueView::Record(r.view()),
            Value::Other => ValueView::Other,
        }
    }
}

impl View for OpaqueRecord {
    type V = RecordView;

    open spec fn view(&self) -> RecordView
        decreases self,
    {
        RecordView {
            entries: Seq::new(
                self.entries@.len(),
                |i: int|
                    if 0 <= i < self.entries@.len() {
                        (self.entries@[i].key@, self.entries@[i].value.view())
                    } else {
                        arbitrary()
                    },
            ),
        }
    }
}

/// Why a value could not be read from a record.
#[derive(Debug, Clone, Copy, PartialEq, Eq, Structural)]
pub enum FieldFault {
    /// The record has no entry of that name.
    Missing,
    /// The entry holds a value of another type than the one asked for.
    WrongType { expected: ValueKind, found: ValueKind },
}

impl ValueView {
    /// The type of the value.
    pub open spec fn kind(self) -> ValueKind {
        match self {
            ValueView::Int(_) => ValueKind::Int,
            ValueView::Int64(_) => ValueKind::Int64,
            ValueView::UInt64(_) => ValueKind::UInt64,
            ValueView::Double(_) => ValueKind::Double,
            ValueView::Text(_) => ValueKind::Text,
            ValueView::List(_) => ValueKind::List,
            ValueView::Record(_) => ValueKind::Record,
            ValueView::Other => ValueKind::Other,
        }
    }
}

impl RecordView {
    /// The record without entries.
    pub open spec fn empty() -> RecordView {
        RecordView { entries: Seq::empty() }
    }

    /// Place of the first entry named `key` at or after `start`.
    pub open spec fn position_from(self, key: Seq<char>, start: int) -> Option<int>
        decreases self.entries.len() - start,
    {
        if start < 0 || start >= self.entries.len() {
            None
        } else if self.entries[start].0 == key {
            Some(start)
        } else {
            self.position_from(key, start + 1)
        }
    }

    /// Place of the first entry named `key`.
    pub open spec fn position(self, key: Seq<char>) -> Option<int> {
        self.position_from(key, 0)
    }

    /// The value that `key` stands for: that of the first entry of that name.
    pub open spec fn lookup(self, key: Seq<char>) -> Option<ValueView> {
        match self.position(key) {
            Some(i) => Some(self.entries[i].1),
            None => None,
        }
    }

    /// The record in which `key` stands for `value`: the first entry of that
    /// name holds the new value, or a new last entry where there was none.
    pub open spec fn set(self, key: Seq<char>, value: ValueView) -> RecordView {
        match self.position(key) {
            Some(i) => RecordView { entries: self.entries.update(i, (key, value)) },
            None => RecordView { entries: self.entries.push((key, value)) },
        }
    }

    /// What stands in the way of reading `key` as a value of type `kind`.
    pub open spec fn fault(self, key: Seq<char>, kind: ValueKind) -> Option<FieldFault> {
        match self.lookup(key) {
            None => Some(FieldFault::Missing),
            Some(v) => if v.kind() == kind {
                None
            } else {
                Some(FieldFault::WrongType { expected: kind, found: v.kind() })
            },
        }
    }

    /// The signed 32-bit integer that `key` stands for.
    pub open spec fn int32(self, key: Seq<char>) -> Result<i32, FieldFault> {
        match self.lookup(key) {
            Some(ValueView::Int(v)) => Ok(v),
            _ => Err(self.fault(key, ValueKind::Int)->0),
        }
    }

    /// The signed 64-bit integer that `key` stands for.
    pub open spec fn int64(self, key: Seq<char>) -> Result<i64, FieldFault> {
        match self.lookup(key) {
            Some(ValueView::Int64(v)) => Ok(v),
            _ => Err(self.fault(key, ValueKind::Int64)->0),
        }
    }

    /// The unsigned 64-bit integer that `key` stands for.
    pub open spec fn uint64(self, key: Seq<char>) -> Result<u64, FieldFault> {
        match self.lookup(key) {
            Some(ValueView::UInt64(v)) => Ok(v),
            _ => Err(self.fault(key, ValueKind::UInt64)->0),
        }
    }

    /// The double-precision number that `key` stands for.
    pub open spec fn double(self, key: Seq<char>) -> Result<Double, FieldFault> {
        match self.lookup(key) {
            Some(ValueView::Double(v)) => Ok(v),
            _ => Err(self.fault(key, ValueKind::Double)->0),
        }
    }

    /// The text that `key` stands for.
    pub open spec fn text(self, key: Seq<char>) -> Result<Seq<char>, FieldFault> {
        match self.lookup(key) {
            Some(ValueView::Text(v)) => Ok(v),
            _ => Err(self.fault(key, ValueKind::Text)->0),
        }
    }

    /// The list of values that `key` stands for.
    pub open spec fn list(self, key: Seq<char>) -> Result<Seq<ValueView>, FieldFault> {
        match self.lookup(key) {
            Some(ValueView::List(v)) => Ok(v),
            _ => Err(self.fault(key, ValueKind::List)->0),
        }
    }
}

/// `position_from` gives the least place at or after `start` whose entry is
/// named `key`, and `None` exactly when no entry from `start` on has that name.
pub proof fn lemma_position_is_first(record: RecordView, key: Seq<char>, start: int)
    requires
        0 <= start,
    ensures
        match record.position_from(key, start) {
            Some(i) => start <= i < record.entries.len() && record.entries[i].0 == key
                && forall|j: int| start <= j < i ==> (#[trigger] record.entries[j]).0 != key,
            None => forall|j: int|
                start <= j < record.entries.len() ==> (#[trigger] record.entries[j]).0 != key,
        },
    decreases record.entries.len() - start,
{
    if start < record.entries.len() && record.entries[start].0 != key {
        lemma_position_is_first(record, key, start + 1);
    }
}

/// After `set`, `key` stands for the new value and every other name for what
/// it stood for before.
pub proof fn lemma_lookup_after_set(
    record: RecordView,
    key: Seq<char>,
    value: ValueView,
    other: Seq<char>,
)
    ensures
        record.set(key, value).lookup(other) == if other == key {
            Some(value)
        } else {
            record.lookup(other)
        },
{
    let after = record.set(key, value);
    lemma_position_is_first(record, key, 0);
    lemma_position_is_first(record, other, 0);
    lemma_position_is_first(after, other, 0);
    match record.position(key) {
        Some(i) => {
            assert(forall|j: int|
                0 <= j < after.entries.len() ==> (#[trigger] after.entries[j]).0
                    == record.entries[j].0);
        },
        None => {
            let n = record.entries.len() as int;
            assert(forall|j: int|
                0 <= j < n ==> (#[trigger] after.entries[j]) == record.entries[j]);
            if after.position(other) is None {
                assert(after.entries[n].0 != other);
            }
        },
    }
    if record.position(other) is Some {
        let b = record.position(other)->0;
        assert(after.entries[b].0 == other);
    }
}

impl Value {
    /// The type of the value.
    pub fn kind(&self) -> (k: ValueKind)
        ensures
            k == self@.kind(),
    {
        match self {
            Value::Int(_) => ValueKind::Int,
            Value::Int64(_) => ValueKind::Int64,
            Value::UInt64(_) => ValueKind::UInt64,
            Value::Double(_) => ValueKind::Double,
            Value::Text(_) => ValueKind::Text,
            Value::List(_) => ValueKind::List,
            Value::Record(_) => ValueKind::Record,
            Value::Other => ValueKind::Other,
        }
    }
}

impl OpaqueRecord {
    /// A record without entries.
    pub fn new() -> (r: OpaqueRecord)
        ensures
            r@ == RecordView::empty(),
    {
        let r = OpaqueRecord { entries: Vec::new() };
        assert(r@.entries =~= Seq::empty());
        r
    }

    /// Place of the first entry named `key`.
    fn find(&self, key: &str) -> (r: Option<usize>)
        ensures
            match r {
                Some(i) => self@.position(key@) == Some(i as int) && i < self.entries@.len(),
                None => self@.position(key@) is None,
            },
    {
        let mut i: usize = 0;
        while i < self.entries.len()
            invariant
                i <= self.entries@.len(),
                self@.position(key@) == self@.position_from(key@, i as int),
            decreases self.entries@.len() - i,
        {
            if same_text(self.entries[i].key.as_str(), key) {
                return Some(i);
            }
            i = i + 1;
        }
        None
    }

    /// The value that `key` stands for, if there is one.
    pub fn get(&self, key: &str) -> (r: Option<&Value>)
        ensures
            match r {
                Some(v) => self@.lookup(key@) == Some(v@),
                None => self@.lookup(key@) is None,
            },
    {
        match self.find(key) {
            Some(i) => Some(&self.entries[i].value),
            None => None,
        }
    }

    /// Makes `key` stand for `value`.
    pub fn set(&mut self, key: &str, value: Value)
        ensures
            final(self)@ == old(self)@.set(key@, value@),
    {
        let entry = Entry { key: key.to_owned(), value };
        match self.find(key) {
            Some(i) => {
                self.entries.set(i, entry);
                assert(self@.entries =~= old(self)@.entries.update(i as int, (key@, value@)));
            },
            None => {
                self.entries.push(entry);
                assert(self@.entries =~= old(self)@.entries.push((key@, value@)));
            },
        }
    }

    /// What stands in the way of reading `key` as a value of type `kind`.
    fn fault_at(&self, key: &str, kind: ValueKind) -> (r: FieldFault)
        requires
            self@.fault(key@, kind) is Some,
        ensures
            self@.fault(key@, kind) == Some(r),
    {
        match self.get(key) {
            None => FieldFault::Missing,
            Some(v) => FieldFault::WrongType { expected: kind, found: v.kind() },
        }
    }

    /// Reads `key` as a signed 32-bit integer.
    pub fn get_int(&self, key: &str) -> (r: Result<i32, FieldFault>)
        ensures
            r == self@.int32(key@),
    {
        match self.get(key) {
            Some(Value::Int(v)) => Ok(*v),
            _ => Err(self.fault_at(key, ValueKind::Int)),
        }
    }

    /// Reads `key` as a signed 64-bit integer.
    pub fn get_int64(&self, key: &str) -> (r: Result<i64, FieldFault>)
        ensures
            r == self@.int64(key@),
    {
        match self.get(key) {
            Some(Value::Int64(v)) => Ok(*v),
            _ => Err(self.fault_at(key, ValueKind::Int64)),
        }
    }

    /// Reads `key` as an unsigned 64-bit integer.
    pub fn get_uint64(&self, key: &str) -> (r: Result<u64, FieldFault>)
        ensures
            r == self@.uint64(key@),
    {
        match self.get(key) {
            Some(Value::UInt64(v)) => Ok(*v),
            _ => Err(self.fault_at(key, ValueKind::UInt64)),
        }
    }

    /// Reads `key` as a double-precision number.
    pub fn get_double(&self, key: &str) -> (r: Result<Double, FieldFault>)
        ensures
            r == self@.double(key@),
    {
        match self.get(key) {
            Some(Value::Double(v)) => Ok(*v),
            _ => Err(self.fault_at(key, ValueKind::Double)),
        }
    }

    /// Reads `key` as a text.
    pub fn get_text(&self, key: &str) -> (r: Result<&str, FieldFault>)
        ensures
            match r {
                Ok(t) => Ok(t@),
                Err(e) => Err(e),
            } == self@.text(key@),
    {
        match self.get(key) {
            Some(Value::Text(v)) => Ok(v.as_str()),
            _ => Err(self.fault_at(key, ValueKind::Text)),
        }
    }

    /// Reads `key` as a list of values.
    pub fn get_list(&self, key: &str) -> (r: Result<&Vec<Value>, FieldFault>)
        ensures
            match r {
                Ok(l) => Ok(values_view(l@)),
                Err(e) => Err(e),
            } == self@.list(key@),
    {
        match self.get(key) {
            Some(Value::List(v)) => {
                assert(Value::List(*v)@ == ValueView::List(values_view(v@))) by {
                    reveal_with_fuel(<Value as View>::view, 2);
                    assert(Value::List(*v)@->List_0 =~= values_view(v@));
                }
                Ok(v)
            },
            _ => Err(self.fault_at(key, ValueKind::List)),
        }
    }
}

/// Each value of a list as a plain value.
pub open spec fn values_view(values: Seq<Value>) -> Seq<ValueView> {
    Seq::new(values.len(), |i: int| values[i]@)
}

} // verus!
