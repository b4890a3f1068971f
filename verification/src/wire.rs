//! The wire format of the data objects: how a value is written as a JSON
//! document and how a document is read back as a value.

use crate::json::{
    as_array, as_bool, as_i64, as_text, as_u64, bool_value, documents, found, i64_value, json_of,
    list_value, members_of, set_member, text_value, u64_value, with_member, Json, JsonObject,
    Mismatch,
};
use serde_json::Value;
use vstd::prelude::*;

verus! {

/// A value that can be written as a JSON document.
pub trait ToJson {
    /// The document that stands for the value on the wire.
    spec fn wire(&self) -> Json;

    /// Writes the value as a document.
    fn to_json(&self) -> (value: Value)
        ensures
            json_of(value) == self.wire(),
    ;
}

/// A value that can be read from a JSON document.
pub trait FromJson: Sized {
    /// Whether a document follows the schema of the type.
    spec fn readable(document: Json) -> bool;

    /// Whether the value is what the document reads as.
    spec fn read_from(&self, document: Json) -> bool;

    /// Reads a value from a document; a document that does not follow the
    /// schema is refused.
    fn from_json(value: &Value) -> (outcome: Result<Self, Mismatch>)
        ensures
            outcome is Ok <==> Self::readable(json_of(*value)),
            outcome matches Ok(v) ==> v.read_from(json_of(*value)),
    ;
}

/// A value whose document reads back as the value itself.
pub trait RoundTrip: ToJson + FromJson {
    /// What was written is readable, and reads as what was written.
    proof fn lemma_reads_back(&self)
        ensures
            Self::readable(self.wire()),
            self.read_from(self.wire()),
    ;
}

impl ToJson for String {
    open spec fn wire(&self) -> Json {
        Json::Text(self@)
    }

    fn to_json(&self) -> (value: Value) {
        text_value(self.clone())
    }
}

impl FromJson for String {
    open spec fn readable(document: Json) -> bool {
        document is Text
    }

    open spec fn read_from(&self, document: Json) -> bool {
        document == Json::Text(self@)
    }

    fn from_json(value: &Value) -> (outcome: Result<String, Mismatch>) {
        match as_text(value) {
            Some(t) => Ok(t.to_owned()),
            None => Err(Mismatch),
        }
    }
}

impl RoundTrip for String {
    proof fn lemma_reads_back(&self) {
    }
}

impl ToJson for bool {
    open spec fn wire(&self) -> Json {
        Json::Bool(*self)
    }

    fn to_json(&self) -> (value: Value) {
        bool_value(*self)
    }
}

impl FromJson for bool {
    open spec fn readable(document: Json) -> bool {
        document is Bool
    }

    open spec fn read_from(&self, document: Json) -> bool {
        document == Json::Bool(*self)
    }

    fn from_json(value: &Value) -> (outcome: Result<bool, Mismatch>) {
        match as_bool(value) {
            Some(b) => Ok(b),
            None => Err(Mismatch),
        }
    }
}

impl RoundTrip for bool {
    proof fn lemma_reads_back(&self) {
    }
}

impl ToJson for u64 {
    open spec fn wire(&self) -> Json {
        Json::Int(*self as int)
    }

    fn to_json(&self) -> (value: Value) {
        u64_value(*self)
    }
}

impl FromJson for u64 {
    open spec fn readable(document: Json) -> bool {
        document matches Json::Int(n) && 0 <= n <= u64::MAX
    }

    open spec fn read_from(&self, document: Json) -> bool {
        document == Json::Int(*self as int)
    }

    fn from_json(value: &Value) -> (outcome: Result<u64, Mismatch>) {
        match as_u64(value) {
            Some(n) => Ok(n),
            None => Err(Mismatch),
        }
    }
}

impl RoundTrip for u64 {
    proof fn lemma_reads_back(&self) {
    }
}

impl ToJson for u16 {
    open spec fn wire(&self) -> Json {
        Json::Int(*self as int)
    }

    fn to_json(&self) -> (value: Value) {
        u64_value(*self as u64)
    }
}

impl FromJson for u16 {
    open spec fn readable(document: Json) -> bool {
        document matches Json::Int(n) && 0 <= n <= u16::MAX
    }

    open spec fn read_from(&self, document: Json) -> bool {
        document == Json::Int(*self as int)
    }

    fn from_json(value: &Value) -> (outcome: Result<u16, Mismatch>) {
        match as_u64(value) {
            Some(n) => if n <= 0xffff {
                Ok(n as u16)
            } else {
                Err(Mismatch)
            },
            None => Err(Mismatch),
        }
    }
}

impl RoundTrip for u16 {
    proof fn lemma_reads_back(&self) {
    }
}

impl ToJson for u8 {
    open spec fn wire(&self) -> Json {
        Json::Int(*self as int)
    }

    fn to_json(&self) -> (value: Value) {
        u64_value(*self as u64)
    }
}

impl FromJson for u8 {
    open spec fn readable(document: Json) -> bool {
        document matches Json::Int(n) && 0 <= n <= u8::MAX
    }

    open spec fn read_from(&self, document: Json) -> bool {
        document == Json::Int(*self as int)
    }

    fn from_json(value: &Value) -> (outcome: Result<u8, Mismatch>) {
        match as_u64(value) {
            Some(n) => if n <= 0xff {
                Ok(n as u8)
            } else {
                Err(Mismatch)
            },
            None => Err(Mismatch),
        }
    }
}

impl RoundTrip for u8 {
    proof fn lemma_reads_back(&self) {
    }
}

impl ToJson for i64 {
    open spec fn wire(&self) -> Json {
        Json::Int(*self as int)
    }

    fn to_json(&self) -> (value: Value) {
        i64_value(*self)
    }
}

impl FromJson for i64 {
    open spec fn readable(document: Json) -> bool {
        document matches Json::Int(n) && i64::MIN <= n <= i64::MAX
    }

    open spec fn read_from(&self, document: Json) -> bool {
        document == Json::Int(*self as int)
    }

    fn from_json(value: &Value) -> (outcome: Result<i64, Mismatch>) {
        match as_i64(value) {
            Some(n) => Ok(n),
            None => Err(Mismatch),
        }
    }
}

impl RoundTrip for i64 {
    proof fn lemma_reads_back(&self) {
    }
}

/// The documents of the items of a sequence, one by one.
pub open spec fn wire_all<T: ToJson>(items: Seq<T>) -> Seq<Json> {
    items.map_values(|item: T| item.wire())
}

impl<T: ToJson> ToJson for Vec<T> {
    /// A list is written as the array of its items, in their order.
    open spec fn wire(&self) -> Json {
        Json::List(wire_all(self@))
    }

    fn to_json(&self) -> (value: Value) {
        let mut items: Vec<Value> = Vec::new();
        let mut i: usize = 0;
        while i < self.len()
            invariant
                i <= self.len(),
                items.len() == i,
                forall|k: int| 0 <= k < i ==> json_of(#[trigger] items[k]) == self[k].wire(),
            decreases self.len() - i,
        {
            items.push(self[i].to_json());
            i += 1;
        }
        assert(documents(items@) =~= wire_all(self@));
        list_value(items)
    }
}

/// Whether every document of a sequence follows the schema of `T`.
pub open spec fn all_readable<T: FromJson>(items: Seq<Json>) -> bool {
    forall|k: int| 0 <= k < items.len() ==> T::readable(#[trigger] items[k])
}

/// Whether a sequence of values is what a sequence of documents reads as, item
/// by item.
pub open spec fn all_read_from<T: FromJson>(values: Seq<T>, items: Seq<Json>) -> bool {
    &&& values.len() == items.len()
    &&& forall|k: int| 0 <= k < items.len() ==> (#[trigger] values[k]).read_from(items[k])
}

impl<T: FromJson> FromJson for Vec<T> {
    /// An array whose items are all readable.
    open spec fn readable(document: Json) -> bool {
        document matches Json::List(items) && all_readable::<T>(items)
    }

    /// The list has one item for each item of the array, read from it.
    open spec fn read_from(&self, document: Json) -> bool {
        document matches Json::List(items) && all_read_from(self@, items)
    }

    fn from_json(value: &Value) -> (outcome: Result<Vec<T>, Mismatch>) {
        let items = match as_array(value) {
            Some(items) => items,
            None => { return Err(Mismatch); },
        };
        let ghost docs = documents(items@);
        let mut list: Vec<T> = Vec::new();
        let mut i: usize = 0;
        while i < items.len()
            invariant
                i <= items.len(),
                list.len() == i,
                docs == documents(items@),
                json_of(*value) == Json::List(docs),
                forall|k: int| 0 <= k < i ==> T::readable(#[trigger] docs[k]),
                forall|k: int| 0 <= k < i ==> (#[trigger] list[k]).read_from(docs[k]),
            decreases items.len() - i,
        {
            match T::from_json(&items[i]) {
                Ok(item) => {
                    list.push(item);
                },
                Err(_) => {
                    assert(!T::readable(docs[i as int]));
                    return Err(Mismatch);
                },
            }
            i += 1;
        }
        Ok(list)
    }
}

impl<T: RoundTrip> RoundTrip for Vec<T> {
    proof fn lemma_reads_back(&self) {
        let items = wire_all(self@);
        assert forall|k: int| 0 <= k < items.len() implies T::readable(#[trigger] items[k]) by {
            self[k].lemma_reads_back();
        }
        assert forall|k: int| 0 <= k < items.len() implies (#[trigger] self@[k]).read_from(
            items[k],
        ) by {
            self[k].lemma_reads_back();
        }
    }
}

/// The document of an optional value, if there is a value.
pub open spec fn opt_wire<T: ToJson>(value: Option<T>) -> Option<Json> {
    match value {
        Some(v) => Some(v.wire()),
        None => None,
    }
}

/// Whether a member that may be missing follows the schema of `T`.
pub open spec fn opt_readable<T: FromJson>(document: Option<Json>) -> bool {
    match document {
        Some(d) => T::readable(d),
        None => true,
    }
}

/// Whether an optional value is what a member that may be missing reads as.
pub open spec fn opt_read_from<T: FromJson>(value: Option<T>, document: Option<Json>) -> bool {
    match document {
        Some(d) => value matches Some(v) && v.read_from(d),
        None => value is None,
    }
}

/// An optional value that is written and read back reads as itself.
pub proof fn lemma_opt_reads_back<T: RoundTrip>(value: Option<T>)
    ensures
        opt_readable::<T>(opt_wire(value)),
        opt_read_from(value, opt_wire(value)),
{
    match value {
        Some(v) => {
            v.lemma_reads_back();
        },
        None => {},
    }
}

/// Whether a member that must be there is there and follows the schema of `T`.
pub open spec fn req_readable<T: FromJson>(document: Option<Json>) -> bool {
    document matches Some(d) && T::readable(d)
}

/// Whether a value is what a member that must be there reads as.
pub open spec fn req_read_from<T: FromJson>(value: T, document: Option<Json>) -> bool {
    document matches Some(d) && value.read_from(d)
}

/// Sets the member `key` of `object` to the document of `value`.
pub fn put<T: ToJson>(object: &mut JsonObject, key: &str, value: &T)
    ensures
        members_of(*final(object)) == with_member(
            members_of(*old(object)),
            key@,
            Some(value.wire()),
        ),
{
    proof {
        reveal(with_member);
    }
    set_member(object, key, value.to_json());
}

/// Sets the member `key` of `object` to the document of `value` if there is a
/// value, and leaves the object as it is if there is none.
pub fn put_opt<T: ToJson>(object: &mut JsonObject, key: &str, value: &Option<T>)
    ensures
        members_of(*final(object)) == with_member(
            members_of(*old(object)),
            key@,
            opt_wire(*value),
        ),
{
    proof {
        reveal(with_member);
    }
    match value {
        Some(v) => set_member(object, key, v.to_json()),
        None => {},
    }
}

/// Reads a member that may be missing.
pub fn take_opt<T: FromJson>(value: Option<&Value>) -> (outcome: Result<Option<T>, Mismatch>)
    ensures
        outcome is Ok <==> opt_readable::<T>(found(value)),
        outcome matches Ok(v) ==> opt_read_from(v, found(value)),
{
    match value {
        Some(v) => match T::from_json(v) {
            Ok(item) => Ok(Some(item)),
            Err(_) => Err(Mismatch),
        },
        None => Ok(None),
    }
}

/// Reads a member that must be there.
pub fn take<T: FromJson>(value: Option<&Value>) -> (outcome: Result<T, Mismatch>)
    ensures
        outcome is Ok <==> req_readable::<T>(found(value)),
        outcome matches Ok(v) ==> req_read_from(v, found(value)),
{
    match value {
        Some(v) => T::from_json(v),
        None => Err(Mismatch),
    }
}

} // verus!
