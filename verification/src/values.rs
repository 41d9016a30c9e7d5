//! Flat, schema-checked configuration values.
//!
//! A resource is configured by an ordered, flat sequence of scalar JSON
//! values: numbers, strings and booleans.  Nested arrays and objects are
//! rejected, never coerced.  The same shape doubles as a *schema*: a sequence
//! of values whose type tags matter and whose contents do not.
//!
//! The values themselves are [`serde_json::Value`]s, which this crate treats
//! as opaque; everything the logic reads from a value goes through the small
//! trusted interface at the top of this module.

use vstd::prelude::*;

verus! {

/// Scalar type tag of a JSON value.
///
/// Two values are interchangeable in a configuration exactly when their tags
/// are equal; the tag is what a schema constrains.
#[derive(Clone, Copy, Debug, PartialEq, Eq, Structural, Hash)]
pub enum ValueKind {
    /// JSON `null`.
    Null,
    /// A boolean.
    Bool,
    /// A number, independent of its representation.
    Number,
    /// A string.
    String,
    /// A nested array; never allowed inside a configuration.
    Array,
    /// A nested object; never allowed inside a configuration.
    Object,
}

#[verifier::external_type_specification]
#[verifier::external_body]
pub struct ExValue(serde_json::Value);

/// The type tag of a JSON value.
pub uninterp spec fn value_kind(v: serde_json::Value) -> ValueKind;

/// Whether a JSON number is stored so that it can be read back exactly as an
/// `i64`.
pub uninterp spec fn i64_rep(v: serde_json::Value) -> bool;

/// Whether a JSON number is stored as a floating-point number.
pub uninterp spec fn f64_rep(v: serde_json::Value) -> bool;

/// A JSON number that can be read back exactly as an `i64`.
pub open spec fn is_i64_number(v: serde_json::Value) -> bool {
    value_kind(v) == ValueKind::Number && i64_rep(v)
}

/// A JSON number stored in floating-point representation.
pub open spec fn is_f64_number(v: serde_json::Value) -> bool {
    value_kind(v) == ValueKind::Number && f64_rep(v)
}

/// The value of a JSON number that can be read back as an `i64`.
pub uninterp spec fn int_of(v: serde_json::Value) -> i64;

/// The value of a JSON boolean.
pub uninterp spec fn bool_of(v: serde_json::Value) -> bool;

/// The elements of a JSON array.
pub uninterp spec fn elems_of(v: serde_json::Value) -> Seq<serde_json::Value>;

/// The canonical JSON encoding of a sequence of values, as an array.
pub uninterp spec fn json_encoding(items: Seq<serde_json::Value>) -> Seq<u8>;

/// The JSON number holding a given integer.
pub uninterp spec fn json_int(i: i64) -> serde_json::Value;

/// Relies on `serde_json::Value::is_null` / `is_boolean` / `is_number` /
/// `is_string` / `is_array`, which report which variant a `Value` is; a value
/// that is none of those is an object.
#[verifier::external_body]
pub(crate) fn kind_of_value(v: &serde_json::Value) -> (k: ValueKind)
    ensures
        k == value_kind(*v),
{
    if v.is_null() {
        ValueKind::Null
    } else if v.is_boolean() {
        ValueKind::Bool
    } else if v.is_number() {
        ValueKind::Number
    } else if v.is_string() {
        ValueKind::String
    } else if v.is_array() {
        ValueKind::Array
    } else {
        ValueKind::Object
    }
}

/// Relies on `serde_json::Value::is_i64`: true exactly for numbers that fit
/// an `i64`, and such a value is a number.
#[verifier::external_body]
pub(crate) fn value_is_i64(v: &serde_json::Value) -> (r: bool)
    ensures
        r == (value_kind(*v) == ValueKind::Number && i64_rep(*v)),
{
    v.is_i64()
}

/// Relies on `serde_json::Value::is_f64`: true exactly for numbers stored in
/// floating-point representation, and such a value is a number.
#[verifier::external_body]
pub(crate) fn value_is_f64(v: &serde_json::Value) -> (r: bool)
    ensures
        r == (value_kind(*v) == ValueKind::Number && f64_rep(*v)),
{
    v.is_f64()
}

/// Relies on `serde_json::Value::as_i64`: returns the stored integer exactly
/// when `is_i64` would be true.
#[verifier::external_body]
pub(crate) fn value_as_i64(v: &serde_json::Value) -> (r: Option<i64>)
    ensures
        (r is Some) == is_i64_number(*v),
        r matches Some(i) ==> i == int_of(*v),
{
    v.as_i64()
}

/// Relies on `serde_json::Value::as_bool`: returns the stored boolean exactly
/// when the value is a boolean.
#[verifier::external_body]
pub(crate) fn value_as_bool(v: &serde_json::Value) -> (r: Option<bool>)
    ensures
        (r is Some) == (value_kind(*v) == ValueKind::Bool),
        r matches Some(b) ==> b == bool_of(*v),
{
    v.as_bool()
}

/// Relies on `serde_json::Value`'s `Clone`, which produces a value equal to
/// the original.
#[verifier::external_body]
pub(crate) fn clone_value(v: &serde_json::Value) -> (r: serde_json::Value)
    ensures
        r == *v,
{
    v.clone()
}

/// Relies on `serde_json::Value`'s `From<i64>`, which stores the integer as a
/// JSON number that reads back exactly; the result depends on the integer
/// alone.
#[verifier::external_body]
pub(crate) fn int_value(i: i64) -> (v: serde_json::Value)
    ensures
        v == json_int(i),
        value_kind(v) == ValueKind::Number,
        is_i64_number(v),
        int_of(v) == i,
{
    serde_json::Value::from(i)
}

/// Relies on `serde_json::Value` being an enum whose `Array` variant holds
/// the elements; the match moves them out and touches nothing else.
#[verifier::external_body]
pub(crate) fn value_into_elems(v: serde_json::Value) -> (r: Option<Vec<serde_json::Value>>)
    ensures
        (r is Some) == (value_kind(v) == ValueKind::Array),
        r matches Some(items) ==> items@ == elems_of(v),
{
    match v {
        serde_json::Value::Array(items) => Some(items),
        _ => None,
    }
}

/// Relies on `serde_json::to_vec`, which renders a vector of values as one
/// JSON array; the bytes depend on the values alone.
#[verifier::external_body]
pub(crate) fn values_to_json_bytes(items: &Vec<serde_json::Value>) -> (r: Vec<u8>)
    ensures
        r@ == json_encoding(items@),
{
    serde_json::to_vec(items).unwrap_or_default()
}

/// A value that may not appear inside a flat configuration.
pub open spec fn is_container(v: serde_json::Value) -> bool {
    value_kind(v) == ValueKind::Array || value_kind(v) == ValueKind::Object
}

/// A sequence of values is flat when none of them is an array or an object.
pub open spec fn is_flat(s: Seq<serde_json::Value>) -> bool {
    forall|i: int| 0 <= i < s.len() ==> !is_container(#[trigger] s[i])
}

/// Whether `item` is an array or an object, checked in executable code.
pub fn value_is_container(item: &serde_json::Value) -> (r: bool)
    ensures
        r == is_container(*item),
{
    let k = kind_of_value(item);
    k == ValueKind::Array || k == ValueKind::Object
}

/// Flat JSON array of scalar values.
///
/// Used both for configurations and for the schemas they are checked
/// against.  The flatness invariant, [`JsonArray::wf`], is established by
/// every constructor and preserved by every method: a violating insert is
/// rejected, never coerced.
#[derive(Debug)]
pub struct JsonArray {
    items: Vec<serde_json::Value>,
}

/// Configuration of a resource.
pub type ResConfig = JsonArray;

/// A resource's state: an opaque byte sequence.
///
/// No component other than the resource that produced it interprets its
/// contents; the framework only moves and compares it.
pub type ResState = Vec<u8>;

impl View for JsonArray {
    type V = Seq<serde_json::Value>;

    closed spec fn view(&self) -> Seq<serde_json::Value> {
        self.items@
    }
}

impl Default for JsonArray {
    /// An empty array.
    fn default() -> (r: Self)
        ensures
            r@ == Seq::<serde_json::Value>::empty(),
            r.wf(),
    {
        JsonArray::new()
    }
}

impl Clone for JsonArray {
    /// Cloning preserves the contents exactly.
    fn clone(&self) -> (r: Self)
        ensures
            r@ == self@,
    {
        let mut items: Vec<serde_json::Value> = Vec::new();
        let mut i: usize = 0;
        while i < self.items.len()
            invariant
                i <= self.items.len(),
                items@ == self.items@.take(i as int),
            decreases self.items.len() - i,
        {
            items.push(clone_value(&self.items[i]));
            i = i + 1;
            proof {
                assert(items@ == self.items@.take(i as int));
            }
        }
        proof {
            assert(self.items@.take(self.items@.len() as int) == self.items@);
        }
        JsonArray { items }
    }
}

impl JsonArray {
    /// The flatness invariant: no element is an array or an object.
    pub open spec fn wf(&self) -> bool {
        is_flat(self@)
    }

    /// Construct a new, empty JSON array.
    pub fn new() -> (r: Self)
        ensures
            r@ == Seq::<serde_json::Value>::empty(),
            r.wf(),
    {
        JsonArray { items: Vec::new() }
    }

    /// Convert an ordered collection of JSON values into a flat JSON array;
    /// rejected if any value is an array or an object.
    pub fn from_values(items: Vec<serde_json::Value>) -> (r: Option<Self>)
        ensures
            (r is Some) == is_flat(items@),
            r matches Some(a) ==> a@ == items@ && a.wf(),
    {
        let mut i: usize = 0;
        while i < items.len()
            invariant
                i <= items.len(),
                forall|j: int| 0 <= j < i ==> !is_container(#[trigger] items@[j]),
            decreases items.len() - i,
        {
            if value_is_container(&items[i]) {
                return None;
            }
            i = i + 1;
        }
        Some(JsonArray { items })
    }

    /// Wrap a JSON value as a flat array, as long as it is an array with no
    /// nested arrays or objects.
    pub fn from_value(item: serde_json::Value) -> (r: Option<Self>)
        ensures
            (r is Some) == (value_kind(item) == ValueKind::Array && is_flat(elems_of(item))),
            r matches Some(a) ==> a@ == elems_of(item) && a.wf(),
    {
        match value_into_elems(item) {
            Some(items) => Self::from_values(items),
            None => None,
        }
    }

    /// Returns a slice of the contained JSON values.
    pub fn as_slice(&self) -> (r: &[serde_json::Value])
        ensures
            r@ == self@,
    {
        self.items.as_slice()
    }

    /// The array's length.
    pub fn len(&self) -> (r: usize)
        ensures
            r == self@.len(),
    {
        self.items.len()
    }

    /// Whether the array is empty.
    pub fn is_empty(&self) -> (r: bool)
        ensures
            r == (self@.len() == 0),
    {
        self.items.len() == 0
    }

    /// A borrow of the element at `index`.
    pub fn get(&self, index: usize) -> (r: &serde_json::Value)
        requires
            index < self@.len(),
        ensures
            *r == self@[index as int],
    {
        &self.items[index]
    }

    /// Serialize into the canonical JSON byte encoding.
    pub fn as_byte_vec(&self) -> (r: Vec<u8>)
        ensures
            r@ == json_encoding(self@),
    {
        values_to_json_bytes(&self.items)
    }

    /// Push `item` onto the array as long as it is not an array or an
    /// object; returns `None`, changing nothing, otherwise.
    pub fn push(&mut self, item: serde_json::Value) -> (r: Option<()>)
        ensures
            is_container(item) ==> r is None && final(self)@ == old(self)@,
            !is_container(item) ==> r == Some(()) && final(self)@ == old(self)@.push(item),
            old(self).wf() ==> final(self).wf(),
    {
        if value_is_container(&item) {
            None
        } else {
            self.items.push(item);
            Some(())
        }
    }

    /// Remove and return the last element, if any.
    pub fn pop(&mut self) -> (r: Option<serde_json::Value>)
        ensures
            old(self)@.len() == 0 ==> r is None && final(self)@ == old(self)@,
            old(self)@.len() > 0 ==> r == Some(old(self)@.last()) && final(self)@ == old(
                self,
            )@.drop_last(),
            old(self).wf() ==> final(self).wf(),
    {
        proof {
            if old(self)@.len() > 0 && old(self).wf() {
                assert(is_flat(self@.drop_last()));
            }
        }
        self.items.pop()
    }

    /// Insert `element` at `index` as long as it is not an array or an
    /// object; returns `None`, changing nothing, otherwise.
    pub fn insert(&mut self, index: usize, element: serde_json::Value) -> (r: Option<()>)
        requires
            index <= old(self)@.len(),
        ensures
            is_container(element) ==> r is None && final(self)@ == old(self)@,
            !is_container(element) ==> r == Some(()) && final(self)@ == old(self)@.insert(
                index as int,
                element,
            ),
            old(self).wf() ==> final(self).wf(),
    {
        if value_is_container(&element) {
            return None;
        }
        self.items.insert(index, element);
        Some(())
    }

    /// Remove and return the element at `index`.
    pub fn remove(&mut self, index: usize) -> (r: serde_json::Value)
        requires
            index < old(self)@.len(),
        ensures
            r == old(self)@[index as int],
            final(self)@ == old(self)@.remove(index as int),
            old(self).wf() ==> final(self).wf(),
    {
        self.items.remove(index)
    }

    /// Clone and push each element of `items`, stopping at the first one
    /// that is an array or an object.
    ///
    /// On success returns how many elements were pushed; on failure returns
    /// the offending index, and the elements before it remain appended.
    pub fn extend_from_slice(&mut self, items: &[serde_json::Value]) -> (r: Result<usize, usize>)
        ensures
            is_flat(items@) ==> r == Ok::<usize, usize>(items@.len() as usize) && final(self)@
                == old(self)@ + items@,
            !is_flat(items@) ==> (r matches Err(j) && 0 <= j < items@.len() && is_container(
                items@[j as int],
            ) && is_flat(items@.take(j as int)) && final(self)@ == old(self)@ + items@.take(
                j as int,
            )),
            old(self).wf() ==> final(self).wf(),
    {
        let ghost orig = self@;
        let mut i: usize = 0;
        while i < items.len()
            invariant
                i <= items.len(),
                orig == old(self)@,
                self@ == orig + items@.take(i as int),
                is_flat(items@.take(i as int)),
            decreases items.len() - i,
        {
            if value_is_container(&items[i]) {
                proof {
                    assert(!is_flat(items@));
                    lemma_flat_concat(orig, items@.take(i as int));
                }
                return Err(i);
            }
            self.items.push(clone_value(&items[i]));
            i = i + 1;
            proof {
                assert(items@.take(i as int) == items@.take(i as int - 1).push(
                    items@[i as int - 1],
                ));
            }
        }
        proof {
            assert(items@.take(items@.len() as int) == items@);
            lemma_flat_concat(orig, items@);
        }
        Ok(i)
    }
}

/// Appending one flat sequence to another gives a flat sequence.
proof fn lemma_flat_concat(a: Seq<serde_json::Value>, b: Seq<serde_json::Value>)
    ensures
        is_flat(a) && is_flat(b) ==> is_flat(a + b),
{
    if is_flat(a) && is_flat(b) {
        assert forall|i: int| 0 <= i < (a + b).len() implies !is_container(#[trigger] (a + b)[i]) by {
            if i < a.len() {
                assert((a + b)[i] == a[i]);
            } else {
                assert((a + b)[i] == b[i - a.len()]);
            }
        }
    }
}

} // verus!
