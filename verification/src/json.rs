//! An owned model of already-parsed JSON data.
//!
//! The parsers of this crate take a [`JsonValue`] tree as input: raw-text JSON
//! lexing is the caller's concern. At the specification level a tree is
//! described by [`JsonModel`], whose strings are character sequences, so that
//! contracts can speak about field lookups and the canonical text form.

use vstd::prelude::*;

verus! {

/// An untyped JSON-like value: object, array, string, integer, boolean or null.
///
/// Objects keep their key/value pairs in insertion order; a lookup returns the
/// first pair with a matching key. Numbers are modeled as 64-bit integers,
/// signed or unsigned.
#[derive(Debug, PartialEq)]
pub enum JsonValue {
    Null,
    Bool(bool),
    Int(i64),
    UInt(u64),
    Str(String),
    Array(Vec<JsonValue>),
    Object(Vec<(String, JsonValue)>),
}

/// The specification-level shape of a [`JsonValue`] tree.
pub enum JsonModel {
    Null,
    Bool(bool),
    Int(i64),
    UInt(u64),
    Str(Seq<char>),
    Array(Seq<JsonModel>),
    Object(Seq<(Seq<char>, JsonModel)>),
}

impl View for JsonValue {
    type V = JsonModel;

    open spec fn view(&self) -> JsonModel
        decreases self, 2int, 0int,
    {
        match self {
            JsonValue::Null => JsonModel::Null,
            JsonValue::Bool(b) => JsonModel::Bool(*b),
            JsonValue::Int(n) => JsonModel::Int(*n),
            JsonValue::UInt(n) => JsonModel::UInt(*n),
            JsonValue::Str(s) => JsonModel::Str(s@),
            JsonValue::Array(items) => JsonModel::Array(item_models(items@, 0)),
            JsonValue::Object(fields) => JsonModel::Object(field_models(fields@, 0)),
        }
    }
}

/// The models of the array elements of `items` from position `i` on.
pub open spec fn item_models(items: Seq<JsonValue>, i: int) -> Seq<JsonModel>
    decreases items, 1int, items.len() - i,
{
    if i < 0 || i >= items.len() {
        Seq::empty()
    } else {
        seq![items[i]@] + item_models(items, i + 1)
    }
}

/// The models of the object fields of `fields` from position `i` on.
pub open spec fn field_models(
    fields: Seq<(String, JsonValue)>,
    i: int,
) -> Seq<(Seq<char>, JsonModel)>
    decreases fields, 1int, fields.len() - i,
{
    if i < 0 || i >= fields.len() {
        Seq::empty()
    } else {
        seq![(fields[i].0@, fields[i].1@)] + field_models(fields, i + 1)
    }
}

/// `item_models` walks the elements one by one, in order.
pub proof fn lemma_item_models(items: Seq<JsonValue>, i: int)
    requires
        0 <= i <= items.len(),
    ensures
        item_models(items, i).len() == items.len() - i,
        forall|j: int| i <= j < items.len() ==> item_models(items, i)[j - i] == items[j]@,
    decreases items.len() - i,
{
    if i < items.len() {
        lemma_item_models(items, i + 1);
        assert forall|j: int| i <= j < items.len() implies item_models(items, i)[j - i]
            == items[j]@ by {
            assert(item_models(items, i) == seq![items[i]@] + item_models(items, i + 1));
            if j > i {
                assert(item_models(items, i)[j - i] == item_models(items, i + 1)[j - i - 1]);
            }
        }
    }
}

/// `field_models` walks the fields one by one, in order.
pub proof fn lemma_field_models(fields: Seq<(String, JsonValue)>, i: int)
    requires
        0 <= i <= fields.len(),
    ensures
        field_models(fields, i).len() == fields.len() - i,
        forall|j: int|
            i <= j < fields.len() ==> field_models(fields, i)[j - i] == (
                fields[j].0@,
                fields[j].1@,
            ),
    decreases fields.len() - i,
{
    if i < fields.len() {
        lemma_field_models(fields, i + 1);
        assert forall|j: int| i <= j < fields.len() implies field_models(fields, i)[j - i] == (
            fields[j].0@,
            fields[j].1@,
        ) by {
            assert(field_models(fields, i) == seq![(fields[i].0@, fields[i].1@)] + field_models(
                fields,
                i + 1,
            ));
            if j > i {
                assert(field_models(fields, i)[j - i] == field_models(fields, i + 1)[j - i - 1]);
            }
        }
    }
}

/// The value of the first pair of `fields` at or after position `i` whose key
/// is `key`, if any.
pub open spec fn obj_lookup_from(
    fields: Seq<(Seq<char>, JsonModel)>,
    key: Seq<char>,
    i: int,
) -> Option<JsonModel>
    decreases fields.len() - i,
{
    if i < 0 || i >= fields.len() {
        None
    } else if fields[i].0 == key {
        Some(fields[i].1)
    } else {
        obj_lookup_from(fields, key, i + 1)
    }
}

/// Field lookup on a value: `None` unless the value is an object holding `key`.
pub open spec fn spec_get(v: JsonModel, key: Seq<char>) -> Option<JsonModel> {
    match v {
        JsonModel::Object(fields) => obj_lookup_from(fields, key, 0),
        _ => None,
    }
}

/// The characters of a value, if it is a string.
pub open spec fn spec_as_str(v: JsonModel) -> Option<Seq<char>> {
    match v {
        JsonModel::Str(s) => Some(s),
        _ => None,
    }
}

/// The value as a signed 64-bit integer: a signed number directly, an unsigned
/// number when it fits, nothing otherwise.
pub open spec fn spec_as_i64(v: JsonModel) -> Option<i64> {
    match v {
        JsonModel::Int(n) => Some(n),
        JsonModel::UInt(n) => if n <= i64::MAX as u64 {
            Some(n as i64)
        } else {
            None
        },
        _ => None,
    }
}

/// The elements of a value, if it is an array.
pub open spec fn spec_as_array(v: JsonModel) -> Option<Seq<JsonModel>> {
    match v {
        JsonModel::Array(items) => Some(items),
        _ => None,
    }
}

/// Whether the value is an object holding the key `key`.
pub open spec fn spec_has_key(v: JsonModel, key: Seq<char>) -> bool {
    spec_get(v, key) is Some
}

/// The characters of the string under key `key` of object `v`: the key must be
/// present and hold a string.
pub open spec fn spec_str_field(v: JsonModel, key: Seq<char>) -> Option<Seq<char>> {
    match spec_get(v, key) {
        Some(field) => spec_as_str(field),
        None => None,
    }
}

impl JsonValue {
    /// Looks `key` up in an object, returning the first matching pair's value.
    /// Returns `None` when `self` is not an object or holds no such key.
    pub fn get<'a>(&'a self, key: &str) -> (r: Option<&'a JsonValue>)
        ensures
            match r {
                Some(found) => spec_get(self@, key@) == Some(found@),
                None => spec_get(self@, key@) is None,
            },
    {
        let key_string: String = key.to_owned();
        match self {
            JsonValue::Object(fields) => {
                let ghost gfields = field_models(fields@, 0);
                proof {
                    lemma_field_models(fields@, 0);
                }
                let mut i: usize = 0;
                while i < fields.len()
                    invariant
                        0 <= i <= fields.len(),
                        gfields == field_models(fields@, 0),
                        gfields.len() == fields@.len(),
                        forall|j: int|
                            0 <= j < fields@.len() ==> gfields[j] == (fields@[j].0@, fields@[j].1@),
                        self@ == JsonModel::Object(gfields),
                        key_string@ == key@,
                        obj_lookup_from(gfields, key@, 0) == obj_lookup_from(
                            gfields,
                            key@,
                            i as int,
                        ),
                    decreases fields.len() - i,
                {
                    if fields[i].0 == key_string {
                        return Some(&fields[i].1);
                    }
                    i = i + 1;
                }
                None
            },
            _ => None,
        }
    }

    /// Borrows the characters of a string value.
    pub fn as_str(&self) -> (r: Option<&str>)
        ensures
            match r {
                Some(s) => spec_as_str(self@) == Some(s@),
                None => spec_as_str(self@) is None,
            },
    {
        match self {
            JsonValue::Str(s) => Some(s.as_str()),
            _ => None,
        }
    }

    /// Reads the value as a signed 64-bit integer, if it is a number that fits.
    pub fn as_i64(&self) -> (r: Option<i64>)
        ensures
            r == spec_as_i64(self@),
    {
        match self {
            JsonValue::Int(n) => Some(*n),
            JsonValue::UInt(n) => {
                if *n <= i64::MAX as u64 {
                    Some(*n as i64)
                } else {
                    None
                }
            },
            _ => None,
        }
    }

    /// Borrows the elements of an array value.
    pub fn as_array(&self) -> (r: Option<&Vec<JsonValue>>)
        ensures
            match r {
                Some(items) => spec_as_array(self@) == Some(item_models(items@, 0)),
                None => spec_as_array(self@) is None,
            },
    {
        match self {
            JsonValue::Array(items) => Some(items),
            _ => None,
        }
    }

    /// Whether the value is an object holding the key `key`.
    pub fn contains_key(&self, key: &str) -> (r: bool)
        ensures
            r == spec_has_key(self@, key@),
    {
        self.get(key).is_some()
    }

    /// Borrows the characters of the string under key `key`: `None` when the
    /// key is absent or holds no string.
    pub fn get_str<'a>(&'a self, key: &str) -> (r: Option<&'a str>)
        ensures
            match r {
                Some(s) => spec_str_field(self@, key@) == Some(s@),
                None => spec_str_field(self@, key@) is None,
            },
    {
        match self.get(key) {
            Some(field) => field.as_str(),
            None => None,
        }
    }

    /// Whether the value is an object.
    pub fn is_object(&self) -> (r: bool)
        ensures
            r == (self@ is Object),
    {
        match self {
            JsonValue::Object(_) => true,
            _ => false,
        }
    }
}

impl Clone for JsonValue {
    /// A deep copy with the same model.
    #[verifier::loop_isolation(false)]
    fn clone(&self) -> (res: Self)
        ensures
            res@ == self@,
        decreases self,
    {
        match self {
            JsonValue::Null => JsonValue::Null,
            JsonValue::Bool(b) => JsonValue::Bool(*b),
            JsonValue::Int(n) => JsonValue::Int(*n),
            JsonValue::UInt(n) => JsonValue::UInt(*n),
            JsonValue::Str(s) => JsonValue::Str(s.clone()),
            JsonValue::Array(items) => {
                let mut copies: Vec<JsonValue> = Vec::new();
                let mut i: usize = 0;
                while i < items.len()
                    invariant
                        0 <= i <= items.len(),
                        copies@.len() == i,
                        forall|j: int| 0 <= j < i ==> (#[trigger] copies@[j])@ == items@[j]@,
                    decreases items.len() - i,
                {
                    copies.push(items[i].clone());
                    i = i + 1;
                }
                let res = JsonValue::Array(copies);
                proof {
                    lemma_item_models_congruent(copies@, items@);
                }
                res
            },
            JsonValue::Object(fields) => {
                let mut copies: Vec<(String, JsonValue)> = Vec::new();
                let mut i: usize = 0;
                while i < fields.len()
                    invariant
                        0 <= i <= fields.len(),
                        copies@.len() == i,
                        forall|j: int|
                            0 <= j < i ==> (#[trigger] copies@[j]).0@ == fields@[j].0@
                                && copies@[j].1@ == fields@[j].1@,
                    decreases fields.len() - i,
                {
                    let field = &fields[i];
                    copies.push((field.0.clone(), field.1.clone()));
                    i = i + 1;
                }
                let res = JsonValue::Object(copies);
                proof {
                    lemma_field_models_congruent(copies@, fields@);
                }
                res
            },
        }
    }
}

/// Sequences of elements with equal models have equal model sequences.
pub proof fn lemma_item_models_congruent(a: Seq<JsonValue>, b: Seq<JsonValue>)
    requires
        a.len() == b.len(),
        forall|j: int| 0 <= j < a.len() ==> (#[trigger] a[j])@ == b[j]@,
    ensures
        item_models(a, 0) == item_models(b, 0),
{
    lemma_item_models(a, 0);
    lemma_item_models(b, 0);
    assert forall|j: int| 0 <= j < a.len() implies #[trigger] item_models(a, 0)[j] == item_models(
        b,
        0,
    )[j] by {
        assert(item_models(a, 0)[j - 0] == a[j]@);
        assert(item_models(b, 0)[j - 0] == b[j]@);
    }
    assert(item_models(a, 0) =~= item_models(b, 0));
}

/// Sequences of fields with equal key texts and value models have equal model
/// sequences.
pub proof fn lemma_field_models_congruent(a: Seq<(String, JsonValue)>, b: Seq<(String, JsonValue)>)
    requires
        a.len() == b.len(),
        forall|j: int|
            0 <= j < a.len() ==> (#[trigger] a[j]).0@ == b[j].0@ && a[j].1@ == b[j].1@,
    ensures
        field_models(a, 0) == field_models(b, 0),
{
    lemma_field_models(a, 0);
    lemma_field_models(b, 0);
    assert forall|j: int| 0 <= j < a.len() implies #[trigger] field_models(a, 0)[j] == field_models(
        b,
        0,
    )[j] by {
        assert(field_models(a, 0)[j - 0] == (a[j].0@, a[j].1@));
        assert(field_models(b, 0)[j - 0] == (b[j].0@, b[j].1@));
    }
    assert(field_models(a, 0) =~= field_models(b, 0));
}

} // verus!
