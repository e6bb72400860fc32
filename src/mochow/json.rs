use vstd::prelude::*;
use vstd::string::*;

verus! {

/// A 64-bit float held by its IEEE-754 bit pattern; the library carries such
/// values without computing on them.
#[derive(Debug, Clone, Copy, PartialEq, Eq, Structural)]
pub struct FloatBits {
    pub bits: u64,
}

/// A JSON document: the bodies of requests and responses.
/// Numbers are integers or floats; an object keeps its entries in order.
#[derive(Debug)]
pub enum JsonValue {
    Null,
    Bool(bool),
    Int(i128),
    Float(FloatBits),
    Str(String),
    Array(Vec<JsonValue>),
    Object(Vec<(String, JsonValue)>),
}

/// The value of the first entry named `key`.
pub open spec fn lookup(es: Seq<(String, JsonValue)>, key: Seq<char>) -> Option<JsonValue>
    decreases es.len(),
{
    if es.len() == 0 {
        None
    } else if es[0].0@ == key {
        Some(es[0].1)
    } else {
        lookup(es.drop_first(), key)
    }
}

/// The member `key` of an object; nothing for other values.
pub open spec fn field(j: JsonValue, key: Seq<char>) -> Option<JsonValue> {
    match j {
        JsonValue::Object(es) => lookup(es@, key),
        _ => None,
    }
}

/// The member `key` when it is a string.
pub open spec fn str_at(j: JsonValue, key: Seq<char>) -> Option<Seq<char>> {
    match field(j, key) {
        Some(JsonValue::Str(s)) => Some(s@),
        _ => None,
    }
}

/// The member `key` when it is an integer.
pub open spec fn int_at(j: JsonValue, key: Seq<char>) -> Option<int> {
    match field(j, key) {
        Some(JsonValue::Int(n)) => Some(n as int),
        _ => None,
    }
}

/// The member `key` when it is a boolean.
pub open spec fn bool_at(j: JsonValue, key: Seq<char>) -> Option<bool> {
    match field(j, key) {
        Some(JsonValue::Bool(b)) => Some(b),
        _ => None,
    }
}

/// The member `key` when it is a float.
pub open spec fn float_at(j: JsonValue, key: Seq<char>) -> Option<FloatBits> {
    match field(j, key) {
        Some(JsonValue::Float(f)) => Some(f),
        _ => None,
    }
}

/// The member `key` when it is an array of strings.
pub open spec fn strs_at(j: JsonValue, key: Seq<char>) -> Option<Seq<Seq<char>>> {
    match field(j, key) {
        Some(JsonValue::Array(a)) => if forall|i: int| 0 <= i < a@.len() ==> a@[i] is Str {
            Some(Seq::new(a@.len(), |i: int| a@[i]->Str_0@))
        } else {
            None
        },
        _ => None,
    }
}

/// The entries of an object; none for other values.
pub open spec fn entries(j: JsonValue) -> Seq<(String, JsonValue)> {
    match j {
        JsonValue::Object(es) => es@,
        _ => Seq::empty(),
    }
}

/// A member named `key` whose value is the string `s`.
pub open spec fn is_str_entry(e: (String, JsonValue), key: Seq<char>, s: Seq<char>) -> bool {
    &&& e.0@ == key
    &&& e.1 matches JsonValue::Str(t) && t@ == s
}

/// An object whose members are, in order, the strings `vals` under the names `keys`.
pub open spec fn is_str_object(j: JsonValue, keys: Seq<Seq<char>>, vals: Seq<Seq<char>>) -> bool {
    &&& j is Object
    &&& entries(j).len() == keys.len()
    &&& keys.len() == vals.len()
    &&& forall|i: int| 0 <= i < keys.len() ==> is_str_entry(#[trigger] entries(j)[i], keys[i], vals[i])
}

/// A member named `key` whose value is `v`.
pub open spec fn is_entry(e: (String, JsonValue), key: Seq<char>, v: JsonValue) -> bool {
    e.0@ == key && e.1 == v
}

/// The member `key` when it is an integer that fits in 32 bits without sign.
pub open spec fn u32_at(j: JsonValue, key: Seq<char>) -> Option<u32> {
    match int_at(j, key) {
        Some(n) => if 0 <= n <= u32::MAX {
            Some(n as u32)
        } else {
            None
        },
        None => None,
    }
}

/// The member `key` when it is an integer that fits in 64 bits without sign.
pub open spec fn u64_at(j: JsonValue, key: Seq<char>) -> Option<u64> {
    match int_at(j, key) {
        Some(n) => if 0 <= n <= u64::MAX {
            Some(n as u64)
        } else {
            None
        },
        None => None,
    }
}

/// The member `key` when it is an integer that fits in 32 bits.
pub open spec fn i32_at(j: JsonValue, key: Seq<char>) -> Option<i32> {
    match int_at(j, key) {
        Some(n) => if i32::MIN <= n <= i32::MAX {
            Some(n as i32)
        } else {
            None
        },
        None => None,
    }
}

/// The member `key` when it is an integer that fits in 32 bits without sign.
pub fn read_u32(j: &JsonValue, key: &str) -> (r: Option<u32>)
    ensures
        r == u32_at(*j, key@),
{
    match read_int(j, key) {
        Some(n) => if 0 <= n && n <= u32::MAX as i128 {
            Some(n as u32)
        } else {
            None
        },
        None => None,
    }
}

/// The member `key` when it is an integer that fits in 64 bits without sign.
pub fn read_u64(j: &JsonValue, key: &str) -> (r: Option<u64>)
    ensures
        r == u64_at(*j, key@),
{
    match read_int(j, key) {
        Some(n) => if 0 <= n && n <= u64::MAX as i128 {
            Some(n as u64)
        } else {
            None
        },
        None => None,
    }
}

/// The member `key` when it is an integer that fits in 32 bits.
pub fn read_i32(j: &JsonValue, key: &str) -> (r: Option<i32>)
    ensures
        r == i32_at(*j, key@),
{
    match read_int(j, key) {
        Some(n) => if i32::MIN as i128 <= n && n <= i32::MAX as i128 {
            Some(n as i32)
        } else {
            None
        },
        None => None,
    }
}

/// 1 for a present value, 0 for none.
pub open spec fn opt_len<T>(o: Option<T>) -> int {
    if o is Some {
        1
    } else {
        0
    }
}

/// A string member that defaults to empty: `None` when present with another type.
pub open spec fn text_or_empty(j: JsonValue, key: Seq<char>) -> Option<Seq<char>> {
    match field(j, key) {
        None => Some(Seq::empty()),
        Some(JsonValue::Str(s)) => Some(s@),
        _ => None,
    }
}

/// A boolean member that defaults to false.
pub open spec fn bool_or_false(j: JsonValue, key: Seq<char>) -> Option<bool> {
    match field(j, key) {
        None => Some(false),
        Some(JsonValue::Bool(b)) => Some(b),
        _ => None,
    }
}

/// An unsigned 64-bit member that defaults to 0.
pub open spec fn u64_or_zero(j: JsonValue, key: Seq<char>) -> Option<u64> {
    match field(j, key) {
        None => Some(0),
        Some(JsonValue::Int(n)) => if 0 <= n <= u64::MAX {
            Some(n as u64)
        } else {
            None
        },
        _ => None,
    }
}

/// A float member that defaults to 0.0.
pub open spec fn float_or_zero(j: JsonValue, key: Seq<char>) -> Option<FloatBits> {
    match field(j, key) {
        None => Some(FloatBits { bits: 0 }),
        Some(JsonValue::Float(f)) => Some(f),
        _ => None,
    }
}

/// An optional unsigned 64-bit member: absent or null is `Some(None)`.
pub open spec fn opt_u64_at(j: JsonValue, key: Seq<char>) -> Option<Option<u64>> {
    match field(j, key) {
        None => Some(None),
        Some(JsonValue::Null) => Some(None),
        Some(JsonValue::Int(n)) => if 0 <= n <= u64::MAX {
            Some(Some(n as u64))
        } else {
            None
        },
        _ => None,
    }
}

/// An optional unsigned 32-bit member: absent or null is `Some(None)`.
pub open spec fn opt_u32_at(j: JsonValue, key: Seq<char>) -> Option<Option<u32>> {
    match field(j, key) {
        None => Some(None),
        Some(JsonValue::Null) => Some(None),
        Some(JsonValue::Int(n)) => if 0 <= n <= u32::MAX {
            Some(Some(n as u32))
        } else {
            None
        },
        _ => None,
    }
}

/// An optional string member: absent or null is `Some(None)`.
pub open spec fn opt_text_at(j: JsonValue, key: Seq<char>) -> Option<Option<Seq<char>>> {
    match field(j, key) {
        None => Some(None),
        Some(JsonValue::Null) => Some(None),
        Some(JsonValue::Str(s)) => Some(Some(s@)),
        _ => None,
    }
}

/// An optional member given by a name that `parse` reads: `Some(None)` when
/// absent or null, `None` when present with another type or a name `parse` refuses.
pub open spec fn opt_name_at<T>(j: JsonValue, key: Seq<char>, parse: spec_fn(Seq<char>) -> Option<T>) -> Option<Option<T>> {
    match opt_text_at(j, key) {
        Some(None) => Some(None),
        Some(Some(s)) => match parse(s) {
            Some(t) => Some(Some(t)),
            None => None,
        },
        None => None,
    }
}

/// Whether an optional member is absent or null.
pub open spec fn absent_or_null(j: JsonValue, key: Seq<char>) -> bool {
    field(j, key) is None || field(j, key) == Some(JsonValue::Null)
}

pub fn read_text_or_empty(j: &JsonValue, key: &str) -> (r: Option<String>)
    ensures
        match r {
            Some(s) => text_or_empty(*j, key@) == Some(s@),
            None => text_or_empty(*j, key@) is None,
        },
{
    match get_field(j, key) {
        None => Some(String::new()),
        Some(JsonValue::Str(s)) => Some(s.clone()),
        _ => None,
    }
}

pub fn read_bool_or_false(j: &JsonValue, key: &str) -> (r: Option<bool>)
    ensures
        r == bool_or_false(*j, key@),
{
    match get_field(j, key) {
        None => Some(false),
        Some(JsonValue::Bool(b)) => Some(*b),
        _ => None,
    }
}

pub fn read_u64_or_zero(j: &JsonValue, key: &str) -> (r: Option<u64>)
    ensures
        r == u64_or_zero(*j, key@),
{
    match get_field(j, key) {
        None => Some(0),
        Some(JsonValue::Int(n)) => if 0 <= *n && *n <= u64::MAX as i128 {
            Some(*n as u64)
        } else {
            None
        },
        _ => None,
    }
}

pub fn read_float_or_zero(j: &JsonValue, key: &str) -> (r: Option<FloatBits>)
    ensures
        r == float_or_zero(*j, key@),
{
    match get_field(j, key) {
        None => Some(FloatBits { bits: 0 }),
        Some(JsonValue::Float(f)) => Some(*f),
        _ => None,
    }
}

pub fn read_opt_u64(j: &JsonValue, key: &str) -> (r: Option<Option<u64>>)
    ensures
        r == opt_u64_at(*j, key@),
{
    match get_field(j, key) {
        None => Some(None),
        Some(JsonValue::Null) => Some(None),
        Some(JsonValue::Int(n)) => if 0 <= *n && *n <= u64::MAX as i128 {
            Some(Some(*n as u64))
        } else {
            None
        },
        _ => None,
    }
}

pub fn read_opt_u32(j: &JsonValue, key: &str) -> (r: Option<Option<u32>>)
    ensures
        r == opt_u32_at(*j, key@),
{
    match get_field(j, key) {
        None => Some(None),
        Some(JsonValue::Null) => Some(None),
        Some(JsonValue::Int(n)) => if 0 <= *n && *n <= u32::MAX as i128 {
            Some(Some(*n as u32))
        } else {
            None
        },
        _ => None,
    }
}

pub fn read_opt_text(j: &JsonValue, key: &str) -> (r: Option<Option<String>>)
    ensures
        match r {
            Some(Some(s)) => opt_text_at(*j, key@) == Some(Some(s@)),
            Some(None) => opt_text_at(*j, key@) == Some(None::<Seq<char>>),
            None => opt_text_at(*j, key@) is None,
        },
{
    match get_field(j, key) {
        None => Some(None),
        Some(JsonValue::Null) => Some(None),
        Some(JsonValue::Str(s)) => Some(Some(s.clone())),
        _ => None,
    }
}

/// The member `key` unless it is absent or null.
pub fn get_present<'a>(j: &'a JsonValue, key: &str) -> (r: Option<&'a JsonValue>)
    ensures
        match r {
            Some(v) => field(*j, key@) == Some(*v) && *v != JsonValue::Null,
            None => absent_or_null(*j, key@),
        },
{
    match get_field(j, key) {
        None => None,
        Some(JsonValue::Null) => None,
        Some(v) => Some(v),
    }
}

/// Whether a value is an object.
pub fn is_object(j: &JsonValue) -> (r: bool)
    ensures
        r == j is Object,
{
    match j {
        JsonValue::Object(_) => true,
        _ => false,
    }
}

/// An array whose items are the strings `items`, in order.
pub open spec fn is_str_array(v: JsonValue, items: Seq<String>) -> bool {
    v matches JsonValue::Array(a) && a@.len() == items.len() && forall|i: int|
        0 <= i < items.len() ==> a@[i] == JsonValue::Str(items[i])
}

/// An array whose items are the floats `items`, in order.
pub open spec fn is_float_array(v: JsonValue, items: Seq<FloatBits>) -> bool {
    v matches JsonValue::Array(a) && a@.len() == items.len() && forall|i: int|
        0 <= i < items.len() ==> a@[i] == JsonValue::Float(items[i])
}

/// An array of arrays of floats, in order.
pub open spec fn is_float_matrix(v: JsonValue, items: Seq<Vec<FloatBits>>) -> bool {
    v matches JsonValue::Array(a) && a@.len() == items.len() && forall|i: int|
        0 <= i < items.len() ==> is_float_array(#[trigger] a@[i], items[i]@)
}

/// The floats as an array.
pub fn float_array(items: &Vec<FloatBits>) -> (r: JsonValue)
    ensures
        is_float_array(r, items@),
{
    let mut out: Vec<JsonValue> = Vec::new();
    let mut i: usize = 0;
    while i < items.len()
        invariant
            i <= items@.len(),
            out@.len() == i,
            forall|k: int| 0 <= k < i ==> out@[k] == JsonValue::Float(items@[k]),
        decreases items@.len() - i,
    {
        out.push(JsonValue::Float(items[i]));
        i = i + 1;
    }
    JsonValue::Array(out)
}

/// The rows of floats as an array of arrays.
pub fn float_matrix(items: &Vec<Vec<FloatBits>>) -> (r: JsonValue)
    ensures
        is_float_matrix(r, items@),
{
    let mut out: Vec<JsonValue> = Vec::new();
    let mut i: usize = 0;
    while i < items.len()
        invariant
            i <= items@.len(),
            out@.len() == i,
            forall|k: int| 0 <= k < i ==> is_float_array(#[trigger] out@[k], items@[k]@),
        decreases items@.len() - i,
    {
        out.push(float_array(&items[i]));
        i = i + 1;
    }
    JsonValue::Array(out)
}

/// `distanceFar` at `p` when `far` is set, then `distanceNear` when `near` is.
pub open spec fn has_distances(
    es: Seq<(String, JsonValue)>,
    p: int,
    far: Option<FloatBits>,
    near: Option<FloatBits>,
) -> bool {
    &&& (far matches Some(f) ==> is_entry(es[p], "distanceFar"@, JsonValue::Float(f)))
    &&& (near matches Some(n) ==> is_entry(es[p + opt_len(far)], "distanceNear"@, JsonValue::Float(n)))
}

/// Appends the members of a range search: `distanceFar`, then `distanceNear`, when set.
pub fn push_distances(es: &mut Vec<(String, JsonValue)>, far: Option<FloatBits>, near: Option<FloatBits>)
    ensures
        final(es)@.len() == old(es)@.len() + opt_len(far) + opt_len(near),
        forall|i: int| 0 <= i < old(es)@.len() ==> final(es)@[i] == old(es)@[i],
        has_distances(final(es)@, old(es)@.len() as int, far, near),
{
    match far {
        Some(f) => es.push(entry("distanceFar", JsonValue::Float(f))),
        None => {},
    }
    match near {
        Some(n) => es.push(entry("distanceNear", JsonValue::Float(n))),
        None => {},
    }
}

/// Whether two texts are equal.
pub fn same_text(a: &str, b: &str) -> (r: bool)
    ensures
        r == (a@ == b@),
{
    let x = String::from_str(a);
    let y = String::from_str(b);
    x == y
}

/// The first entry named `key` is the one found.
pub proof fn lemma_lookup_first(es: Seq<(String, JsonValue)>, key: Seq<char>, k: int)
    requires
        0 <= k < es.len(),
        es[k].0@ == key,
        forall|i: int| 0 <= i < k ==> es[i].0@ != key,
    ensures
        lookup(es, key) == Some(es[k].1),
    decreases k,
{
    if k > 0 {
        assert(forall|i: int| 0 <= i < k - 1 ==> es.drop_first()[i] == es[i + 1]);
        lemma_lookup_first(es.drop_first(), key, k - 1);
    }
}

/// No entry named `key`, nothing found.
pub proof fn lemma_lookup_absent(es: Seq<(String, JsonValue)>, key: Seq<char>)
    requires
        forall|i: int| 0 <= i < es.len() ==> es[i].0@ != key,
    ensures
        lookup(es, key) is None,
    decreases es.len(),
{
    if es.len() > 0 {
        assert(forall|i: int| 0 <= i < es.len() - 1 ==> es.drop_first()[i] == es[i + 1]);
        lemma_lookup_absent(es.drop_first(), key);
    }
}

proof fn lemma_lookup_step(es: Seq<(String, JsonValue)>, i: int, key: Seq<char>)
    requires
        0 <= i < es.len(),
        es[i].0@ != key,
    ensures
        lookup(es.subrange(i, es.len() as int), key) == lookup(
            es.subrange(i + 1, es.len() as int),
            key,
        ),
{
    assert(es.subrange(i, es.len() as int).drop_first() =~= es.subrange(i + 1, es.len() as int));
}

/// The member `key` of an object.
pub fn get_field<'a>(j: &'a JsonValue, key: &str) -> (r: Option<&'a JsonValue>)
    ensures
        match r {
            Some(v) => field(*j, key@) == Some(*v),
            None => field(*j, key@) is None,
        },
{
    match j {
        JsonValue::Object(es) => {
            let mut i: usize = 0;
            assert(es@.subrange(0, es@.len() as int) =~= es@);
            while i < es.len()
                invariant
                    i <= es@.len(),
                    field(*j, key@) == lookup(es@.subrange(i as int, es@.len() as int), key@),
                decreases es@.len() - i,
            {
                let e = &es[i];
                if same_text(e.0.as_str(), key) {
                    proof {
                        let sub = es@.subrange(i as int, es@.len() as int);
                        assert(sub[0] == es@[i as int]);
                        assert(sub[0].0@ == key@);
                        assert(lookup(sub, key@) == Some(sub[0].1));
                    }
                    return Some(&e.1);
                }
                proof {
                    lemma_lookup_step(es@, i as int, key@);
                }
                i = i + 1;
            }
            None
        },
        _ => None,
    }
}

/// The member `key` when it is a string.
pub fn read_str(j: &JsonValue, key: &str) -> (r: Option<String>)
    ensures
        match r {
            Some(s) => str_at(*j, key@) == Some(s@),
            None => str_at(*j, key@) is None,
        },
{
    match get_field(j, key) {
        Some(JsonValue::Str(s)) => Some(s.clone()),
        _ => None,
    }
}

/// The member `key` when it is an integer.
pub fn read_int(j: &JsonValue, key: &str) -> (r: Option<i128>)
    ensures
        match r {
            Some(n) => int_at(*j, key@) == Some(n as int),
            None => int_at(*j, key@) is None,
        },
{
    match get_field(j, key) {
        Some(JsonValue::Int(n)) => Some(*n),
        _ => None,
    }
}

/// The member `key` when it is a boolean.
pub fn read_bool(j: &JsonValue, key: &str) -> (r: Option<bool>)
    ensures
        r == bool_at(*j, key@),
{
    match get_field(j, key) {
        Some(JsonValue::Bool(b)) => Some(*b),
        _ => None,
    }
}

/// The member `key` when it is a float.
pub fn read_float(j: &JsonValue, key: &str) -> (r: Option<FloatBits>)
    ensures
        r == float_at(*j, key@),
{
    match get_field(j, key) {
        Some(JsonValue::Float(f)) => Some(*f),
        _ => None,
    }
}

/// The member `key` when it is an array of strings.
pub fn read_strs(j: &JsonValue, key: &str) -> (r: Option<Vec<String>>)
    ensures
        match r {
            Some(v) => strs_at(*j, key@) == Some(Seq::new(v@.len(), |i: int| v@[i]@)),
            None => strs_at(*j, key@) is None,
        },
{
    let f = get_field(j, key);
    match f {
        Some(JsonValue::Array(a)) => {
            assert(field(*j, key@) == Some(JsonValue::Array(*a)));
            let mut out: Vec<String> = Vec::new();
            let mut i: usize = 0;
            while i < a.len()
                invariant
                    i <= a@.len(),
                    field(*j, key@) == Some(JsonValue::Array(*a)),
                    out@.len() == i,
                    forall|k: int| 0 <= k < i ==> a@[k] is Str && out@[k]@ == a@[k]->Str_0@,
                decreases a@.len() - i,
            {
                match &a[i] {
                    JsonValue::Str(s) => out.push(s.clone()),
                    _ => {
                        assert(!(a@[i as int] is Str));
                        assert(!(forall|k: int| 0 <= k < a@.len() ==> a@[k] is Str));
                        return None;
                    },
                }
                i = i + 1;
            }
            assert(Seq::new(out@.len(), |k: int| out@[k]@) =~= Seq::new(
                a@.len(),
                |k: int| a@[k]->Str_0@,
            ));
            Some(out)
        },
        _ => None,
    }
}

/// A string member.
pub fn str_entry(key: &str, value: String) -> (r: (String, JsonValue))
    ensures
        r.0@ == key@,
        r.1 == JsonValue::Str(value),
{
    (String::from_str(key), JsonValue::Str(value))
}

/// A member of any value.
pub fn entry(key: &str, value: JsonValue) -> (r: (String, JsonValue))
    ensures
        r.0@ == key@,
        r.1 == value,
{
    (String::from_str(key), value)
}

/// An array of strings.
pub fn str_array(items: Vec<String>) -> (r: JsonValue)
    ensures
        r matches JsonValue::Array(a) && a@.len() == items@.len() && forall|i: int|
            0 <= i < items@.len() ==> a@[i] == JsonValue::Str(items@[i]),
{
    let mut items = items;
    let ghost orig = items@;
    let mut rev: Vec<JsonValue> = Vec::new();
    while items.len() > 0
        invariant
            items@.len() + rev@.len() == orig.len(),
            items@ == orig.subrange(0, items@.len() as int),
            forall|i: int| 0 <= i < rev@.len() ==> rev@[i] == JsonValue::Str(orig[orig.len() - 1 - i]),
        decreases items@.len(),
    {
        let s = items.pop().unwrap();
        rev.push(JsonValue::Str(s));
    }
    let mut out: Vec<JsonValue> = Vec::new();
    while rev.len() > 0
        invariant
            out@.len() + rev@.len() == orig.len(),
            forall|i: int| 0 <= i < rev@.len() ==> rev@[i] == JsonValue::Str(orig[orig.len() - 1 - i]),
            forall|i: int| 0 <= i < out@.len() ==> out@[i] == JsonValue::Str(orig[i]),
        decreases rev@.len(),
    {
        let v = rev.pop().unwrap();
        out.push(v);
    }
    JsonValue::Array(out)
}

} // verus!
