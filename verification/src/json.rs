use vstd::prelude::*;
use crate::strutil::str_eq;

verus! {

/// A JSON document as the tool prints one: a tree whose leaves are null,
/// booleans, numbers (kept as their decimal text) and strings. An object is
/// a list of key/value entries.
pub enum Json {
    Null,
    Bool(bool),
    Num(String),
    Str(String),
    Arr(Vec<Json>),
    Obj(Vec<(String, Json)>),
}

/// The value of the first entry of `entries` whose key reads `key`, if any.
pub open spec fn obj_lookup(entries: Seq<(String, Json)>, key: Seq<char>) -> Option<Json>
    decreases entries.len(),
{
    if entries.len() == 0 {
        None
    } else if entries[0].0@ == key {
        Some(entries[0].1)
    } else {
        obj_lookup(entries.drop_first(), key)
    }
}

/// The lookup yields the entry at `i` when no earlier entry's key matches
/// and the key at `i` does.
pub proof fn lemma_obj_lookup_found(entries: Seq<(String, Json)>, key: Seq<char>, i: int)
    requires
        0 <= i < entries.len(),
        forall|k: int| 0 <= k < i ==> (#[trigger] entries[k]).0@ != key,
        entries[i].0@ == key,
    ensures
        obj_lookup(entries, key) == Some(entries[i].1),
    decreases i,
{
    if i > 0 {
        assert forall|k: int| 0 <= k < i - 1 implies (#[trigger] entries.drop_first()[k]).0@
            != key by {
            assert(entries.drop_first()[k] == entries[k + 1]);
            assert(entries[k + 1].0@ != key);
        }
        assert(entries.drop_first()[i - 1] == entries[i]);
        lemma_obj_lookup_found(entries.drop_first(), key, i - 1);
        assert(entries[0].0@ != key);
    }
}

/// The lookup yields nothing when no entry's key matches.
pub proof fn lemma_obj_lookup_absent(entries: Seq<(String, Json)>, key: Seq<char>)
    requires
        forall|k: int| 0 <= k < entries.len() ==> (#[trigger] entries[k]).0@ != key,
    ensures
        obj_lookup(entries, key) is None,
    decreases entries.len(),
{
    if entries.len() > 0 {
        assert forall|k: int|
            0 <= k < entries.drop_first().len() implies (#[trigger] entries.drop_first()[k]).0@
            != key by {
            assert(entries.drop_first()[k] == entries[k + 1]);
            assert(entries[k + 1].0@ != key);
        }
        lemma_obj_lookup_absent(entries.drop_first(), key);
        assert(entries[0].0@ != key);
    }
}

/// Finds the first entry of an object whose key reads `key`.
pub fn lookup<'a>(entries: &'a Vec<(String, Json)>, key: &str) -> (r: Option<&'a Json>)
    ensures
        match r {
            Some(j) => obj_lookup(entries@, key@) == Some(*j),
            None => obj_lookup(entries@, key@) is None,
        },
{
    let n: usize = entries.len();
    let mut i: usize = 0;
    proof {
        assert(entries@.skip(0) =~= entries@);
    }
    while i < n
        invariant
            i <= n,
            n == entries@.len(),
            obj_lookup(entries@, key@) == obj_lookup(entries@.skip(i as int), key@),
        decreases n - i,
    {
        proof {
            assert(entries@.skip(i as int)[0] == entries@[i as int]);
        }
        if str_eq(entries[i].0.as_str(), key) {
            return Some(&entries[i].1);
        }
        proof {
            assert(entries@.skip(i as int).drop_first() =~= entries@.skip(i as int + 1));
        }
        i = i + 1;
    }
    None
}

#[verifier::external_type_specification]
#[verifier::external_body]
pub struct ExValue(serde_json::Value);

/// What `serde_json::from_slice::<serde_json::Value>` returns on the given
/// bytes, carried over into this crate's `Json` tree: `Some` of the parsed
/// document when the bytes are one valid JSON document, `None` when parsing
/// fails. With serde_json's default object map (an ordered map keyed by the
/// entry names) the result is a function of the bytes alone.
pub uninterp spec fn json_of(bytes: Seq<u8>) -> Option<Json>;

/// Relies on the shape of `serde_json::Value`: converts one parsed value
/// into this crate's `Json` tree, one variant arm each; a number keeps its
/// decimal rendering.
#[verifier::external_body]
fn value_to_json(v: serde_json::Value) -> Json {
    match v {
        serde_json::Value::Null => Json::Null,
        serde_json::Value::Bool(b) => Json::Bool(b),
        serde_json::Value::Number(n) => Json::Num(n.to_string()),
        serde_json::Value::String(s) => Json::Str(s),
        serde_json::Value::Array(a) => Json::Arr(a.into_iter().map(value_to_json).collect()),
        serde_json::Value::Object(m) => {
            Json::Obj(m.into_iter().map(|(k, x)| (k, value_to_json(x))).collect())
        },
    }
}

/// Relies on `serde_json::from_slice`: parses the bytes as one JSON document
/// and returns it as a `Json` tree, or the parser's message when the bytes
/// are not valid JSON.
#[verifier::external_body]
pub(crate) fn parse_json(bytes: &[u8]) -> (r: Result<Json, String>)
    ensures
        match r {
            Ok(j) => json_of(bytes@) == Some(j),
            Err(_) => json_of(bytes@) is None,
        },
{
    match serde_json::from_slice::<serde_json::Value>(bytes) {
        Ok(v) => Ok(value_to_json(v)),
        Err(e) => Err(format!("{}", e)),
    }
}

} // verus!
