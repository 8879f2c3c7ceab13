//! The library's model of a JSON document. Numbers keep the decimal text
//! they were written with, so no floating point enters the library; object
//! fields keep their order and are looked up by first match.

use vstd::prelude::*;

verus! {

/// A JSON value.
pub enum JsonVal {
    Null,
    Bool(bool),
    /// A number, as its decimal text (for example `25.0` or `-3`).
    Num(String),
    Text(String),
    Arr(Vec<JsonVal>),
    Obj(Vec<(String, JsonVal)>),
}

/// The value under `key` among an object's fields: the first match, if any.
pub open spec fn spec_lookup(fields: Seq<(String, JsonVal)>, key: Seq<char>) -> Option<JsonVal>
    decreases fields.len(),
{
    if fields.len() == 0 {
        None
    } else if fields[0].0@ == key {
        Some(fields[0].1)
    } else {
        spec_lookup(fields.skip(1), key)
    }
}

/// Find `key` among an object's fields.
pub fn obj_get<'a>(fields: &'a Vec<(String, JsonVal)>, key: &String) -> (r: Option<
    &'a JsonVal,
>)
    ensures
        match spec_lookup(fields@, key@) {
            None => r is None,
            Some(v) => r matches Some(rv) && *rv == v,
        },
{
    let n = fields.len();
    let mut i: usize = 0;
    proof {
        assert(fields@.skip(0) =~= fields@);
    }
    while i < n
        invariant
            i <= n == fields@.len(),
            spec_lookup(fields@.skip(i as int), key@) == spec_lookup(fields@, key@),
        decreases n - i,
    {
        let pair = &fields[i];
        if pair.0.eq(key) {
            proof {
                assert(fields@.skip(i as int)[0] == fields@[i as int]);
            }
            return Some(&pair.1);
        }
        proof {
            assert(fields@.skip(i as int).skip(1) =~= fields@.skip(i + 1));
        }
        i = i + 1;
    }
    proof {
        assert(fields@.skip(n as int).len() == 0);
    }
    None
}

} // verus!
