//! A document tree that holds, as plain values, what the library reads from
//! the JSON texts it is given. The surrounding program converts between this
//! tree and whatever parser or serializer it employs; all decisions about the
//! tree's shape are made here, in verified code.

use vstd::prelude::*;

verus! {

/// One node of a document tree. Objects keep their fields in encounter
/// order; a lookup takes the first field with a matching key.
#[derive(Debug, PartialEq)]
pub enum Json {
    Null,
    Bool(bool),
    Int(i64),
    Str(String),
    Arr(Vec<Json>),
    Obj(Vec<(String, Json)>),
}

/// The value of the first field named `key`, if any.
pub open spec fn obj_get(fields: Seq<(String, Json)>, key: Seq<char>) -> Option<Json>
    decreases fields.len(),
{
    if fields.len() == 0 {
        None
    } else if fields[0].0@ == key {
        Some(fields[0].1)
    } else {
        obj_get(fields.skip(1), key)
    }
}

/// Prefixes `pre` onto a possibly failed remainder.
pub open spec fn opt_prepend<T>(pre: Seq<T>, rest: Option<Seq<T>>) -> Option<Seq<T>> {
    match rest {
        Some(s) => Some(pre + s),
        None => None,
    }
}

/// Looks up `key` among `fields`, first match wins.
pub fn obj_lookup<'a>(fields: &'a Vec<(String, Json)>, key: &String) -> (r: Option<&'a Json>)
    ensures
        match r {
            Some(v) => obj_get(fields@, key@) == Some(*v),
            None => obj_get(fields@, key@) is None,
        },
{
    let mut i: usize = 0;
    proof {
        assert(fields@.skip(0) =~= fields@);
    }
    while i < fields.len()
        invariant
            0 <= i <= fields@.len(),
            obj_get(fields@, key@) == obj_get(fields@.skip(i as int), key@),
        decreases fields@.len() - i,
    {
        proof {
            assert(fields@.skip(i as int)[0] == fields@[i as int]);
        }
        if fields[i].0 == *key {
            return Some(&fields[i].1);
        }
        proof {
            assert(fields@.skip(i as int).skip(1) =~= fields@.skip(i as int + 1));
        }
        i = i + 1;
    }
    None
}

} // verus!
