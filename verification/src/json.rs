use vstd::prelude::*;

verus! {

/// An untyped JSON tree, as handed over by the loader.
///
/// Numeric payloads are not carried: no field of the documented schema reads
/// a number, so a number is remembered only as being one.  Object entries
/// keep the order in which the loader produced them; lookup takes the first
/// entry with a matching key.
pub enum JsonValue {
    Null,
    Bool(bool),
    Number,
    Str(String),
    Arr(Vec<JsonValue>),
    Obj(Vec<(String, JsonValue)>),
}

/// The value under `key`: the first entry whose key matches, if any.
pub open spec fn obj_get(entries: Seq<(String, JsonValue)>, key: Seq<char>) -> Option<JsonValue>
    decreases entries.len(),
{
    if entries.len() == 0 {
        None
    } else if entries[0].0@ == key {
        Some(entries[0].1)
    } else {
        obj_get(entries.subrange(1, entries.len() as int), key)
    }
}

/// Whether `key` is present among `entries`.
pub open spec fn obj_has(entries: Seq<(String, JsonValue)>, key: Seq<char>) -> bool {
    obj_get(entries, key) is Some
}

/// A value found by `obj_get` lies inside the entry sequence, so recursing
/// into it terminates.
pub broadcast proof fn lemma_obj_get_decreases(entries: Seq<(String, JsonValue)>, key: Seq<char>)
    ensures
        (#[trigger] obj_get(entries, key)) matches Some(v) ==> decreases_to!(entries => v),
    decreases entries.len(),
{
    if entries.len() > 0 {
        if entries[0].0@ == key {
            assert(decreases_to!(entries => entries[0]));
            assert(decreases_to!(entries[0] => entries[0].1));
        } else {
            let rest = entries.subrange(1, entries.len() as int);
            lemma_obj_get_decreases(rest, key);
            assert(decreases_to!(entries => rest));
        }
    }
}

/// A vector is larger than its view, so recursing into an element of the
/// view terminates.
pub broadcast proof fn lemma_vec_view_decreases<T>(v: Vec<T>)
    ensures
        decreases_to!(v => (#[trigger] v@)),
{
    assert(decreases_to!(v => v@));
}

/// First entry of `entries` whose key equals `key`, if any.
pub fn obj_lookup<'a>(entries: &'a Vec<(String, JsonValue)>, key: &str) -> (r: Option<
    &'a JsonValue,
>)
    ensures
        match r {
            Some(v) => obj_get(entries@, key@) == Some(*v),
            None => obj_get(entries@, key@) is None,
        },
{
    let k: String = key.to_owned();
    let n: usize = entries.len();
    let mut i: usize = 0;
    proof {
        assert(entries@.subrange(0, entries@.len() as int) =~= entries@);
    }
    while i < n
        invariant
            0 <= i <= n,
            n == entries@.len(),
            k@ == key@,
            obj_get(entries@, key@) == obj_get(
                entries@.subrange(i as int, entries@.len() as int),
                key@,
            ),
        decreases n - i,
    {
        let ghost suffix = entries@.subrange(i as int, entries@.len() as int);
        proof {
            assert(suffix[0] == entries@[i as int]);
        }
        if entries[i].0 == k {
            return Some(&entries[i].1);
        }
        proof {
            assert(suffix.subrange(1, suffix.len() as int) =~= entries@.subrange(
                i + 1,
                entries@.len() as int,
            ));
        }
        i = i + 1;
    }
    None
}

} // verus!
