//! A small JSON value model.
//!
//! The decoder works on this tree rather than on raw text: a trusted parsing
//! boundary produces it, and every step after that is verified against the
//! mathematical model `JsonSpec`.  A number carries its decimal text, so the
//! model itself holds only plain values.

use vstd::prelude::*;

verus! {

broadcast use vstd::std_specs::vec::group_vec_axioms;

/// Mathematical model of a JSON value.
pub ghost enum JsonSpec {
    Null,
    Bool(bool),
    /// A number, carried as its decimal text.
    Num(Seq<char>),
    Str(Seq<char>),
    Arr(Seq<JsonSpec>),
    /// An object as a sequence of key/value pairs.
    Obj(Seq<(Seq<char>, JsonSpec)>),
}

/// A JSON value as the decoder holds it.
pub enum Json {
    Null,
    Bool(bool),
    /// A number, carried as its decimal text.
    Num(String),
    Str(String),
    Arr(Vec<Json>),
    /// An object as a vector of key/value pairs.
    Obj(Vec<(String, Json)>),
}

impl View for Json {
    type V = JsonSpec;

    open spec fn view(&self) -> JsonSpec
        decreases self,
    {
        match self {
            Json::Null => JsonSpec::Null,
            Json::Bool(b) => JsonSpec::Bool(*b),
            Json::Num(t) => JsonSpec::Num(t@),
            Json::Str(t) => JsonSpec::Str(t@),
            Json::Arr(items) => JsonSpec::Arr(items_view(items@)),
            Json::Obj(fields) => JsonSpec::Obj(fields_view(fields@)),
        }
    }
}

/// The view of an array's element list, element by element.
pub open spec fn items_view(items: Seq<Json>) -> Seq<JsonSpec>
    decreases items,
{
    if items.len() == 0 {
        Seq::empty()
    } else {
        seq![items[0]@] + items_view(items.subrange(1, items.len() as int))
    }
}

/// The view of one key/value pair of an object.
pub open spec fn pair_view(pair: (String, Json)) -> (Seq<char>, JsonSpec)
    decreases pair,
{
    (pair.0@, pair.1@)
}

/// The view of an object's field list, pair by pair.
pub open spec fn fields_view(fields: Seq<(String, Json)>) -> Seq<(Seq<char>, JsonSpec)>
    decreases fields,
{
    if fields.len() == 0 {
        Seq::empty()
    } else {
        seq![pair_view(fields[0])] + fields_view(fields.subrange(1, fields.len() as int))
    }
}

/// `items_view` maps the list element by element.
pub proof fn lemma_items_view(items: Seq<Json>)
    ensures
        items_view(items).len() == items.len(),
        forall|i: int| 0 <= i < items.len() ==> items_view(items)[i] == #[trigger] items[i]@,
    decreases items.len(),
{
    if items.len() > 0 {
        let rest = items.subrange(1, items.len() as int);
        lemma_items_view(rest);
        let whole = seq![items[0]@] + items_view(rest);
        assert(items_view(items) == whole);
        assert forall|i: int| 0 <= i < items.len() implies
            items_view(items)[i] == #[trigger] items[i]@ by {
            if i == 0 {
                assert(whole[0] == seq![items[0]@][0]);
            } else {
                assert(whole[i] == items_view(rest)[i - 1]);
                assert(rest[i - 1] == items[i]);
            }
        }
    }
}

/// `fields_view` maps the list pair by pair.
pub proof fn lemma_fields_view(fields: Seq<(String, Json)>)
    ensures
        fields_view(fields).len() == fields.len(),
        forall|i: int| 0 <= i < fields.len() ==>
            fields_view(fields)[i] == pair_view(#[trigger] fields[i]),
    decreases fields.len(),
{
    if fields.len() > 0 {
        let rest = fields.subrange(1, fields.len() as int);
        lemma_fields_view(rest);
        let whole = seq![pair_view(fields[0])] + fields_view(rest);
        assert(fields_view(fields) == whole);
        assert forall|i: int| 0 <= i < fields.len() implies
            fields_view(fields)[i] == pair_view(#[trigger] fields[i]) by {
            if i == 0 {
                assert(whole[0] == seq![pair_view(fields[0])][0]);
            } else {
                assert(whole[i] == fields_view(rest)[i - 1]);
                assert(rest[i - 1] == fields[i]);
            }
        }
    }
}

/// The first value an object's field list binds to a key, if any.
pub open spec fn lookup(fs: Seq<(Seq<char>, JsonSpec)>, key: Seq<char>) -> Option<JsonSpec>
    decreases fs.len(),
{
    if fs.len() == 0 {
        None
    } else if fs[0].0 == key {
        Some(fs[0].1)
    } else {
        lookup(fs.skip(1), key)
    }
}

/// Finds a key in an object's field list, exactly as `lookup` describes on
/// the list's view.
pub fn obj_get<'a>(fields: &'a Vec<(String, Json)>, key: &str) -> (r: Option<&'a Json>)
    ensures
        match r {
            Some(v) => lookup(fields_view(fields@), key@) == Some(v@),
            None => lookup(fields_view(fields@), key@) is None,
        },
{
    let ghost fs = fields_view(fields@);
    let key_string: String = key.to_owned();
    let mut i: usize = 0;
    proof {
        lemma_fields_view(fields@);
        assert(fs.skip(0) =~= fs);
    }
    while i < fields.len()
        invariant
            0 <= i <= fields.len(),
            fs == fields_view(fields@),
            fs.len() == fields.len(),
            key_string@ == key@,
            lookup(fs, key@) == lookup(fs.skip(i as int), key@),
        decreases fields.len() - i,
    {
        proof {
            lemma_fields_view(fields@);
            let rest = fs.skip(i as int);
            assert(rest[0] == fs[i as int]);
            assert(rest.skip(1) =~= fs.skip(i as int + 1));
        }
        if fields[i].0 == key_string {
            return Some(&fields[i].1);
        }
        i = i + 1;
    }
    None
}

} // verus!
