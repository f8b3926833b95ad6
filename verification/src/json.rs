//! The tree of values the wire format carries.
//!
//! The protocol's envelope is JSON; this model restricts numbers to integers,
//! which covers every shape the protocol itself reads or writes. The
//! surrounding server converts between this tree and its serializer's own
//! value type at the process boundary.

use vstd::prelude::*;

verus! {

/// One wire value: the library's own JSON tree.
#[derive(Debug, PartialEq)]
pub enum JsonItem {
    Null,
    Bool(bool),
    Int(i64),
    UInt(u64),
    Str(String),
    List(Vec<JsonItem>),
    Obj(Vec<(String, JsonItem)>),
}

/// The mathematical value of a `JsonItem`.
#[verifier::ext_equal]
pub enum JsonVal {
    Null,
    Bool(bool),
    Int(i64),
    UInt(u64),
    Str(Seq<char>),
    List(Seq<JsonVal>),
    Obj(Seq<(Seq<char>, JsonVal)>),
}

/// The mathematical value of a wire item.
pub open spec fn jval_of(x: JsonItem) -> JsonVal
    decreases x,
{
    match x {
        JsonItem::Null => JsonVal::Null,
        JsonItem::Bool(b) => JsonVal::Bool(b),
        JsonItem::Int(i) => JsonVal::Int(i),
        JsonItem::UInt(u) => JsonVal::UInt(u),
        JsonItem::Str(s) => JsonVal::Str(s@),
        JsonItem::List(l) => JsonVal::List(jvals_of_seq(l@)),
        JsonItem::Obj(o) => JsonVal::Obj(jfields_of_seq(o@)),
    }
}

/// The mathematical values of a sequence of wire items, in order.
pub open spec fn jvals_of_seq(l: Seq<JsonItem>) -> Seq<JsonVal>
    decreases l,
{
    if l.len() == 0 {
        Seq::empty()
    } else {
        seq![jval_of(l[0])] + jvals_of_seq(l.drop_first())
    }
}

/// The mathematical values of an object's entry list, in order.
pub open spec fn jfields_of_seq(o: Seq<(String, JsonItem)>) -> Seq<(Seq<char>, JsonVal)>
    decreases o,
{
    if o.len() == 0 {
        Seq::empty()
    } else {
        seq![(o[0].0@, jval_of(o[0].1))] + jfields_of_seq(o.drop_first())
    }
}

/// `jvals_of_seq` maps the sequence pointwise.
pub broadcast proof fn lemma_jvals_of_seq(l: Seq<JsonItem>)
    ensures
        (#[trigger] jvals_of_seq(l)).len() == l.len(),
        forall|i: int| 0 <= i < l.len() ==> jvals_of_seq(l)[i] == jval_of(l[i]),
    decreases l.len(),
{
    if l.len() > 0 {
        lemma_jvals_of_seq(l.drop_first());
        assert(forall|i: int|
            0 <= i < l.drop_first().len() ==> l.drop_first()[i] == l[i + 1]);
    }
}

/// `jfields_of_seq` maps the entry list pointwise.
pub broadcast proof fn lemma_jfields_of_seq(o: Seq<(String, JsonItem)>)
    ensures
        (#[trigger] jfields_of_seq(o)).len() == o.len(),
        forall|i: int|
            0 <= i < o.len() ==> jfields_of_seq(o)[i] == (o[i].0@, jval_of(o[i].1)),
    decreases o.len(),
{
    if o.len() > 0 {
        lemma_jfields_of_seq(o.drop_first());
        assert(forall|i: int|
            0 <= i < o.drop_first().len() ==> o.drop_first()[i] == o[i + 1]);
    }
}

impl DeepView for JsonItem {
    type V = JsonVal;

    open spec fn deep_view(&self) -> JsonVal {
        jval_of(*self)
    }
}

/// A vector of items views to the same sequence its elements view to.
pub broadcast proof fn lemma_vec_items_deep_view(l: Vec<JsonItem>)
    ensures
        #[trigger] l.deep_view() == jvals_of_seq(l@),
{
    broadcast use lemma_jvals_of_seq;

    assert(l.deep_view() =~= jvals_of_seq(l@));
}

/// A vector of entries views to the same entry sequence its entries view to.
pub broadcast proof fn lemma_vec_fields_deep_view(o: Vec<(String, JsonItem)>)
    ensures
        #[trigger] o.deep_view() == jfields_of_seq(o@),
{
    broadcast use lemma_jfields_of_seq;

    assert(o.deep_view() =~= jfields_of_seq(o@));
}

/// The value under `key` in an object's entry list: the first binding wins,
/// `None` where the key is absent.
pub open spec fn spec_obj_get(entries: Seq<(Seq<char>, JsonVal)>, key: Seq<char>) -> Option<
    JsonVal,
>
    decreases entries.len(),
{
    if entries.len() == 0 {
        None
    } else if entries[0].0 == key {
        Some(entries[0].1)
    } else {
        spec_obj_get(entries.drop_first(), key)
    }
}

proof fn lemma_obj_get_skip(entries: Seq<(Seq<char>, JsonVal)>, key: Seq<char>, i: int)
    requires
        0 <= i <= entries.len(),
        forall|j: int| 0 <= j < i ==> (#[trigger] entries[j]).0 != key,
    ensures
        spec_obj_get(entries, key) == spec_obj_get(entries.skip(i), key),
    decreases i,
{
    if i > 0 {
        assert(entries[0].0 != key);
        assert(forall|j: int|
            0 <= j < entries.drop_first().len() ==> entries.drop_first()[j] == entries[j + 1]);
        lemma_obj_get_skip(entries.drop_first(), key, i - 1);
        assert(entries.drop_first().skip(i - 1) =~= entries.skip(i));
    } else {
        assert(entries.skip(0) =~= entries);
    }
}

/// Compares two string slices by their characters.
pub fn str_eq_str(a: &str, b: &str) -> (r: bool)
    ensures
        r == (a@ == b@),
{
    let na = a.unicode_len();
    let nb = b.unicode_len();
    if na != nb {
        return false;
    }
    let mut i: usize = 0;
    while i < na
        invariant
            i <= na,
            na == a@.len(),
            na == b@.len(),
            forall|j: int| 0 <= j < i ==> a@[j] == b@[j],
        decreases na - i,
    {
        if a.get_char(i) != b.get_char(i) {
            return false;
        }
        i = i + 1;
    }
    proof {
        assert(a@ =~= b@);
    }
    true
}

/// Finds the first binding of `key` in an object's entry list.
pub fn obj_get<'a>(entries: &'a Vec<(String, JsonItem)>, key: &str) -> (r: Option<&'a JsonItem>)
    ensures
        match r {
            Some(v) => spec_obj_get(entries.deep_view(), key@) == Some(v.deep_view()),
            None => spec_obj_get(entries.deep_view(), key@) is None,
        },
{
    let n = entries.len();
    let mut i: usize = 0;
    while i < n
        invariant
            i <= n,
            n == entries.deep_view().len(),
            n == entries@.len(),
            forall|j: int| 0 <= j < i ==> (#[trigger] entries.deep_view()[j]).0 != key@,
        decreases n - i,
    {
        if str_eq_str(entries[i].0.as_str(), key) {
            proof {
                lemma_obj_get_skip(entries.deep_view(), key@, i as int);
                assert(entries.deep_view().skip(i as int)[0] == entries.deep_view()[i as int]);
            }
            return Some(&entries[i].1);
        }
        i = i + 1;
    }
    proof {
        lemma_obj_get_skip(entries.deep_view(), key@, n as int);
        assert(entries.deep_view().skip(n as int).len() == 0);
    }
    None
}

/// Removes and returns the first binding of `key`, so the caller can own
/// the value; says nothing about the entries left behind.
pub fn obj_take(entries: &mut Vec<(String, JsonItem)>, key: &str) -> (r: Option<JsonItem>)
    ensures
        match r {
            Some(v) => spec_obj_get(old(entries).deep_view(), key@) matches Some(sv) && sv
                == jval_of(v),
            None => spec_obj_get(old(entries).deep_view(), key@) is None,
        },
{
    let n = entries.len();
    let mut i: usize = 0;
    while i < n
        invariant
            i <= n,
            n == entries@.len(),
            entries@ == old(entries)@,
            forall|j: int| 0 <= j < i ==> (#[trigger] entries.deep_view()[j]).0 != key@,
        decreases n - i,
    {
        if str_eq_str(entries[i].0.as_str(), key) {
            proof {
                lemma_obj_get_skip(entries.deep_view(), key@, i as int);
                assert(entries.deep_view().skip(i as int)[0] == entries.deep_view()[i as int]);
            }
            let pair = entries.remove(i);
            return Some(pair.1);
        }
        i = i + 1;
    }
    proof {
        lemma_obj_get_skip(entries.deep_view(), key@, n as int);
        assert(entries.deep_view().skip(n as int).len() == 0);
    }
    None
}

} // verus!
