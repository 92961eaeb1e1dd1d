//! A plain model of the untyped values the host hands across the boundary.
//!
//! The host's runtime is dynamically typed; a value arriving here may be
//! null, absent, a boolean, a number, a string, an array, or a keyed object.
//! The unverified boundary plumbing records each such value in this type
//! before the library reads it, so that validation is a total function over
//! plain data.

use vstd::prelude::*;

verus! {

/// A numeric value received from the host. The host's numbers are
/// double-precision floats; this layer consumes exactly two facts about such
/// a number, which the boundary records when the value crosses: its rounding
/// to the nearest integer (saturated to the `i64` range), and whether it is
/// truthy — neither zero nor NaN — under the host's coercion rules.
#[derive(Clone, Copy, PartialEq, Eq, Structural, Debug)]
pub struct HostNum {
    /// The number rounded to the nearest integer, ties away from zero,
    /// saturated to the representable range.
    pub rounded: i64,
    /// Whether the number is host-truthy: neither zero nor NaN.
    pub truthy: bool,
}

/// One untyped host value.
#[derive(Debug)]
pub enum HostValue {
    Undefined,
    Null,
    Bool(bool),
    Num(HostNum),
    Str(String),
    Arr(Vec<HostValue>),
    Obj(Vec<(String, HostValue)>),
}

/// The host's boolean coercion: everything is truthy except `undefined`,
/// `null`, `false`, zero or NaN numbers, and the empty string. Arrays and
/// objects are always truthy.
pub open spec fn spec_truthy(v: HostValue) -> bool {
    match v {
        HostValue::Undefined => false,
        HostValue::Null => false,
        HostValue::Bool(b) => b,
        HostValue::Num(n) => n.truthy,
        HostValue::Str(s) => s@.len() > 0,
        HostValue::Arr(_) => true,
        HostValue::Obj(_) => true,
    }
}

/// Decides the host's boolean coercion of one value.
pub fn is_truthy(v: &HostValue) -> (r: bool)
    ensures
        r == spec_truthy(*v),
{
    match v {
        HostValue::Undefined => false,
        HostValue::Null => false,
        HostValue::Bool(b) => *b,
        HostValue::Num(n) => n.truthy,
        HostValue::Str(s) => !s.as_str().is_empty(),
        HostValue::Arr(_) => true,
        HostValue::Obj(_) => true,
    }
}

/// The value of the first field named `key` in an object's field list, if
/// any. The host's objects carry each key once; if a key were repeated, the
/// first occurrence would win.
pub open spec fn spec_get(fields: Seq<(String, HostValue)>, key: Seq<char>) -> Option<HostValue>
    decreases fields.len(),
{
    if fields.len() == 0 {
        None
    } else if fields[0].0@ == key {
        Some(fields[0].1)
    } else {
        spec_get(fields.drop_first(), key)
    }
}

/// Looks a field up by name in an object's field list.
pub fn get_field<'a>(fields: &'a Vec<(String, HostValue)>, key: &String) -> (r: Option<
    &'a HostValue,
>)
    ensures
        spec_get(fields@, key@) matches Some(v) ==> (r matches Some(rv) && *rv == v),
        spec_get(fields@, key@) is None ==> r is None,
{
    proof {
        assert(fields@.skip(0) =~= fields@);
    }
    let mut i: usize = 0;
    while i < fields.len()
        invariant
            i <= fields.len(),
            spec_get(fields@, key@) == spec_get(fields@.skip(i as int), key@),
        decreases fields.len() - i,
    {
        proof {
            let rest = fields@.skip(i as int);
            assert(rest[0] == fields@[i as int]);
            assert(rest.drop_first() =~= fields@.skip(i + 1 as int));
        }
        if fields[i].0 == *key {
            return Some(&fields[i].1);
        }
        i = i + 1;
    }
    proof {
        assert(fields@.skip(fields@.len() as int) =~= Seq::<(String, HostValue)>::empty());
    }
    None
}

} // verus!
