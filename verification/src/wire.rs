//! The JSON value model the protocol is stated over.
//!
//! A frame on the wire is a JSON text; the library works on its structure
//! only. Converting between wire text and [`WireValue`] is the transport's
//! concern, outside the library.
//!
//! Every frame the protocol reads or writes is one object whose members
//! are strings, or payloads that the core carries through untouched. The
//! specifications therefore look one level deep: keys and tags by their
//! character sequences, payloads as whole values.

use vstd::prelude::*;

verus! {

/// A JSON value, as the library holds it. Object member order is kept;
/// a lookup takes the first member with the key.
///
/// JSON numbers are carried as `i64`: every field the protocol reads
/// (ids, timestamps, counts) is integral.
#[derive(Debug, PartialEq, Eq)]
pub enum WireValue {
    Null,
    Bool(bool),
    Int(i64),
    Str(String),
    Arr(Vec<WireValue>),
    Obj(Vec<(String, WireValue)>),
}

/// First member of `members` whose key reads `key`, if any.
pub open spec fn spec_lookup(
    members: Seq<(String, WireValue)>,
    key: Seq<char>,
) -> Option<WireValue>
    decreases members.len(),
{
    if members.len() == 0 {
        None
    } else if members[0].0@ == key {
        Some(members[0].1)
    } else {
        spec_lookup(members.drop_first(), key)
    }
}

/// Index of the first member whose key reads `key`, if any.
pub open spec fn spec_lookup_index(members: Seq<(String, WireValue)>, key: Seq<char>) -> Option<
    int,
>
    decreases members.len(),
{
    if members.len() == 0 {
        None
    } else if members[0].0@ == key {
        Some(0int)
    } else {
        match spec_lookup_index(members.drop_first(), key) {
            Some(i) => Some(i + 1),
            None => None,
        }
    }
}

/// What the lookup index says about the members and the looked-up value.
pub proof fn lemma_lookup_index(members: Seq<(String, WireValue)>, key: Seq<char>)
    ensures
        match spec_lookup_index(members, key) {
            Some(i) => {
                &&& 0 <= i < members.len()
                &&& members[i].0@ == key
                &&& forall|j: int| 0 <= j < i ==> members[j].0@ != key
                &&& spec_lookup(members, key) == Some(members[i].1)
            },
            None => {
                &&& forall|j: int| 0 <= j < members.len() ==> members[j].0@ != key
                &&& spec_lookup(members, key) is None
            },
        },
    decreases members.len(),
{
    if members.len() > 0 && members[0].0@ != key {
        lemma_lookup_index(members.drop_first(), key);
        match spec_lookup_index(members.drop_first(), key) {
            Some(i) => {
                assert forall|j: int| 0 <= j < i + 1 implies members[j].0@ != key by {
                    if j > 0 {
                        assert(members.drop_first()[j - 1] == members[j]);
                    }
                }
            },
            None => {
                assert forall|j: int| 0 <= j < members.len() implies members[j].0@ != key by {
                    if j > 0 {
                        assert(members.drop_first()[j - 1] == members[j]);
                    }
                }
            },
        }
    }
}

/// Compares a `String` with a string slice, in terms of their views.
pub fn string_eq(s: &String, lit: &str) -> (r: bool)
    ensures
        r == (s@ == lit@),
{
    let lit_owned: String = lit.to_owned();
    *s == lit_owned
}

impl WireValue {
    /// A borrow of the first object member with key `key`.
    /// Returns `None` if `self` is not an object or has no such member.
    pub fn get_field(&self, key: &str) -> (r: Option<&WireValue>)
        ensures
            match r {
                Some(v) => self is Obj && spec_lookup(self->Obj_0@, key@) == Some(*v),
                None => self is Obj ==> spec_lookup(self->Obj_0@, key@) is None,
            },
    {
        match self {
            WireValue::Obj(members) => {
                let mut i: usize = 0;
                while i < members.len()
                    invariant
                        i <= members.len(),
                        forall|k: int| 0 <= k < i ==> members@[k].0@ != key@,
                    decreases members.len() - i,
                {
                    if string_eq(&members[i].0, key) {
                        proof {
                            lemma_lookup_index(members@, key@);
                        }
                        return Some(&members[i].1);
                    }
                    i += 1;
                }
                proof {
                    lemma_lookup_index(members@, key@);
                }
                None
            },
            _ => None,
        }
    }

    /// The string this value holds, if it is a string.
    pub fn as_str(&self) -> (r: Option<&String>)
        ensures
            match r {
                Some(s) => self matches WireValue::Str(t) && t == *s,
                None => !(self matches WireValue::Str(_)),
            },
    {
        match self {
            WireValue::Str(s) => Some(s),
            _ => None,
        }
    }
}

/// The first object member with key `key`, taken out by value.
pub fn take_field(v: WireValue, key: &str) -> (r: Option<WireValue>)
    ensures
        match v {
            WireValue::Obj(ms) => r == spec_lookup(ms@, key@),
            _ => r is None,
        },
{
    match v {
        WireValue::Obj(mut members) => {
            let ghost ms = members@;
            let mut i: usize = 0;
            while i < members.len()
                invariant
                    i <= members.len(),
                    members@ == ms,
                    forall|k: int| 0 <= k < i ==> ms[k].0@ != key@,
                decreases members.len() - i,
            {
                if string_eq(&members[i].0, key) {
                    proof {
                        lemma_lookup_index(ms, key@);
                    }
                    let pair = members.remove(i);
                    return Some(pair.1);
                }
                i += 1;
            }
            proof {
                lemma_lookup_index(ms, key@);
            }
            None
        },
        _ => None,
    }
}

} // verus!
