//! Login credentials and their wire framing.
//!
//! A clear `user:password` pair never travels as such: the password is
//! hashed and the frame carries the hex digest. An opaque resume token
//! travels as it is.

use vstd::prelude::*;
use crate::wire::WireValue;

verus! {

/// The SHA-256 digest of the UTF-8 bytes of a text.
pub uninterp spec fn sha256_of(text: Seq<char>) -> Seq<u8>;

/// Relies on ring's `digest::digest` with SHA-256: a 32-byte function
/// of the input characters alone.
#[verifier::external_body]
fn sha256_text(text: &str) -> (r: Vec<u8>)
    ensures
        r@ == sha256_of(text@),
        r@.len() == 32,
{
    let digest = ring::digest::digest(&ring::digest::SHA256, text.as_bytes());
    digest.as_ref().to_vec()
}

/// The lower-case hex character for `d`.
pub open spec fn spec_hex_char(d: int) -> char {
    if d == 0 {
        '0'
    } else if d == 1 {
        '1'
    } else if d == 2 {
        '2'
    } else if d == 3 {
        '3'
    } else if d == 4 {
        '4'
    } else if d == 5 {
        '5'
    } else if d == 6 {
        '6'
    } else if d == 7 {
        '7'
    } else if d == 8 {
        '8'
    } else if d == 9 {
        '9'
    } else if d == 10 {
        'a'
    } else if d == 11 {
        'b'
    } else if d == 12 {
        'c'
    } else if d == 13 {
        'd'
    } else if d == 14 {
        'e'
    } else {
        'f'
    }
}

/// Two lower-case hex characters per byte, high nibble first.
pub open spec fn hex_of(bytes: Seq<u8>) -> Seq<char>
    decreases bytes.len(),
{
    if bytes.len() == 0 {
        Seq::empty()
    } else {
        hex_of(bytes.drop_last()) + seq![
            spec_hex_char(bytes.last() as int / 16),
            spec_hex_char(bytes.last() as int % 16),
        ]
    }
}

fn hex_char_str(d: u8) -> (r: &'static str)
    requires
        d < 16,
    ensures
        r@ == seq![spec_hex_char(d as int)],
{
    proof {
        reveal_strlit("0");
        reveal_strlit("1");
        reveal_strlit("2");
        reveal_strlit("3");
        reveal_strlit("4");
        reveal_strlit("5");
        reveal_strlit("6");
        reveal_strlit("7");
        reveal_strlit("8");
        reveal_strlit("9");
        reveal_strlit("a");
        reveal_strlit("b");
        reveal_strlit("c");
        reveal_strlit("d");
        reveal_strlit("e");
        reveal_strlit("f");
    }
    match d {
        0 => "0",
        1 => "1",
        2 => "2",
        3 => "3",
        4 => "4",
        5 => "5",
        6 => "6",
        7 => "7",
        8 => "8",
        9 => "9",
        10 => "a",
        11 => "b",
        12 => "c",
        13 => "d",
        14 => "e",
        _ => "f",
    }
}

/// Renders bytes as lower-case hex, two characters per byte.
pub fn hexdigest(bytes: &Vec<u8>) -> (r: String)
    ensures
        r@ == hex_of(bytes@),
{
    let mut r = String::new();
    let mut i: usize = 0;
    proof {
        assert(bytes@.take(0) =~= Seq::<u8>::empty());
    }
    while i < bytes.len()
        invariant
            i <= bytes.len(),
            r@ == hex_of(bytes@.take(i as int)),
        decreases bytes.len() - i,
    {
        let b = bytes[i];
        proof {
            assert(bytes@.take(i + 1).drop_last() =~= bytes@.take(i as int));
            assert(bytes@.take(i + 1).last() == bytes@[i as int]);
        }
        r.append(hex_char_str(b / 16));
        r.append(hex_char_str(b % 16));
        i += 1;
    }
    proof {
        assert(bytes@.take(bytes@.len() as int) =~= bytes@);
    }
    r
}

/// The index of the first `:` in `s`, if any.
pub open spec fn spec_first_colon(s: Seq<char>) -> Option<int>
    decreases s.len(),
{
    if s.len() == 0 {
        None
    } else if s[0] == ':' {
        Some(0int)
    } else {
        match spec_first_colon(s.drop_first()) {
            Some(i) => Some(i + 1),
            None => None,
        }
    }
}

/// What the first-colon index says about the characters.
pub proof fn lemma_first_colon(s: Seq<char>)
    ensures
        match spec_first_colon(s) {
            Some(i) => 0 <= i < s.len() && s[i] == ':' && forall|j: int| 0 <= j < i ==> s[j] != ':',
            None => forall|j: int| 0 <= j < s.len() ==> s[j] != ':',
        },
    decreases s.len(),
{
    if s.len() > 0 && s[0] != ':' {
        lemma_first_colon(s.drop_first());
        match spec_first_colon(s.drop_first()) {
            Some(i) => {
                assert forall|j: int| 0 <= j < i + 1 implies s[j] != ':' by {
                    if j > 0 {
                        assert(s.drop_first()[j - 1] == s[j]);
                    }
                }
            },
            None => {
                assert forall|j: int| 0 <= j < s.len() implies s[j] != ':' by {
                    if j > 0 {
                        assert(s.drop_first()[j - 1] == s[j]);
                    }
                }
            },
        }
    }
}

/// A caller's credentials: a clear name and password, or an opaque
/// resume token from an earlier login.
#[derive(Debug, PartialEq, Eq)]
pub enum Credentials {
    Clear { user: String, password: String },
    Token(String),
}

/// The shape of the login payload for the given credentials: clear
/// credentials carry the user name and the hashed password, a token is
/// resumed as it is.
pub open spec fn credentials_wire(v: WireValue, c: Credentials) -> bool {
    match c {
        Credentials::Clear { user, password } => {
            &&& v matches WireValue::Obj(ms)
            &&& ms@.len() == 2
            &&& ms@[0].0@ == "user"@
            &&& (ms@[0].1 matches WireValue::Obj(um) && um@.len() == 1 && um@[0].0@
                == "username"@ && um@[0].1 == WireValue::Str(user))
            &&& ms@[1].0@ == "password"@
            &&& (ms@[1].1 matches WireValue::Obj(pm) && pm@.len() == 2 && pm@[0].0@
                == "algorithm"@ && (pm@[0].1 matches WireValue::Str(a) && a@ == "sha-256"@)
                && pm@[1].0@ == "digest"@ && (pm@[1].1 matches WireValue::Str(d) && d@ == hex_of(
                sha256_of(password@),
            )))
        },
        Credentials::Token(t) => {
            &&& v matches WireValue::Obj(ms)
            &&& ms@.len() == 1
            &&& ms@[0].0@ == "resume"@
            &&& ms@[0].1 == WireValue::Str(t)
        },
    }
}

impl Credentials {
    /// Reads a credential argument: with a `:` it is a clear pair split
    /// at the first separator, without one it is a resume token.
    pub fn from(creds: String) -> (r: Credentials)
        ensures
            match r {
                Credentials::Clear { user, password } => {
                    &&& spec_first_colon(creds@) matches Some(i)
                    &&& user@ == creds@.take(i)
                    &&& password@ == creds@.skip(i + 1)
                },
                Credentials::Token(t) => spec_first_colon(creds@) is None && t == creds,
            },
    {
        let len = creds.as_str().unicode_len();
        let mut i: usize = 0;
        while i < len
            invariant
                i <= len,
                len == creds@.len(),
                forall|j: int| 0 <= j < i ==> creds@[j] != ':',
            decreases len - i,
        {
            if creds.as_str().get_char(i) == ':' {
                proof {
                    lemma_first_colon(creds@);
                }
                let user = creds.as_str().substring_char(0, i).to_owned();
                let password = creds.as_str().substring_char(i + 1, len).to_owned();
                proof {
                    assert(creds@.subrange(0, i as int) =~= creds@.take(i as int));
                    assert(creds@.subrange(i + 1, len as int) =~= creds@.skip(i + 1));
                }
                return Credentials::Clear { user, password };
            }
            i += 1;
        }
        proof {
            lemma_first_colon(creds@);
        }
        Credentials::Token(creds)
    }

    /// The login payload for these credentials. A clear password leaves
    /// only as its hex SHA-256 digest.
    pub fn json(self) -> (v: WireValue)
        ensures
            credentials_wire(v, self),
    {
        match self {
            Credentials::Clear { user, password } => {
                let digest = sha256_text(password.as_str());
                let hexed = hexdigest(&digest);
                let mut um: Vec<(String, WireValue)> = Vec::new();
                um.push(("username".to_owned(), WireValue::Str(user)));
                let mut pm: Vec<(String, WireValue)> = Vec::new();
                pm.push(("algorithm".to_owned(), WireValue::Str("sha-256".to_owned())));
                pm.push(("digest".to_owned(), WireValue::Str(hexed)));
                let mut ms: Vec<(String, WireValue)> = Vec::new();
                ms.push(("user".to_owned(), WireValue::Obj(um)));
                ms.push(("password".to_owned(), WireValue::Obj(pm)));
                WireValue::Obj(ms)
            },
            Credentials::Token(t) => {
                let mut ms: Vec<(String, WireValue)> = Vec::new();
                ms.push(("resume".to_owned(), WireValue::Str(t)));
                WireValue::Obj(ms)
            },
        }
    }
}

} // verus!
