//! `key=value` body pairs given on the command line.
//!
//! A token is split on `=`: the key is everything before the first `=`, the
//! value is the segment between the first and the second `=` (or the rest of
//! the token when there is no second `=`); any further segments are
//! discarded. A token with no `=`, or with an empty key, is rejected: every
//! `KvPair` has a non-empty key, while its value may be empty.

use vstd::prelude::*;
use vstd::string::*;

use crate::errors::HttpError;

verus! {

/// The characters of `s` before its first `'='`; all of `s` when none occurs.
pub open spec fn before_eq(s: Seq<char>) -> Seq<char>
    decreases s.len(),
{
    if s.len() == 0 {
        Seq::empty()
    } else if s[0] == '=' {
        Seq::empty()
    } else {
        seq![s[0]] + before_eq(s.drop_first())
    }
}

/// The characters of `s` after its first `'='`; `None` when none occurs.
pub open spec fn after_eq(s: Seq<char>) -> Option<Seq<char>>
    decreases s.len(),
{
    if s.len() == 0 {
        None
    } else if s[0] == '=' {
        Some(s.drop_first())
    } else {
        after_eq(s.drop_first())
    }
}

/// What parsing a body token yields: the key before the first `'='` and the
/// value up to the next `'='` (or the end); `None` when the token has no
/// `'='` at all or its key would be empty.
pub open spec fn kv_of(s: Seq<char>) -> Option<(Seq<char>, Seq<char>)> {
    match after_eq(s) {
        Option::None => Option::None,
        Option::Some(rest) => if before_eq(s).len() == 0 {
            Option::None
        } else {
            Option::Some((before_eq(s), before_eq(rest)))
        },
    }
}

/// One parsed `key=value` body field.
#[derive(Debug, Clone, PartialEq, Eq)]
pub struct KvPair {
    pub key: String,
    pub value: String,
}

impl View for KvPair {
    type V = (Seq<char>, Seq<char>);

    open spec fn view(&self) -> (Seq<char>, Seq<char>) {
        (self.key@, self.value@)
    }
}

impl KvPair {
    /// The invariant of every constructed pair: the key is non-empty.
    pub open spec fn wf(self) -> bool {
        self.key@.len() > 0
    }
}

/// When the first `'='` of `s` stands at `i`, the split around it is exactly
/// the prefix before `i` and the suffix after `i`.
proof fn lemma_first_eq_split(s: Seq<char>, i: int)
    requires
        0 <= i < s.len(),
        s[i] == '=',
        forall|j: int| 0 <= j < i ==> s[j] != '=',
    ensures
        before_eq(s) =~= s.subrange(0, i),
        after_eq(s) == Some(s.subrange(i + 1, s.len() as int)),
    decreases i,
{
    if i == 0 {
        assert(after_eq(s) == Some(s.drop_first()));
        assert(s.drop_first() =~= s.subrange(1, s.len() as int));
    } else {
        let t = s.drop_first();
        assert(forall|j: int| 0 <= j < i - 1 ==> t[j] != '=');
        lemma_first_eq_split(t, i - 1);
        assert(seq![s[0]] + t.subrange(0, i - 1) =~= s.subrange(0, i));
        assert(t.subrange(i, t.len() as int) =~= s.subrange(i + 1, s.len() as int));
    }
}

/// When `s` holds no `'='`, the prefix before the first `'='` is all of `s`
/// and there is nothing after it.
proof fn lemma_no_eq(s: Seq<char>)
    requires
        forall|j: int| 0 <= j < s.len() ==> s[j] != '=',
    ensures
        before_eq(s) =~= s,
        after_eq(s) is None,
    decreases s.len(),
{
    if s.len() > 0 {
        let t = s.drop_first();
        lemma_no_eq(t);
        assert(seq![s[0]] + t =~= s);
    }
}

/// The position of the first `'='` in `s`, if any.
fn find_first_eq(s: &str) -> (r: Option<usize>)
    ensures
        match r {
            Option::Some(i) => i < s@.len() && s@[i as int] == '=' && forall|j: int|
                0 <= j < i ==> s@[j] != '=',
            Option::None => forall|j: int| 0 <= j < s@.len() ==> s@[j] != '=',
        },
{
    let n = s.unicode_len();
    let mut k: usize = 0;
    while k < n
        invariant
            n == s@.len(),
            k <= n,
            forall|j: int| 0 <= j < k ==> s@[j] != '=',
        decreases n - k,
    {
        if s.get_char(k) == '=' {
            return Some(k);
        }
        k += 1;
    }
    None
}

/// Splits a body token on `=`. Succeeds exactly on the tokens that `kv_of`
/// accepts and returns exactly the key and value it names; every other token
/// is an `InvalidPair` error.
pub fn parse_kv_pair(s: &str) -> (r: Result<KvPair, HttpError>)
    ensures
        match r {
            Result::Ok(p) => kv_of(s@) == Some((p.key@, p.value@)) && p.wf(),
            Result::Err(e) => kv_of(s@) is None && e == HttpError::InvalidPair,
        },
{
    let n = s.unicode_len();
    match find_first_eq(s) {
        None => {
            proof {
                lemma_no_eq(s@);
            }
            Err(HttpError::InvalidPair)
        },
        Some(i) => {
            proof {
                lemma_first_eq_split(s@, i as int);
            }
            if i == 0 {
                return Err(HttpError::InvalidPair);
            }
            let key = s.substring_char(0, i);
            let rest = s.substring_char(i + 1, n);
            let value = match find_first_eq(rest) {
                None => {
                    proof {
                        lemma_no_eq(rest@);
                    }
                    rest
                },
                Some(j) => {
                    proof {
                        lemma_first_eq_split(rest@, j as int);
                    }
                    rest.substring_char(0, j)
                },
            };
            Ok(KvPair { key: String::from_str(key), value: String::from_str(value) })
        },
    }
}

} // verus!
