//! An in-memory model of the TTL key-value store that backs the cache and
//! the rate-limit counters: entries carry an expiry instant and reads at or
//! past the expiry see nothing. Decimal rendering and parsing of counters
//! live here too.

use vstd::prelude::*;
use crate::lex::str_eq;
use crate::params::{map_of, keys_of, unique_keys, has_key, lemma_map_of_dom, lemma_map_of_index,
    lemma_map_of_push, lemma_map_of_update};

verus! {

/// A decimal digit.
pub open spec fn is_digit(c: char) -> bool {
    '0' <= c && c <= '9'
}

/// The numeric value of a digit character.
pub open spec fn digit_val(c: char) -> nat {
    ((c as int) - 48) as nat
}

/// Every character is a decimal digit.
pub open spec fn all_digits(s: Seq<char>) -> bool {
    forall|i: int| 0 <= i < s.len() ==> is_digit(#[trigger] s[i])
}

/// The number a digit string denotes.
pub open spec fn dec_value(s: Seq<char>) -> nat
    decreases s.len(),
{
    if s.len() == 0 {
        0
    } else {
        dec_value(s.drop_last()) * 10 + digit_val(s.last())
    }
}

/// The digit character of a value below ten.
pub open spec fn digit_char(d: nat) -> char {
    ((d + 48) as u8) as char
}

/// The canonical decimal rendering of a number.
pub open spec fn dec_string_of(n: nat) -> Seq<char>
    decreases n,
{
    if n < 10 {
        seq![digit_char(n)]
    } else {
        dec_string_of(n / 10).push(digit_char(n % 10))
    }
}

/// Rendering a number and reading it back yields the number.
pub proof fn lemma_dec_round_trip(n: nat)
    ensures
        dec_string_of(n).len() >= 1,
        all_digits(dec_string_of(n)),
        dec_value(dec_string_of(n)) == n,
    decreases n,
{
    let ds = dec_string_of(n);
    if n < 10 {
        assert(ds.drop_last() =~= Seq::<char>::empty());
        assert(dec_value(Seq::<char>::empty()) == 0);
        assert(is_digit(ds[0]));
        assert(digit_val(digit_char(n)) == n);
        assert(dec_value(ds) == n);
    } else {
        lemma_dec_round_trip(n / 10);
        let prefix = dec_string_of(n / 10);
        assert(ds == prefix.push(digit_char(n % 10)));
        assert(ds.drop_last() =~= prefix);
        assert(ds.last() == digit_char(n % 10));
        assert(digit_val(digit_char(n % 10)) == n % 10);
        assert forall|i: int| 0 <= i < ds.len() implies is_digit(#[trigger] ds[i]) by {
            if i < prefix.len() {
                assert(ds[i] == prefix[i]);
            }
        }
        assert(dec_value(ds) == (n / 10) * 10 + n % 10);
        vstd::arithmetic::div_mod::lemma_fundamental_div_mod(n as int, 10);
    }
}

/// A longer prefix of a string never denotes a smaller number.
proof fn lemma_dec_value_take_monotone(s: Seq<char>, i: int, j: int)
    requires
        0 <= i <= j <= s.len(),
    ensures
        dec_value(s.take(i)) <= dec_value(s.take(j)),
    decreases j - i,
{
    if i < j {
        lemma_dec_value_take_monotone(s, i, j - 1);
        assert(s.take(j).drop_last() =~= s.take(j - 1));
        assert(dec_value(s.take(j)) == dec_value(s.take(j - 1)) * 10 + digit_val(
            s.take(j).last(),
        ));
        assert(dec_value(s.take(j - 1)) * 10 >= dec_value(s.take(j - 1)));
    }
}

/// Parse a decimal counter value. Returns the number exactly when the
/// string is nonempty, all digits, and the value fits.
pub fn parse_u32(s: &str) -> (r: Option<u32>)
    ensures
        match r {
            Some(n) => s@.len() > 0 && all_digits(s@) && dec_value(s@) == n,
            None => !(s@.len() > 0 && all_digits(s@) && dec_value(s@) <= u32::MAX),
        },
{
    let n = s.unicode_len();
    if n == 0 {
        return None;
    }
    let mut acc: u32 = 0;
    let mut i: usize = 0;
    while i < n
        invariant
            0 <= i <= n,
            n == s@.len(),
            all_digits(s@.take(i as int)),
            dec_value(s@.take(i as int)) == acc,
        decreases n - i,
    {
        let c = s.get_char(i);
        if !('0' <= c && c <= '9') {
            proof {
                assert(!is_digit(s@[i as int]));
            }
            return None;
        }
        let d = (c as u32) - 48;
        if acc > (u32::MAX - d) / 10 {
            proof {
                assert(s@.take(i as int + 1).drop_last() =~= s@.take(i as int));
                assert(s@.take(i as int + 1).last() == s@[i as int]);
                assert(digit_val(s@[i as int]) == d);
                assert(dec_value(s@.take(i as int + 1)) == acc * 10 + d);
                assert(acc * 10 + d > u32::MAX);
                lemma_dec_value_take_monotone(s@, i as int + 1, s@.len() as int);
                assert(s@.take(s@.len() as int) =~= s@);
                assert(dec_value(s@) > u32::MAX);
            }
            return None;
        }
        proof {
            assert(acc <= (u32::MAX - d) / 10);
            assert(acc * 10 + d <= u32::MAX);
            assert(s@.take(i as int + 1).drop_last() =~= s@.take(i as int));
            assert(s@.take(i as int + 1).last() == s@[i as int]);
            assert(digit_val(s@[i as int]) == d);
            assert(is_digit(s@[i as int]));
            assert forall|t: int| 0 <= t < i + 1 implies is_digit(
                #[trigger] s@.take(i as int + 1)[t],
            ) by {
                if t < i {
                    assert(s@.take(i as int + 1)[t] == s@.take(i as int)[t]);
                }
            }
        }
        acc = acc * 10 + d;
        i = i + 1;
    }
    proof {
        assert(s@.take(n as int) =~= s@);
    }
    Some(acc)
}

/// Parse a wide decimal value. Returns the number exactly when the string
/// is nonempty, all digits, and the value fits.
pub fn parse_u64(s: &str) -> (r: Option<u64>)
    ensures
        match r {
            Some(n) => s@.len() > 0 && all_digits(s@) && dec_value(s@) == n,
            None => !(s@.len() > 0 && all_digits(s@) && dec_value(s@) <= u64::MAX),
        },
{
    let n = s.unicode_len();
    if n == 0 {
        return None;
    }
    let mut acc: u64 = 0;
    let mut i: usize = 0;
    while i < n
        invariant
            0 <= i <= n,
            n == s@.len(),
            all_digits(s@.take(i as int)),
            dec_value(s@.take(i as int)) == acc,
        decreases n - i,
    {
        let c = s.get_char(i);
        if !('0' <= c && c <= '9') {
            proof {
                assert(!is_digit(s@[i as int]));
            }
            return None;
        }
        let d = (c as u64) - 48;
        if acc > (u64::MAX - d) / 10 {
            proof {
                assert(s@.take(i as int + 1).drop_last() =~= s@.take(i as int));
                assert(s@.take(i as int + 1).last() == s@[i as int]);
                assert(digit_val(s@[i as int]) == d);
                assert(dec_value(s@.take(i as int + 1)) == acc * 10 + d);
                assert(acc * 10 + d > u64::MAX);
                lemma_dec_value_take_monotone(s@, i as int + 1, s@.len() as int);
                assert(s@.take(s@.len() as int) =~= s@);
                assert(dec_value(s@) > u64::MAX);
            }
            return None;
        }
        proof {
            assert(acc <= (u64::MAX - d) / 10);
            assert(acc * 10 + d <= u64::MAX);
            assert(s@.take(i as int + 1).drop_last() =~= s@.take(i as int));
            assert(s@.take(i as int + 1).last() == s@[i as int]);
            assert(digit_val(s@[i as int]) == d);
            assert(is_digit(s@[i as int]));
            assert forall|t: int| 0 <= t < i + 1 implies is_digit(
                #[trigger] s@.take(i as int + 1)[t],
            ) by {
                if t < i {
                    assert(s@.take(i as int + 1)[t] == s@.take(i as int)[t]);
                }
            }
        }
        acc = acc * 10 + d;
        i = i + 1;
    }
    proof {
        assert(s@.take(n as int) =~= s@);
    }
    Some(acc)
}

/// Relies on String::push: appends one character at the end.
#[verifier::external_body]
pub(crate) fn push_char(s: &mut String, c: char)
    ensures
        final(s)@ == old(s)@.push(c),
{
    s.push(c)
}

/// The digit character of a value below ten.
fn digit_to_char(d: u32) -> (r: char)
    requires
        d < 10,
    ensures
        r == digit_char(d as nat),
{
    ((d as u8) + 48) as char
}

/// Render a number in decimal.
pub fn u32_to_string(n: u32) -> (r: String)
    ensures
        r@ == dec_string_of(n as nat),
    decreases n,
{
    if n < 10 {
        let mut s = String::new();
        push_char(&mut s, digit_to_char(n));
        proof {
            assert(s@ =~= dec_string_of(n as nat));
        }
        s
    } else {
        let mut s = u32_to_string(n / 10);
        push_char(&mut s, digit_to_char(n % 10));
        s
    }
}

/// Render a wide number in decimal.
pub fn u64_to_string(n: u64) -> (r: String)
    ensures
        r@ == dec_string_of(n as nat),
    decreases n,
{
    if n < 10 {
        let mut s = String::new();
        push_char(&mut s, digit_to_char((n % 10) as u32));
        proof {
            assert(s@ =~= dec_string_of(n as nat));
        }
        s
    } else {
        let mut s = u64_to_string(n / 10);
        push_char(&mut s, digit_to_char((n % 10) as u32));
        s
    }
}

/// The views of a vector of store entries: key, then value with its expiry.
pub open spec fn store_entries_view(s: Seq<(String, String, u64)>) -> Seq<
    (Seq<char>, (Seq<char>, u64)),
> {
    s.map_values(|p: (String, String, u64)| (p.0@, (p.1@, p.2)))
}

/// What a read of key `k` at instant `now` sees in the store mapping `m`:
/// the stored value while `now` is before its expiry, nothing otherwise.
pub open spec fn live_lookup(
    m: Map<Seq<char>, (Seq<char>, u64)>,
    k: Seq<char>,
    now: u64,
) -> Option<Seq<char>> {
    if m.contains_key(k) && now < m[k].1 {
        Some(m[k].0)
    } else {
        None
    }
}

/// An in-memory key-value store with per-entry expiry instants. Models the
/// external TTL store that holds cache entries and rate-limit counters.
pub struct TtlStore {
    entries: Vec<(String, String, u64)>,
}

impl TtlStore {
    /// The stored entries.
    pub closed spec fn pairs(&self) -> Seq<(Seq<char>, (Seq<char>, u64))> {
        store_entries_view(self.entries@)
    }

    /// Well-formed: no key occurs twice.
    pub open spec fn wf(&self) -> bool {
        unique_keys(self.pairs())
    }

    /// The mapping from keys to values with their expiry instants.
    pub open spec fn view(&self) -> Map<Seq<char>, (Seq<char>, u64)> {
        map_of(self.pairs())
    }

    /// An empty store.
    pub fn new() -> (r: TtlStore)
        ensures
            r.wf(),
            r@ == Map::<Seq<char>, (Seq<char>, u64)>::empty(),
    {
        let r = TtlStore { entries: Vec::new() };
        proof {
            assert(r.pairs() =~= Seq::<(Seq<char>, (Seq<char>, u64))>::empty());
        }
        r
    }

    /// The index of the entry with key `k`, if any.
    fn find(&self, k: &str) -> (r: Option<usize>)
        ensures
            match r {
                Some(i) => 0 <= i < self.pairs().len() && self.pairs()[i as int].0 == k@,
                None => !has_key(self.pairs(), k@),
            },
    {
        let n = self.entries.len();
        let mut i: usize = 0;
        while i < n
            invariant
                0 <= i <= n,
                n == self.entries.len(),
                forall|j: int| 0 <= j < i ==> (#[trigger] self.pairs()[j]).0 != k@,
            decreases n - i,
        {
            if str_eq(self.entries[i].0.as_str(), k) {
                proof {
                    assert(self.pairs()[i as int].0 == k@);
                }
                return Some(i);
            }
            proof {
                assert(self.pairs()[i as int].0 == self.entries@[i as int].0@);
            }
            i = i + 1;
        }
        None
    }

    /// Read the value under `k` as of instant `now`. An entry whose expiry
    /// has been reached is as good as absent.
    pub fn get(&self, k: &str, now: u64) -> (r: Option<String>)
        requires
            self.wf(),
        ensures
            match r {
                Some(v) => live_lookup(self@, k@, now) == Some(v@),
                None => live_lookup(self@, k@, now) is None,
            },
    {
        proof {
            lemma_map_of_dom(self.pairs(), k@);
        }
        match self.find(k) {
            Some(i) => {
                proof {
                    lemma_map_of_index(self.pairs(), i as int);
                }
                if now < self.entries[i].2 {
                    Some(self.entries[i].1.clone())
                } else {
                    None
                }
            },
            None => None,
        }
    }

    /// Write `v` under `k`, expiring `ttl` seconds from `now`.
    pub fn set(&mut self, k: &str, v: &str, ttl: u64, now: u64)
        requires
            old(self).wf(),
            now + ttl <= u64::MAX,
        ensures
            final(self).wf(),
            final(self)@ == old(self)@.insert(k@, (v@, (now + ttl) as u64)),
    {
        let expiry: u64 = now + ttl;
        proof {
            lemma_map_of_dom(self.pairs(), k@);
        }
        match self.find(k) {
            Some(i) => {
                proof {
                    lemma_map_of_update(self.pairs(), i as int, (v@, expiry));
                }
                self.entries.set(i, (k.to_owned(), v.to_owned(), expiry));
                proof {
                    assert(self.pairs() =~= old(self).pairs().update(
                        i as int,
                        (k@, (v@, expiry)),
                    ));
                    assert(keys_of(self.pairs()) =~= keys_of(old(self).pairs()));
                }
            },
            None => {
                self.entries.push((k.to_owned(), v.to_owned(), expiry));
                proof {
                    assert(self.pairs() =~= old(self).pairs().push((k@, (v@, expiry))));
                    lemma_map_of_push(old(self).pairs(), k@, (v@, expiry));
                    assert(keys_of(self.pairs()) =~= keys_of(old(self).pairs()).push(k@));
                    assert(forall|j: int|
                        0 <= j < old(self).pairs().len() ==> (#[trigger] old(self).pairs()[j]).0
                            == keys_of(old(self).pairs())[j]);
                }
            },
        }
    }
}

/// A value written under a key reads back exactly until its expiry: before
/// the expiry instant the stored value, from the expiry on nothing.
pub proof fn lemma_store_round_trip(
    m: Map<Seq<char>, (Seq<char>, u64)>,
    k: Seq<char>,
    v: Seq<char>,
    expiry: u64,
    later: u64,
)
    ensures
        live_lookup(m.insert(k, (v, expiry)), k, later) == if later < expiry {
            Some(v)
        } else {
            None::<Seq<char>>
        },
{
}

/// A write under one key does not disturb what a read under another sees.
pub proof fn lemma_store_write_isolated(
    m: Map<Seq<char>, (Seq<char>, u64)>,
    k1: Seq<char>,
    k2: Seq<char>,
    v: Seq<char>,
    expiry: u64,
    now: u64,
)
    requires
        k1 != k2,
    ensures
        live_lookup(m.insert(k1, (v, expiry)), k2, now) == live_lookup(m, k2, now),
{
}

} // verus!
