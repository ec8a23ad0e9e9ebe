//! Building the champion catalog from the catalog document.
//!
//! The document names each champion's numeric id as a decimal string; the
//! catalog is keyed by that number.  [`parse_champ_id`] reads the string,
//! and [`build_catalog`] folds the document's entries into the keyed map
//! that [`SharedState`](crate::shared::SharedState) stores write-once.

use vstd::prelude::*;
use vstd::string::StrSliceExecFns;
use vstd::string::StringExecFns;

use std::collections::HashMap;

use crate::domain::{ChampData, ChampionJson};
use crate::protocol::Errors;
use crate::shared::Champ;

verus! {

broadcast use vstd::std_specs::hash::group_hash_axioms;

/// Whether `c` is one of the characters `'0'` through `'9'`.
pub open spec fn is_dec_digit(c: char) -> bool {
    48 <= c as u32 <= 57
}

/// Whether every character of `s` is a decimal digit.
pub open spec fn all_dec_digits(s: Seq<char>) -> bool {
    forall|i: int| 0 <= i < s.len() ==> is_dec_digit(#[trigger] s[i])
}

/// The number written by `s`, read as a decimal numeral.
pub open spec fn dec_value(s: Seq<char>) -> int
    decreases s.len(),
{
    if s.len() == 0 {
        0
    } else {
        dec_value(s.drop_last()) * 10 + (s.last() as u32 - 48)
    }
}

/// Whether `s` is a champion id the catalog accepts: a non-empty run of
/// decimal digits whose value fits an `i64`.
pub open spec fn valid_champ_id(s: Seq<char>) -> bool {
    s.len() > 0 && all_dec_digits(s) && dec_value(s) <= i64::MAX
}

proof fn lemma_dec_value_nonneg(s: Seq<char>)
    requires
        all_dec_digits(s),
    ensures
        dec_value(s) >= 0,
    decreases s.len(),
{
    if s.len() > 0 {
        assert(all_dec_digits(s.drop_last()));
        lemma_dec_value_nonneg(s.drop_last());
    }
}

/// A longer run of digits never writes a smaller number: the value of a
/// prefix bounds the value of the whole numeral from below.
proof fn lemma_dec_value_prefix_le(s: Seq<char>, i: int)
    requires
        all_dec_digits(s),
        0 <= i <= s.len(),
    ensures
        dec_value(s.take(i)) <= dec_value(s),
    decreases s.len() - i,
{
    if i == s.len() {
        assert(s.take(i) =~= s);
    } else {
        assert(s.take(i + 1).drop_last() =~= s.take(i));
        assert(s.take(i + 1).last() == s[i]);
        assert(all_dec_digits(s.take(i)));
        lemma_dec_value_nonneg(s.take(i));
        assert(dec_value(s.take(i + 1)) == dec_value(s.take(i)) * 10 + (s[i] as u32 - 48));
        assert(dec_value(s.take(i)) <= dec_value(s.take(i + 1))) by (nonlinear_arith)
            requires
                dec_value(s.take(i)) >= 0,
                is_dec_digit(s[i]),
                dec_value(s.take(i + 1)) == dec_value(s.take(i)) * 10 + (s[i] as u32 - 48),
        ;
        lemma_dec_value_prefix_le(s, i + 1);
    }
}

/// Read a champion id.  Returns the id's value exactly when the string is a
/// non-empty run of decimal digits naming a number that fits an `i64`.
pub fn parse_champ_id(s: &str) -> (r: Option<i64>)
    ensures
        match r {
            Some(v) => valid_champ_id(s@) && v == dec_value(s@),
            None => !valid_champ_id(s@),
        },
{
    let n = s.unicode_len();
    if n == 0 {
        return None;
    }
    let mut acc: i64 = 0;
    let mut i: usize = 0;
    while i < n
        invariant
            n == s@.len(),
            0 <= i <= n,
            all_dec_digits(s@.take(i as int)),
            acc == dec_value(s@.take(i as int)),
            0 <= acc,
        decreases n - i,
    {
        let c = s.get_char(i);
        let code = c as u32;
        if code < 48 || code > 57 {
            assert(!all_dec_digits(s@)) by {
                assert(s@[i as int] == c);
                assert(!is_dec_digit(s@[i as int]));
            }
            return None;
        }
        let d = (code - 48) as i64;
        proof {
            assert(s@.take(i + 1).drop_last() =~= s@.take(i as int));
            assert(s@.take(i + 1).last() == s@[i as int]);
            assert(dec_value(s@.take(i + 1)) == acc * 10 + d);
        }
        if acc > (i64::MAX - d) / 10 {
            proof {
                assert(acc * 10 + d > i64::MAX) by (nonlinear_arith)
                    requires
                        acc > (i64::MAX - d) / 10,
                        0 <= d <= 9,
                ;
                assert(dec_value(s@.take(i + 1)) > i64::MAX);
                if all_dec_digits(s@) {
                    lemma_dec_value_prefix_le(s@, i + 1);
                }
            }
            return None;
        }
        proof {
            assert(acc * 10 + d <= i64::MAX) by (nonlinear_arith)
                requires
                    acc <= (i64::MAX - d) / 10,
                    0 <= acc,
                    0 <= d <= 9,
            ;
        }
        acc = acc * 10 + d;
        i += 1;
    }
    proof {
        assert(s@.take(n as int) =~= s@);
    }
    Some(acc)
}

impl From<ChampData> for Champ {
    /// A freshly catalogued champion: artwork not yet fetched.
    fn from(val: ChampData) -> (r: Champ) {
        Champ { key: val.key, name: val.name, image: None, image_started: false }
    }
}

impl vstd::std_specs::convert::FromSpecImpl<ChampData> for Champ {
    open spec fn obeys_from_spec() -> bool {
        true
    }

    open spec fn from_spec(v: ChampData) -> Champ {
        champ_of(v)
    }
}

/// The catalog entry a document entry turns into.
pub open spec fn champ_of(d: ChampData) -> Champ {
    Champ { key: d.key, name: d.name, image: None, image_started: false }
}

/// Whether every entry of the document carries a readable champion id.
pub open spec fn catalog_ids_ok(entries: Seq<ChampData>) -> bool {
    forall|i: int| 0 <= i < entries.len() ==> valid_champ_id(#[trigger] entries[i].id@)
}

/// The keyed catalog a document folds into; on a duplicate id the later
/// entry wins, as when inserting in document order.
pub open spec fn catalog_of(entries: Seq<ChampData>) -> Map<i64, Champ>
    decreases entries.len(),
{
    if entries.len() == 0 {
        Map::empty()
    } else {
        catalog_of(entries.drop_last()).insert(
            dec_value(entries.last().id@) as i64,
            champ_of(entries.last()),
        )
    }
}

/// Turn the catalog document into the keyed champion catalog.  Fails with a
/// decode error exactly when some entry's id is not a readable decimal
/// number.
pub fn build_catalog(json: &ChampionJson) -> (r: Result<HashMap<i64, Champ>, Errors>)
    ensures
        match r {
            Ok(m) => catalog_ids_ok(json.data@) && m@ == catalog_of(json.data@),
            Err(e) => !catalog_ids_ok(json.data@) && e is Decode,
        },
{
    let ghost all = json.data@;
    let mut map: HashMap<i64, Champ> = HashMap::new();
    let mut i: usize = 0;
    proof {
        assert(all.take(0) =~= Seq::<ChampData>::empty());
    }
    while i < json.data.len()
        invariant
            0 <= i <= all.len(),
            all == json.data@,
            catalog_ids_ok(all.take(i as int)),
            map@ == catalog_of(all.take(i as int)),
        decreases all.len() - i,
    {
        let d = &json.data[i];
        proof {
            assert(all.take(i + 1).drop_last() =~= all.take(i as int));
            assert(all.take(i + 1).last() == all[i as int]);
        }
        let id = match parse_champ_id(d.id.as_str()) {
            Some(id) => id,
            None => {
                proof {
                    assert(!valid_champ_id(all[i as int].id@));
                    assert(!catalog_ids_ok(all));
                }
                return Err(Errors::Decode(String::from_str("champion id is not a decimal number")));
            },
        };
        let champ = Champ {
            key: d.key.clone(),
            name: d.name.clone(),
            image: None,
            image_started: false,
        };
        assert(champ == champ_of(all[i as int]));
        map.insert(id, champ);
        i += 1;
    }
    proof {
        assert(all.take(i as int) =~= all);
    }
    Ok(map)
}

} // verus!
