//! Files of named counters: one key and one value on each line.

use vstd::prelude::*;
use vstd::string::StringExecFns;
use crate::text::chars_of;
use crate::text::parse_u64_range;
use crate::text::parse_u64_spec;
use crate::text::pieces_view;
use crate::text::split;
use crate::text::split_spec;
use crate::text::string_of;

verus! {

/// The counter that the fields of one line make: a key, then a value. Any
/// other line makes none.
pub open spec fn pair_spec(fields: Seq<Seq<char>>) -> Option<(Seq<char>, u64)> {
    if fields.len() == 2 {
        match parse_u64_spec(fields[1]) {
            Some(value) => Some((fields[0], value)),
            None => None,
        }
    } else {
        None
    }
}

/// The counters of some lines, in order, each under its key as it stands
/// there. A line without a field is passed over; one line that makes no
/// counter leaves the whole without a result.
pub open spec fn pairs_spec(lines: Seq<Seq<char>>) -> Option<Seq<(Seq<char>, u64)>>
    decreases lines.len(),
{
    if lines.len() == 0 {
        Some(Seq::empty())
    } else {
        match pairs_spec(lines.drop_last()) {
            None => None,
            Some(pairs) => {
                let fields = split_spec(lines.last(), false);
                if fields.len() == 0 {
                    Some(pairs)
                } else {
                    match pair_spec(fields) {
                        Some(pair) => Some(pairs.push(pair)),
                        None => None,
                    }
                }
            },
        }
    }
}

/// The counters that the content of a file holds.
pub open spec fn keyed_spec(content: Seq<char>) -> Option<Seq<(Seq<char>, u64)>> {
    pairs_spec(split_spec(content, true))
}

/// The value of the first counter under `key`, if there is one.
pub open spec fn value_of(pairs: Seq<(Seq<char>, u64)>, key: Seq<char>) -> Option<u64>
    decreases pairs.len(),
{
    if pairs.len() == 0 {
        None
    } else if pairs.first().0 == key {
        Some(pairs.first().1)
    } else {
        value_of(pairs.drop_first(), key)
    }
}

/// Each counter with its key as a sequence of characters.
pub open spec fn counters_view(pairs: Seq<(String, u64)>) -> Seq<(Seq<char>, u64)> {
    pairs.map_values(|p: (String, u64)| (p.0@, p.1))
}

/// Once some first lines hold a line that makes no counter, no longer
/// listing has a result.
pub proof fn lemma_bad_pair_stays(lines: Seq<Seq<char>>, k: int)
    requires
        0 <= k <= lines.len(),
        pairs_spec(lines.take(k)) is None,
    ensures
        pairs_spec(lines) is None,
    decreases lines.len(),
{
    if k == lines.len() {
        assert(lines.take(k) =~= lines);
    } else {
        assert(lines.drop_last().take(k) =~= lines.take(k));
        lemma_bad_pair_stays(lines.drop_last(), k);
    }
}

/// The counters that `content` holds, if it holds nothing else.
pub fn parse_keyed(content: &str) -> (r: Option<Vec<(String, u64)>>)
    ensures
        match r {
            Some(pairs) => keyed_spec(content@) == Some(counters_view(pairs@)),
            None => keyed_spec(content@) is None,
        },
{
    let chars = chars_of(content);
    let lines = split(&chars, true);
    let ghost all = pieces_view(lines@);
    let mut pairs: Vec<(String, u64)> = Vec::new();
    let n: usize = lines.len();
    let mut i: usize = 0;
    assert(counters_view(pairs@) =~= Seq::<(Seq<char>, u64)>::empty());
    while i < n
        invariant
            i <= n,
            n == lines.len(),
            all == pieces_view(lines@),
            all == split_spec(content@, true),
            pairs_spec(all.take(i as int)) == Some(counters_view(pairs@)),
        decreases n - i,
    {
        proof {
            assert(all.take(i + 1).drop_last() =~= all.take(i as int));
            assert(all.take(i + 1).last() == lines@[i as int]@);
        }
        let fields = split(&lines[i], false);
        proof {
            assert(pieces_view(fields@).len() == fields.len());
        }
        if fields.len() == 2 {
            let text: &Vec<char> = &fields[1];
            proof {
                assert(pieces_view(fields@)[0] == fields@[0]@);
                assert(pieces_view(fields@)[1] == text@);
                assert(text@.subrange(0, text.len() as int) =~= text@);
            }
            match parse_u64_range(text, 0, text.len()) {
                Some(value) => {
                    let ghost before = pairs@;
                    let key = string_of(&fields[0]);
                    pairs.push((key, value));
                    assert(counters_view(pairs@) =~= counters_view(before).push((key@, value)));
                },
                None => {
                    proof {
                        lemma_bad_pair_stays(all, i + 1);
                    }
                    return None;
                },
            }
        } else if fields.len() > 0 {
            proof {
                lemma_bad_pair_stays(all, i + 1);
            }
            return None;
        }
        i += 1;
    }
    assert(all.take(n as int) =~= all);
    Some(pairs)
}

/// The value of the first counter under `key`.
pub fn find_value(pairs: &Vec<(String, u64)>, key: &str) -> (r: Option<u64>)
    ensures
        r == value_of(counters_view(pairs@), key@),
{
    let wanted = String::from_str(key);
    let ghost all = counters_view(pairs@);
    let n: usize = pairs.len();
    let mut i: usize = 0;
    assert(all.skip(0) =~= all);
    while i < n
        invariant
            i <= n,
            n == pairs.len(),
            wanted@ == key@,
            all == counters_view(pairs@),
            value_of(all, key@) == value_of(all.skip(i as int), key@),
        decreases n - i,
    {
        proof {
            assert(all.skip(i as int).first() == (pairs@[i as int].0@, pairs@[i as int].1));
            assert(all.skip(i as int).drop_first() =~= all.skip(i + 1));
        }
        if pairs[i].0 == wanted {
            return Some(pairs[i].1);
        }
        i += 1;
    }
    None
}

} // verus!
