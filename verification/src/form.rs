//! Parsing of `application/x-www-form-urlencoded`-shaped text, as the todo
//! form and the challenge query string use it: pairs separated by `&`, each
//! pair split at its first two `=` signs, no percent-decoding. A pair
//! without `=` is dropped; when one key occurs twice, the later pair wins.

use vstd::prelude::*;

use crate::text::{find_char, find_first, lemma_find_first, str_eq};

verus! {

/// The key of a pair: everything before the first `=`.
pub open spec fn key_of(p: Seq<char>) -> Seq<char> {
    p.take(find_first(p, '=')->Some_0)
}

/// The value of a pair: everything between the first `=` and the second
/// `=` or the end, whichever comes first.
pub open spec fn val_of(p: Seq<char>) -> Seq<char> {
    let rest = p.skip(find_first(p, '=')->Some_0 + 1);
    match find_first(rest, '=') {
        None => rest,
        Some(j) => rest.take(j),
    }
}

/// The pairs contributed by one `&`-separated piece: one pair if it holds
/// an `=`, none otherwise.
pub open spec fn pair_list(p: Seq<char>) -> Seq<(Seq<char>, Seq<char>)> {
    if find_first(p, '=') is Some {
        seq![(key_of(p), val_of(p))]
    } else {
        seq![]
    }
}

/// All pairs of a form body, in order of appearance.
pub open spec fn parse_form(body: Seq<char>) -> Seq<(Seq<char>, Seq<char>)>
    decreases body.len(),
        via parse_form_dec
{
    match find_first(body, '&') {
        None => pair_list(body),
        Some(i) => pair_list(body.take(i)) + parse_form(body.skip(i + 1)),
    }
}

#[via_fn]
proof fn parse_form_dec(body: Seq<char>) {
    lemma_find_first(body, '&');
}

/// The value bound to `key`, later pairs overriding earlier ones.
pub open spec fn lookup(pairs: Seq<(Seq<char>, Seq<char>)>, key: Seq<char>) -> Option<Seq<char>>
    decreases pairs.len(),
{
    if pairs.len() == 0 {
        None
    } else if pairs.last().0 == key {
        Some(pairs.last().1)
    } else {
        lookup(pairs.drop_last(), key)
    }
}

/// Splits one piece at its first `=`, if it has one.
fn split_pair(p: &str) -> (r: Option<(String, String)>)
    ensures
        match r {
            Some(kv) => find_first(p@, '=') is Some && kv.0@ == key_of(p@) && kv.1@ == val_of(p@),
            None => find_first(p@, '=') is None,
        },
{
    let n = p.unicode_len();
    match find_char(p, '=') {
        None => None,
        Some(i) => {
            proof {
                lemma_find_first(p@, '=');
            }
            let key = p.substring_char(0, i).to_owned();
            let rest = p.substring_char(i + 1, n);
            proof {
                assert(key@ =~= key_of(p@));
                assert(rest@ =~= p@.skip(i + 1));
            }
            let m = rest.unicode_len();
            let val = match find_char(rest, '=') {
                None => rest.to_owned(),
                Some(j) => {
                    proof {
                        lemma_find_first(rest@, '=');
                    }
                    rest.substring_char(0, j).to_owned()
                },
            };
            proof {
                assert(val@ =~= val_of(p@));
            }
            Some((key, val))
        },
    }
}

/// Parses a form body into its key/value pairs, in order. The name is
/// candid about the format it accepts.
pub fn ugly_form_body_parser(body: &str) -> (pairs: Vec<(String, String)>)
    ensures
        pairs.deep_view() == parse_form(body@),
    decreases body@.len(),
{
    let n = body.unicode_len();
    match find_char(body, '&') {
        None => {
            match split_pair(body) {
                None => {
                    let pairs: Vec<(String, String)> = Vec::new();
                    proof {
                        assert(pairs.deep_view() =~= parse_form(body@));
                    }
                    pairs
                },
                Some(kv) => {
                    let mut pairs: Vec<(String, String)> = Vec::new();
                    pairs.push(kv);
                    proof {
                        assert(pairs.deep_view() =~= parse_form(body@));
                    }
                    pairs
                },
            }
        },
        Some(i) => {
            proof {
                lemma_find_first(body@, '&');
            }
            let head = body.substring_char(0, i);
            let tail = body.substring_char(i + 1, n);
            proof {
                assert(head@ =~= body@.take(i as int));
                assert(tail@ =~= body@.skip(i + 1));
            }
            let mut pairs: Vec<(String, String)> = Vec::new();
            if let Some(kv) = split_pair(head) {
                pairs.push(kv);
            }
            let mut rest = ugly_form_body_parser(tail);
            pairs.append(&mut rest);
            proof {
                assert(pairs.deep_view() =~= parse_form(body@));
            }
            pairs
        },
    }
}

/// The value bound to `key` in parsed pairs, the last binding winning, as
/// a map built by inserting the pairs in order would hold it.
pub fn form_value(pairs: &Vec<(String, String)>, key: &str) -> (r: Option<String>)
    ensures
        match r {
            Some(v) => lookup(pairs.deep_view(), key@) == Some(v@),
            None => lookup(pairs.deep_view(), key@) is None,
        },
{
    let mut i: usize = pairs.len();
    proof {
        assert(pairs.deep_view().take(i as int) =~= pairs.deep_view());
    }
    while i > 0
        invariant
            0 <= i <= pairs.len(),
            lookup(pairs.deep_view(), key@) == lookup(pairs.deep_view().take(i as int), key@),
        decreases i,
    {
        i = i - 1;
        if str_eq(pairs[i].0.as_str(), key) {
            proof {
                assert(pairs.deep_view().take(i + 1).last() == (pairs[i as int].0@, pairs[
                    i as int
                ].1@));
            }
            return Some(pairs[i].1.clone());
        }
        proof {
            assert(pairs.deep_view().take(i + 1).drop_last() =~= pairs.deep_view().take(i as int));
        }
    }
    proof {
        assert(pairs.deep_view().take(0) =~= Seq::<(Seq<char>, Seq<char>)>::empty());
    }
    None
}

} // verus!
