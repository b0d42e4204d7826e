//! Parsing of the configured table-name list: a comma-separated string is
//! split at every comma and each segment is stripped of surrounding
//! whitespace, in order.

use vstd::prelude::*;

use crate::strings::push_char;
use crate::strings::trim_str;
use crate::strings::trimmed;

verus! {

/// The raw comma-separated segments of `s`: the text between consecutive
/// commas, in order. An input without a comma is one segment, so the empty
/// input gives one empty segment.
pub open spec fn split_commas(s: Seq<char>) -> Seq<Seq<char>>
    decreases s.len(),
{
    if s.len() == 0 {
        seq![Seq::<char>::empty()]
    } else if s[0] == ',' {
        seq![Seq::<char>::empty()] + split_commas(s.skip(1))
    } else {
        let rest = split_commas(s.skip(1));
        seq![seq![s[0]] + rest[0]] + rest.skip(1)
    }
}

/// The parsed table-name list: every comma-separated segment of the input,
/// each with surrounding whitespace removed.
pub open spec fn table_names(s: Seq<char>) -> Seq<Seq<char>> {
    split_commas(s).map_values(|seg: Seq<char>| trimmed(seg))
}

/// Splitting always yields at least one segment.
pub proof fn lemma_split_commas_len(s: Seq<char>)
    ensures
        split_commas(s).len() >= 1,
    decreases s.len(),
{
    if s.len() == 0 {
    } else {
        lemma_split_commas_len(s.skip(1));
    }
}

/// The still-open first segment `p`, glued onto the front of the first of
/// the segments `segs` of the unread rest of the input.
spec fn prepend_first(p: Seq<char>, segs: Seq<Seq<char>>) -> Seq<Seq<char>>
    recommends
        segs.len() > 0,
{
    seq![p + segs[0]] + segs.skip(1)
}

/// Splits the configured table-name string at commas and trims each
/// segment, exactly as [`table_names`] states.
pub fn parse_table_name(input: &str) -> (r: Vec<String>)
    ensures
        r.deep_view() == table_names(input@),
{
    let len = input.unicode_len();
    let mut result: Vec<String> = Vec::new();
    let mut cur = String::new();
    let mut i: usize = 0;
    let ghost mut done: Seq<Seq<char>> = Seq::empty();
    proof {
        assert(input@.skip(0) =~= input@);
        lemma_split_commas_len(input@);
        assert(Seq::<char>::empty() + split_commas(input@)[0] =~= split_commas(input@)[0]);
        assert(done + prepend_first(cur@, split_commas(input@.skip(0))) =~~= split_commas(
            input@,
        ));
    }
    while i < len
        invariant
            len == input@.len(),
            i <= len,
            split_commas(input@) == done + prepend_first(
                cur@,
                split_commas(input@.skip(i as int)),
            ),
            result@.len() == done.len(),
            forall|k: int| 0 <= k < done.len() ==> result@[k]@ == trimmed(done[k]),
        decreases len - i,
    {
        let c = input.get_char(i);
        proof {
            assert(input@.skip(i as int)[0] == input@[i as int]);
            assert(input@.skip(i as int).skip(1) =~= input@.skip(i + 1));
            lemma_split_commas_len(input@.skip(i + 1));
        }
        if c == ',' {
            let segment = trim_str(cur.as_str());
            result.push(segment);
            proof {
                let rest = split_commas(input@.skip(i + 1));
                assert(prepend_first(cur@, seq![Seq::<char>::empty()] + rest) =~~= seq![cur@]
                    + rest);
                assert(Seq::<char>::empty() + rest[0] =~= rest[0]);
                assert(seq![rest[0]] + rest.skip(1) =~~= rest);
                done = done.push(cur@);
                assert(done + prepend_first(Seq::<char>::empty(), rest) =~~= split_commas(
                    input@,
                ));
            }
            cur = String::new();
        } else {
            proof {
                let rest = split_commas(input@.skip(i + 1));
                assert(split_commas(input@.skip(i as int)) == seq![seq![input@[i as int]]
                    + rest[0]] + rest.skip(1));
                assert((seq![seq![input@[i as int]] + rest[0]] + rest.skip(1)).skip(1) =~~=
                    rest.skip(1));
                assert(cur@ + (seq![input@[i as int]] + rest[0]) =~= cur@.push(input@[i as int])
                    + rest[0]);
                assert(prepend_first(cur@, split_commas(input@.skip(i as int))) =~~=
                    prepend_first(cur@.push(input@[i as int]), rest));
            }
            push_char(&mut cur, c);
        }
        i = i + 1;
    }
    let segment = trim_str(cur.as_str());
    result.push(segment);
    proof {
        assert(input@.skip(len as int) =~= Seq::<char>::empty());
        assert(cur@ + split_commas(Seq::<char>::empty())[0] =~= cur@);
        assert(prepend_first(cur@, split_commas(Seq::<char>::empty())) =~~= seq![cur@]);
        assert(split_commas(input@) =~~= done.push(cur@));
        assert(r_deep_matches(result, done.push(cur@)));
        assert(result.deep_view() =~~= table_names(input@));
    }
    result
}

/// Every trimmed segment held in `result` matches the raw segment list.
spec fn r_deep_matches(result: Vec<String>, raw: Seq<Seq<char>>) -> bool {
    result@.len() == raw.len() && forall|k: int|
        0 <= k < raw.len() ==> result@[k]@ == trimmed(raw[k])
}

} // verus!
