//! Reading of the decay template, a two-column CSV file (time in microseconds, value).
//! Each data line holds two fields separated by a comma; lines with another number of
//! fields are skipped.
use vstd::prelude::*;
use vstd::string::{StrSliceExecFns, StringExecFns};

verus! {

/// Number of commas in `s`.
pub open spec fn comma_count(s: Seq<char>) -> nat
    decreases s.len(),
{
    if s.len() == 0 {
        0
    } else {
        comma_count(s.drop_last()) + if s.last() == ',' {
            1nat
        } else {
            0nat
        }
    }
}

/// Commas of a concatenation are those of its two parts.
pub proof fn lemma_comma_count_concat(x: Seq<char>, y: Seq<char>)
    ensures
        comma_count(x + y) == comma_count(x) + comma_count(y),
    decreases y.len(),
{
    if y.len() == 0 {
        assert(x + y == x);
    } else {
        lemma_comma_count_concat(x, y.drop_last());
        assert((x + y).drop_last() == x + y.drop_last());
        assert((x + y).last() == y.last());
    }
}

/// Splits a CSV line into its two fields, when it has exactly two, that is exactly one
/// comma: the text before the comma and the text after it. `None` for any other line.
pub fn split_two_columns(line: &str) -> (fields: Option<(String, String)>)
    ensures
        fields is Some <==> comma_count(line@) == 1,
        fields matches Some((first, second)) ==> {
            &&& first@ + seq![','] + second@ == line@
            &&& comma_count(first@) == 0
            &&& comma_count(second@) == 0
        },
{
    let n = line.unicode_len();
    let mut count: usize = 0;
    let mut first_comma: usize = 0;
    let mut i: usize = 0;
    while i < n
        invariant
            n == line@.len(),
            i <= n,
            count == comma_count(line@.take(i as int)),
            count <= i,
            count >= 1 ==> first_comma < i && line@[first_comma as int] == ','
                && comma_count(line@.take(first_comma as int)) == 0,
        decreases n - i,
    {
        let c = line.get_char(i);
        proof {
            assert(line@.take(i + 1).drop_last() == line@.take(i as int));
            assert(line@.take(i + 1).last() == c);
        }
        if c == ',' {
            if count == 0 {
                first_comma = i;
            }
            count = count + 1;
        }
        i += 1;
    }
    assert(line@.take(n as int) == line@);
    if count != 1 {
        return None;
    }
    let k = first_comma;
    let before = line.substring_char(0, k);
    let after = line.substring_char(k + 1, n);
    proof {
        let s = line@;
        assert(s == s.take(k as int) + seq![','] + s.skip(k + 1));
        lemma_comma_count_concat(s.take(k as int) + seq![','], s.skip(k + 1));
        lemma_comma_count_concat(s.take(k as int), seq![',']);
        assert(seq![','].drop_last() =~= Seq::<char>::empty());
        assert(before@ == s.take(k as int));
        assert(after@ == s.skip(k + 1));
    }
    Some((String::from_str(before), String::from_str(after)))
}

} // verus!
