//! Text of the queries that look records up by a list of identifiers.

use crate::decimal::{
    IntErrorKind, append_ascii, ascii_chars, decimal_bytes, decimal_digits, decimal_i64,
    lemma_decimal_digits_are_digits, lemma_decimal_round_trip, parse_i64_spec,
};
use crate::records::{Building, Lessor, User};
use vstd::prelude::*;

verus! {

/// The decimal texts of the identifiers, in order, separated by commas.
pub open spec fn joined_ids(ids: Seq<i64>) -> Seq<u8>
    decreases ids.len(),
{
    if ids.len() == 0 {
        Seq::empty()
    } else if ids.len() == 1 {
        decimal_bytes(ids[0] as int)
    } else {
        joined_ids(ids.drop_last()) + seq![44u8] + decimal_bytes(ids.last() as int)
    }
}

proof fn lemma_ascii_chars_concat(a: Seq<u8>, b: Seq<u8>)
    ensures
        ascii_chars(a + b) == ascii_chars(a) + ascii_chars(b),
{
    assert(ascii_chars(a + b) =~= ascii_chars(a) + ascii_chars(b));
}

/// The fields of a text between its commas, in order.
pub open spec fn split_at_commas(s: Seq<u8>) -> Seq<Seq<u8>>
    decreases s.len(),
{
    if s.len() == 0 {
        seq![Seq::<u8>::empty()]
    } else {
        let fields = split_at_commas(s.drop_last());
        if s.last() == 44u8 {
            fields.push(Seq::<u8>::empty())
        } else {
            fields.update(fields.len() - 1, fields.last().push(s.last()))
        }
    }
}

pub open spec fn has_no_comma(s: Seq<u8>) -> bool {
    forall|i: int| 0 <= i < s.len() ==> #[trigger] s[i] != 44u8
}

proof fn lemma_split_at_commas_len(s: Seq<u8>)
    ensures
        split_at_commas(s).len() >= 1,
    decreases s.len(),
{
    if s.len() > 0 {
        lemma_split_at_commas_len(s.drop_last());
    }
}

/// Text without a comma after a comma becomes one more field.
proof fn lemma_split_after_comma(a: Seq<u8>, b: Seq<u8>)
    requires
        has_no_comma(b),
    ensures
        split_at_commas(a + seq![44u8] + b) == split_at_commas(a).push(b),
    decreases b.len(),
{
    let t = a + seq![44u8] + b;
    if b.len() == 0 {
        assert(t.drop_last() =~= a);
        assert(t.last() == 44u8);
        assert(b =~= Seq::<u8>::empty());
    } else {
        let b0 = b.drop_last();
        assert(has_no_comma(b0)) by {
            assert forall|i: int| 0 <= i < b0.len() implies #[trigger] b0[i] != 44u8 by {
                assert(b0[i] == b[i]);
            }
        }
        lemma_split_after_comma(a, b0);
        assert(t.drop_last() =~= a + seq![44u8] + b0);
        assert(t.last() == b.last());
        assert(b.last() != 44u8) by {
            assert(b[b.len() - 1] != 44u8);
        }
        lemma_split_at_commas_len(a);
        assert(b0.push(b.last()) =~= b);
        assert(split_at_commas(t) =~= split_at_commas(a).push(b));
    }
}

/// Text without a comma is one field.
proof fn lemma_split_without_comma(b: Seq<u8>)
    requires
        has_no_comma(b),
    ensures
        split_at_commas(b) == seq![b],
    decreases b.len(),
{
    if b.len() > 0 {
        let b0 = b.drop_last();
        assert(has_no_comma(b0)) by {
            assert forall|i: int| 0 <= i < b0.len() implies #[trigger] b0[i] != 44u8 by {
                assert(b0[i] == b[i]);
            }
        }
        lemma_split_without_comma(b0);
        assert(b[b.len() - 1] != 44u8);
        assert(b0.push(b.last()) =~= b);
        assert(split_at_commas(b) =~= seq![b]);
    } else {
        assert(b =~= Seq::<u8>::empty());
    }
}

/// The decimal text of a number holds no comma.
proof fn lemma_decimal_has_no_comma(n: int)
    ensures
        has_no_comma(decimal_bytes(n)),
{
    let s = decimal_bytes(n);
    let m: nat = if n < 0 { (-n) as nat } else { n as nat };
    lemma_decimal_digits_are_digits(m);
    assert forall|i: int| 0 <= i < s.len() implies #[trigger] s[i] != 44u8 by {
        if n < 0 && i > 0 {
            assert(s[i] == decimal_digits(m)[i - 1]);
        }
    }
}

/// The list in a lookup query names exactly the identifiers asked for: its
/// fields between commas are, in order, texts that read back as those
/// identifiers.
pub proof fn lemma_joined_ids_read_back(ids: Seq<i64>)
    requires
        ids.len() > 0,
    ensures
        split_at_commas(joined_ids(ids)).len() == ids.len(),
        forall|i: int|
            0 <= i < ids.len() ==> parse_i64_spec(#[trigger] split_at_commas(joined_ids(ids))[i]) == Ok::<
                i64,
                IntErrorKind,
            >(ids[i]),
    decreases ids.len(),
{
    let fields = split_at_commas(joined_ids(ids));
    if ids.len() == 1 {
        lemma_decimal_has_no_comma(ids[0] as int);
        lemma_split_without_comma(decimal_bytes(ids[0] as int));
        lemma_decimal_round_trip(ids[0]);
    } else {
        let p = ids.drop_last();
        lemma_joined_ids_read_back(p);
        lemma_decimal_has_no_comma(ids.last() as int);
        lemma_split_after_comma(joined_ids(p), decimal_bytes(ids.last() as int));
        lemma_decimal_round_trip(ids.last());
        assert forall|i: int| 0 <= i < ids.len() implies parse_i64_spec(#[trigger] fields[i]) == Ok::<
            i64,
            IntErrorKind,
        >(ids[i]) by {
            if i < ids.len() - 1 {
                assert(fields[i] == split_at_commas(joined_ids(p))[i]);
                assert(ids[i] == p[i]);
            }
        }
    }
}

/// Appends the comma-separated decimal texts of the identifiers.
fn append_joined_ids(s: &mut String, ids: &[i64])
    ensures
        final(s)@ == old(s)@ + ascii_chars(joined_ids(ids@)),
{
    let ghost start: Seq<char> = s@;
    let mut i: usize = 0;
    assert(ids@.take(0) =~= Seq::<i64>::empty());
    assert(ascii_chars(Seq::<u8>::empty()) =~= Seq::<char>::empty());
    while i < ids.len()
        invariant
            i <= ids@.len(),
            s@ == start + ascii_chars(joined_ids(ids@.take(i as int))),
        decreases ids@.len() - i,
    {
        let ghost before: Seq<char> = s@;
        let ghost prefix: Seq<i64> = ids@.take(i as int);
        let ghost next: Seq<i64> = ids@.take(i + 1);
        assert(next.drop_last() =~= prefix);
        if i > 0 {
            append_ascii(s, &[44u8]);
            assert(seq![44u8] =~= [44u8]@);
        }
        let digits: Vec<u8> = decimal_i64(ids[i]);
        append_ascii(s, digits.as_slice());
        proof {
            if i == 0 {
                assert(prefix =~= Seq::<i64>::empty());
                assert(before =~= start);
                assert(s@ =~= start + ascii_chars(joined_ids(next)));
            } else {
                lemma_ascii_chars_concat(joined_ids(prefix), seq![44u8]);
                lemma_ascii_chars_concat(joined_ids(prefix) + seq![44u8], digits@);
                assert(s@ =~= start + ascii_chars(joined_ids(next)));
            }
        }
        i = i + 1;
    }
    assert(ids@.take(i as int) =~= ids@);
}

/// `prefix`, the identifiers and `suffix`, or nothing when there are no
/// identifiers (no query is sent then).
fn ids_query(prefix: &str, ids: &[i64], suffix: &str) -> (q: Option<String>)
    ensures
        q is None <==> ids@.len() == 0,
        q matches Some(text) ==> text@ == prefix@ + ascii_chars(joined_ids(ids@)) + suffix@,
{
    if ids.len() == 0 {
        return None;
    }
    let mut text: String = String::from_str(prefix);
    append_joined_ids(&mut text, ids);
    text.append(suffix);
    Some(text)
}

impl Building {
    /// The query that `find_by_ids` sends for these identifiers; none for an
    /// empty list, which finds nothing without asking the database.
    pub fn find_by_ids_query(ids: &[i64]) -> (q: Option<String>)
        ensures
            q is None <==> ids@.len() == 0,
            q matches Some(text) ==> text@ == "SELECT * FROM buildings WHERE id IN ("@ + ascii_chars(
                joined_ids(ids@),
            ) + ")"@,
    {
        ids_query("SELECT * FROM buildings WHERE id IN (", ids, ")")
    }
}

impl Lessor {
    /// The query that `find_by_ids` sends for these identifiers; none for an
    /// empty list, which finds nothing without asking the database.
    pub fn find_by_ids_query(ids: &[i64]) -> (q: Option<String>)
        ensures
            q is None <==> ids@.len() == 0,
            q matches Some(text) ==> text@ == "SELECT * FROM lessors WHERE id IN ("@ + ascii_chars(
                joined_ids(ids@),
            ) + ")"@,
    {
        ids_query("SELECT * FROM lessors WHERE id IN (", ids, ")")
    }
}

impl User {
    /// The query that `find_by_ids` sends for these identifiers; none for an
    /// empty list, which finds nothing without asking the database.
    pub fn find_by_ids_query(ids: &[i64]) -> (q: Option<String>)
        ensures
            q is None <==> ids@.len() == 0,
            q matches Some(text) ==> text@ == "\n        SELECT * FROM users WHERE id IN ("@
                + ascii_chars(joined_ids(ids@)) + ")\n        "@,
    {
        ids_query("\n        SELECT * FROM users WHERE id IN (", ids, ")\n        ")
    }
}

} // verus!
