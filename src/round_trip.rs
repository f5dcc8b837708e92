//! How decoding and encoding CPU lists undo each other.
use vstd::prelude::*;

use crate::range::{
    all_digits, all_usize_texts, decimal, digit_char, digit_value, digits_value, is_digit,
    is_line_end, is_usize_text, join_spec, parse_spec, serialize_spec, split_spec, trim_spec,
    unsigned_digits, usize_text_value, usize_text_values, CpuRangeView,
};

verus! {

proof fn lemma_digit_char(d: nat)
    requires
        d < 10,
    ensures
        is_digit(digit_char(d)),
        digit_value(digit_char(d)) == d,
{
}

/// The decimal writing of `n` is a non-empty run of digits whose value is `n`.
proof fn lemma_decimal(n: nat)
    ensures
        decimal(n).len() > 0,
        all_digits(decimal(n)),
        digits_value(decimal(n)) == n,
    decreases n,
{
    lemma_digit_char(n % 10);
    if n >= 10 {
        lemma_decimal(n / 10);
        let s = decimal(n);
        assert(s.drop_last() =~= decimal(n / 10));
        assert(s.last() == digit_char(n % 10));
        assert((n / 10) * 10 + n % 10 == n);
    } else {
        assert(seq![digit_char(n)].drop_last() =~= Seq::<char>::empty());
        assert(digits_value(Seq::<char>::empty()) == 0);
    }
}

/// The decimal writing of a `usize` is the text of that `usize`, with no
/// line ending to trim.
proof fn lemma_decimal_text(n: usize)
    ensures
        is_usize_text(decimal(n as nat)),
        usize_text_value(decimal(n as nat)) == n,
        trim_spec(decimal(n as nat)) == decimal(n as nat),
        !decimal(n as nat).contains(','),
        !decimal(n as nat).contains('-'),
{
    let s = decimal(n as nat);
    lemma_decimal(n as nat);
    assert(is_digit(s[0]));
    assert(unsigned_digits(s) == s);
    assert(is_digit(s.last()));
}

/// Text without the separator is a single piece.
proof fn lemma_split_single(b: Seq<char>, sep: char)
    requires
        !b.contains(sep),
    ensures
        split_spec(b, sep) == seq![b],
    decreases b.len(),
{
    if b.len() == 0 {
        assert(b =~= Seq::<char>::empty());
        assert(split_spec(b, sep) =~= seq![b]);
    } else {
        let p = b.drop_last();
        assert(!p.contains(sep)) by {
            if p.contains(sep) {
                let i = choose|i: int| 0 <= i < p.len() && p[i] == sep;
                assert(b[i] == sep);
            }
        }
        lemma_split_single(p, sep);
        assert(b[b.len() - 1] != sep);
        assert(p.push(b.last()) =~= b);
        assert(split_spec(b, sep) =~= seq![b]);
    }
}

/// Text after a separator, itself without one, becomes the last piece.
proof fn lemma_split_after_sep(a: Seq<char>, b: Seq<char>, sep: char)
    requires
        !b.contains(sep),
    ensures
        split_spec(a + seq![sep] + b, sep) == split_spec(a, sep).push(b),
    decreases b.len(),
{
    let s = a + seq![sep] + b;
    if b.len() == 0 {
        assert(b =~= Seq::<char>::empty());
        assert(s.drop_last() =~= a);
        assert(s.last() == sep);
        assert(split_spec(s, sep) =~= split_spec(a, sep).push(b));
    } else {
        let p = b.drop_last();
        assert(!p.contains(sep)) by {
            if p.contains(sep) {
                let i = choose|i: int| 0 <= i < p.len() && p[i] == sep;
                assert(b[i] == sep);
            }
        }
        lemma_split_after_sep(a, p, sep);
        assert(s.drop_last() =~= a + seq![sep] + p);
        assert(b[b.len() - 1] != sep);
        assert(s.last() == b.last());
        assert(p.push(b.last()) =~= b);
        assert(split_spec(s, sep) =~= split_spec(a, sep).push(b));
    }
}

/// A comma-joined list of decimal numbers splits back into their writings,
/// has no line ending to trim, and has no dash.
proof fn lemma_join(v: Seq<usize>)
    requires
        v.len() >= 1,
    ensures
        split_spec(join_spec(v), ',') == v.map_values(|x: usize| decimal(x as nat)),
        trim_spec(join_spec(v)) == join_spec(v),
        !join_spec(v).contains('-'),
        v.len() >= 2 ==> join_spec(v).contains(','),
        v.len() == 1 ==> !join_spec(v).contains(','),
    decreases v.len(),
{
    let last = decimal(v.last() as nat);
    lemma_decimal_text(v.last());
    if v.len() == 1 {
        lemma_split_single(join_spec(v), ',');
        assert(seq![decimal(v[0] as nat)] =~= v.map_values(|x: usize| decimal(x as nat)));
    } else {
        let p = v.drop_last();
        let j = join_spec(p);
        lemma_join(p);
        lemma_split_after_sep(j, last, ',');
        assert(p.map_values(|x: usize| decimal(x as nat)).push(last) =~= v.map_values(
            |x: usize| decimal(x as nat),
        ));
        let s = join_spec(v);
        assert(s == j + seq![','] + last);
        assert(s[j.len() as int] == ',');
        assert(s.last() == last.last());
        assert(!s.contains('-')) by {
            if s.contains('-') {
                let i = choose|i: int| 0 <= i < s.len() && s[i] == '-';
                if i < j.len() {
                    assert(j[i] == '-');
                } else if i > j.len() {
                    assert(last[i - j.len() - 1] == '-');
                }
            }
        }
    }
}

/// The decimal writings of a list of numbers are texts of those numbers.
proof fn lemma_values_of_decimals(v: Seq<usize>)
    ensures
        all_usize_texts(v.map_values(|x: usize| decimal(x as nat))),
        usize_text_values(v.map_values(|x: usize| decimal(x as nat))) == v,
{
    let m = v.map_values(|x: usize| decimal(x as nat));
    assert forall|i: int| 0 <= i < m.len() implies is_usize_text(#[trigger] m[i])
        && usize_text_value(m[i]) == v[i] by {
        lemma_decimal_text(v[i]);
    }
    assert(usize_text_values(m) =~= v);
}

/// A single number reads back as a list of one, and a list of one is written
/// as that number alone.
pub proof fn lemma_single_round_trip(n: usize)
    ensures
        parse_spec(decimal(n as nat)) == Ok::<CpuRangeView, crate::error::ErrorView>(
            CpuRangeView::List(seq![n]),
        ),
        serialize_spec(CpuRangeView::List(seq![n])) == decimal(n as nat),
{
    lemma_join(seq![n]);
    lemma_values_of_decimals(seq![n]);
    assert(seq![n].map_values(|x: usize| decimal(x as nat)) =~= seq![decimal(n as nat)]);
}

/// Any non-empty list of numbers joined by commas reads back as that list.
pub proof fn lemma_list_round_trip(v: Seq<usize>)
    requires
        v.len() >= 1,
    ensures
        parse_spec(join_spec(v)) == Ok::<CpuRangeView, crate::error::ErrorView>(
            CpuRangeView::List(v),
        ),
        serialize_spec(CpuRangeView::List(v)) == join_spec(v),
{
    lemma_join(v);
    lemma_values_of_decimals(v);
    if v.len() == 1 {
        assert(v.map_values(|x: usize| decimal(x as nat)) =~= seq![join_spec(v)]);
    }
}

/// Two numbers joined by a dash read back as the range between them, and a
/// range is written that way.
pub proof fn lemma_range_round_trip(start: usize, end: usize)
    ensures
        parse_spec(decimal(start as nat) + seq!['-'] + decimal(end as nat)) == Ok::<
            CpuRangeView,
            crate::error::ErrorView,
        >(CpuRangeView::Range { start, end }),
        serialize_spec(CpuRangeView::Range { start, end }) == decimal(start as nat) + seq!['-']
            + decimal(end as nat),
{
    let a = decimal(start as nat);
    let b = decimal(end as nat);
    let s = a + seq!['-'] + b;
    lemma_decimal_text(start);
    lemma_decimal_text(end);
    lemma_split_single(a, '-');
    lemma_split_after_sep(a, b, '-');
    assert(s[a.len() as int] == '-');
    assert(s.last() == b.last());
    assert(!s.contains(',')) by {
        if s.contains(',') {
            let i = choose|i: int| 0 <= i < s.len() && s[i] == ',';
            if i < a.len() {
                assert(a[i] == ',');
            } else if i > a.len() {
                assert(b[i - a.len() - 1] == ',');
            }
        }
    }
    assert(!is_line_end(s.last()));
    assert(split_spec(s, '-') =~= seq![a, b]);
}

/// Encoding a CPU set and decoding the text gives the set back, for every set
/// but the empty list, which is written as nothing and so reads back as no CPUs.
pub proof fn lemma_round_trip(c: CpuRangeView)
    requires
        !(c matches CpuRangeView::List(v) && v.len() == 0),
    ensures
        parse_spec(serialize_spec(c)) == Ok::<CpuRangeView, crate::error::ErrorView>(c),
{
    match c {
        CpuRangeView::Empty => {},
        CpuRangeView::List(v) => {
            lemma_list_round_trip(v);
        },
        CpuRangeView::Range { start, end } => {
            lemma_range_round_trip(start, end);
        },
    }
}

} // verus!
