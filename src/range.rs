//! The textual encodings of CPU lists used by `cpuset.cpus`.
use vstd::prelude::*;

use crate::error::{Error, ErrorView};

verus! {

/// A line ending character, removed from the end of control file contents.
pub open spec fn is_line_end(c: char) -> bool {
    c == '\r' || c == '\n'
}

/// `s` with every trailing `\r` and `\n` removed.
pub open spec fn trim_spec(s: Seq<char>) -> Seq<char>
    decreases s.len(),
{
    if s.len() > 0 && is_line_end(s.last()) {
        trim_spec(s.drop_last())
    } else {
        s
    }
}

/// Removes all trailing carriage returns and line feeds.
pub fn trim_line_endings(s: &str) -> (r: &str)
    ensures
        r@ == trim_spec(s@),
{
    let len = s.unicode_len();
    let mut n: usize = len;
    proof {
        assert(s@.subrange(0, len as int) =~= s@);
    }
    loop
        invariant
            n <= len,
            len == s@.len(),
            trim_spec(s@.subrange(0, n as int)) == trim_spec(s@),
        ensures
            n <= len,
            trim_spec(s@.subrange(0, n as int)) == trim_spec(s@),
            n == 0 || !is_line_end(s@[n - 1]),
        decreases n,
    {
        if n == 0 {
            break;
        }
        let c = s.get_char(n - 1);
        if c != '\r' && c != '\n' {
            break;
        }
        proof {
            assert(s@.subrange(0, n as int).drop_last() =~= s@.subrange(0, n - 1));
        }
        n = n - 1;
    }
    s.substring_char(0, n)
}


/// The forms that a non-empty CPU list other than a single number may take,
/// as carried by a format error.
pub open spec fn format_hint() -> Seq<char> {
    "0-1 or 0,1,2"@
}

/// An ASCII decimal digit.
pub open spec fn is_digit(c: char) -> bool {
    '0' as u32 <= c as u32 && c as u32 <= '9' as u32
}

/// The value of a decimal digit.
pub open spec fn digit_value(c: char) -> nat {
    (c as u32 - '0' as u32) as nat
}

/// The character of the decimal digit `d < 10`.
pub open spec fn digit_char(d: nat) -> char {
    (d + '0' as u32) as u32 as char
}

pub open spec fn all_digits(s: Seq<char>) -> bool {
    forall|i: int| 0 <= i < s.len() ==> is_digit(#[trigger] s[i])
}

/// The number that the decimal digits `s` write, most significant first.
pub open spec fn digits_value(s: Seq<char>) -> nat
    decreases s.len(),
{
    if s.len() == 0 {
        0
    } else {
        digits_value(s.drop_last()) * 10 + digit_value(s.last())
    }
}

/// The digits of an unsigned integer's text: what follows an optional `+`.
pub open spec fn unsigned_digits(s: Seq<char>) -> Seq<char> {
    if s.len() > 0 && s[0] == '+' {
        s.drop_first()
    } else {
        s
    }
}

/// `s` is the text of a `usize`: an optional `+`, then one or more decimal
/// digits whose value fits in `usize`.
pub open spec fn is_usize_text(s: Seq<char>) -> bool {
    let d = unsigned_digits(s);
    d.len() > 0 && all_digits(d) && digits_value(d) <= usize::MAX
}

/// The value of the text of a `usize`.
pub open spec fn usize_text_value(s: Seq<char>) -> usize {
    digits_value(unsigned_digits(s)) as usize
}

/// The shortest decimal writing of `n`.
pub open spec fn decimal(n: nat) -> Seq<char>
    decreases n,
{
    if n < 10 {
        seq![digit_char(n)]
    } else {
        decimal(n / 10).push(digit_char(n % 10))
    }
}

/// The pieces of `s` between occurrences of `sep`, in order; as many as
/// there are separators, plus one.
pub open spec fn split_spec(s: Seq<char>, sep: char) -> Seq<Seq<char>>
    decreases s.len(),
{
    if s.len() == 0 {
        seq![Seq::<char>::empty()]
    } else {
        let prev = split_spec(s.drop_last(), sep);
        if s.last() == sep {
            prev.push(Seq::<char>::empty())
        } else {
            prev.update(prev.len() - 1, prev.last().push(s.last()))
        }
    }
}

/// Every piece is the text of a `usize`.
pub open spec fn all_usize_texts(segs: Seq<Seq<char>>) -> bool {
    forall|i: int| 0 <= i < segs.len() ==> is_usize_text(#[trigger] segs[i])
}

/// The values of pieces that are all texts of `usize`s.
pub open spec fn usize_text_values(segs: Seq<Seq<char>>) -> Seq<usize> {
    segs.map_values(|g: Seq<char>| usize_text_value(g))
}

/// The pieces joined by `,`, each number written in decimal.
pub open spec fn join_spec(v: Seq<usize>) -> Seq<char>
    decreases v.len(),
{
    if v.len() == 0 {
        Seq::<char>::empty()
    } else if v.len() == 1 {
        decimal(v[0] as nat)
    } else {
        join_spec(v.drop_last()) + seq![','] + decimal(v.last() as nat)
    }
}

/// A set of CPUs as the kernel writes it.
#[derive(Clone, PartialEq, Debug)]
pub enum CpuRange {
    /// No CPUs: empty text.
    Empty,
    /// The CPUs listed, comma separated.
    List(Vec<usize>),
    /// The CPUs from `start` to `end` inclusive, dash separated.
    Range { start: usize, end: usize },
}

/// The mathematical value of a [`CpuRange`].
pub enum CpuRangeView {
    Empty,
    List(Seq<usize>),
    Range { start: usize, end: usize },
}

impl View for CpuRange {
    type V = CpuRangeView;

    open spec fn view(&self) -> CpuRangeView {
        match self {
            CpuRange::Empty => CpuRangeView::Empty,
            CpuRange::List(v) => CpuRangeView::List(v@),
            CpuRange::Range { start, end } => CpuRangeView::Range { start: *start, end: *end },
        }
    }
}

/// The outcome of a decoding, with the outside error payloads left out.
pub open spec fn result_view(r: Result<CpuRange, Error>) -> Result<CpuRangeView, ErrorView> {
    match r {
        Ok(c) => Ok(c@),
        Err(e) => Err(e@),
    }
}

/// The list of the values of pieces, or an integer error if one is no `usize`.
pub open spec fn list_spec(segs: Seq<Seq<char>>) -> Result<CpuRangeView, ErrorView> {
    if all_usize_texts(segs) {
        Ok(CpuRangeView::List(usize_text_values(segs)))
    } else {
        Err(ErrorView::InvalidInt)
    }
}

/// What decoding the text `s` of a `cpuset.cpus` file gives.
pub open spec fn parse_spec(s: Seq<char>) -> Result<CpuRangeView, ErrorView> {
    let t = trim_spec(s);
    if t.len() == 0 {
        Ok(CpuRangeView::Empty)
    } else if t.contains(',') {
        list_spec(split_spec(t, ','))
    } else if t.contains('-') {
        let segs = split_spec(t, '-');
        if !all_usize_texts(segs) {
            Err(ErrorView::InvalidInt)
        } else if segs.len() != 2 {
            Err(ErrorView::InvalidFormat(t, format_hint()))
        } else {
            Ok(
                CpuRangeView::Range {
                    start: usize_text_value(segs[0]),
                    end: usize_text_value(segs[1]),
                },
            )
        }
    } else {
        list_spec(seq![t])
    }
}

/// The text that encodes a CPU set.
pub open spec fn serialize_spec(c: CpuRangeView) -> Seq<char> {
    match c {
        CpuRangeView::Empty => Seq::<char>::empty(),
        CpuRangeView::List(v) => join_spec(v),
        CpuRangeView::Range { start, end } => decimal(start as nat) + seq!['-'] + decimal(
            end as nat,
        ),
    }
}

/// Relies on `str::parse::<usize>` (`usize::from_str`, that is
/// `from_str_radix(s, 10)`): it accepts exactly an optional `+` followed by
/// one or more ASCII digits whose value fits in `usize`, and returns that value.
#[verifier::external_body]
pub(crate) fn parse_usize(s: &str) -> (r: Result<usize, std::num::ParseIntError>)
    ensures
        r is Ok <==> is_usize_text(s@),
        r is Ok ==> r->Ok_0 == usize_text_value(s@),
{
    s.parse::<usize>()
}

/// Whether `c` occurs in `s`.
fn contains_char(s: &str, c: char) -> (r: bool)
    ensures
        r == s@.contains(c),
{
    let len = s.unicode_len();
    let mut i: usize = 0;
    while i < len
        invariant
            i <= len,
            len == s@.len(),
            forall|j: int| 0 <= j < i ==> s@[j] != c,
        decreases len - i,
    {
        if s.get_char(i) == c {
            return true;
        }
        i = i + 1;
    }
    false
}


/// Splitting is never empty.
proof fn lemma_split_len(s: Seq<char>, sep: char)
    ensures
        split_spec(s, sep).len() >= 1,
    decreases s.len(),
{
    if s.len() > 0 {
        lemma_split_len(s.drop_last(), sep);
    }
}

/// The pieces of a prefix that are closed by a separator are pieces of the whole.
proof fn lemma_split_prefix(s: Seq<char>, n: int, sep: char)
    requires
        0 <= n <= s.len(),
    ensures
        split_spec(s.subrange(0, n), sep).len() <= split_spec(s, sep).len(),
        forall|k: int|
            0 <= k < split_spec(s.subrange(0, n), sep).len() - 1 ==> #[trigger] split_spec(
                s,
                sep,
            )[k] == split_spec(s.subrange(0, n), sep)[k],
    decreases s.len(),
{
    lemma_split_len(s, sep);
    if n == s.len() {
        assert(s.subrange(0, n) =~= s);
    } else {
        assert(s.drop_last().subrange(0, n) =~= s.subrange(0, n));
        lemma_split_prefix(s.drop_last(), n, sep);
        lemma_split_len(s.drop_last(), sep);
    }
}

/// Parses each piece of `t` between occurrences of `sep` as a `usize`.
fn parse_pieces(t: &str, sep: char) -> (r: Result<Vec<usize>, std::num::ParseIntError>)
    ensures
        r is Ok <==> all_usize_texts(split_spec(t@, sep)),
        r is Ok ==> r->Ok_0@ == usize_text_values(split_spec(t@, sep)),
{
    let len = t.unicode_len();
    let mut vals: Vec<usize> = Vec::new();
    let mut start: usize = 0;
    let mut i: usize = 0;
    assert(t@.subrange(0, 0) =~= Seq::<char>::empty());
    while i < len
        invariant
            start <= i <= len,
            len == t@.len(),
            split_spec(t@.subrange(0, i as int), sep).len() == vals@.len() + 1,
            split_spec(t@.subrange(0, i as int), sep).last() =~= t@.subrange(start as int, i as int),
            forall|j: int|
                0 <= j < vals@.len() ==> is_usize_text(
                    #[trigger] split_spec(t@.subrange(0, i as int), sep)[j],
                ) && vals@[j] == usize_text_value(split_spec(t@.subrange(0, i as int), sep)[j]),
        decreases len - i,
    {
        let ghost pre = t@.subrange(0, i as int);
        let ghost next = t@.subrange(0, i + 1);
        assert(next.drop_last() =~= pre);
        if t.get_char(i) == sep {
            let piece = t.substring_char(start, i);
            match parse_usize(piece) {
                Ok(v) => {
                    vals.push(v);
                },
                Err(e) => {
                    proof {
                        lemma_split_prefix(t@, i + 1, sep);
                        let k = vals@.len() as int;
                        assert(split_spec(next, sep)[k] == split_spec(t@, sep)[k]);
                    }
                    return Err(e);
                },
            }
            start = i + 1;
        }
        i = i + 1;
    }
    assert(t@.subrange(0, len as int) =~= t@);
    let piece = t.substring_char(start, len);
    match parse_usize(piece) {
        Ok(v) => {
            vals.push(v);
            assert(vals@ =~= usize_text_values(split_spec(t@, sep)));
            Ok(vals)
        },
        Err(e) => {
            let ghost k = vals@.len() as int;
            assert(!is_usize_text(split_spec(t@, sep)[k]));
            Err(e)
        },
    }
}


/// The text of the decimal digit `d`.
fn digit_str(d: usize) -> (r: &'static str)
    requires
        d < 10,
    ensures
        r@ == seq![digit_char(d as nat)],
{
    proof {
        reveal_strlit("0");
        reveal_strlit("1");
        reveal_strlit("2");
        reveal_strlit("3");
        reveal_strlit("4");
        reveal_strlit("5");
        reveal_strlit("6");
        reveal_strlit("7");
        reveal_strlit("8");
        reveal_strlit("9");
    }
    match d {
        0 => "0",
        1 => "1",
        2 => "2",
        3 => "3",
        4 => "4",
        5 => "5",
        6 => "6",
        7 => "7",
        8 => "8",
        _ => "9",
    }
}

/// Appends the decimal writing of `n` to `out`.
fn push_decimal(out: &mut String, n: usize)
    ensures
        final(out)@ == old(out)@ + decimal(n as nat),
    decreases n,
{
    if n >= 10 {
        push_decimal(out, n / 10);
    }
    out.append(digit_str(n % 10));
    proof {
        if n >= 10 {
            assert(decimal(n as nat) == decimal((n / 10) as nat).push(digit_char((n % 10) as nat)));
        }
    }
    assert(final(out)@ =~= old(out)@ + decimal(n as nat));
}

impl CpuRange {
    /// Decodes the text of a `cpuset.cpus` file.
    ///
    /// Trailing line endings are ignored. Empty text is [`CpuRange::Empty`];
    /// text with a `,` is a list, each piece a `usize`; otherwise text with a
    /// `-` is a range of exactly two `usize`s; otherwise it is one `usize`,
    /// a list of one.
    pub fn from_str(s: &str) -> (r: Result<CpuRange, Error>)
        ensures
            result_view(r) == parse_spec(s@),
    {
        let t = trim_line_endings(s);
        if t.unicode_len() == 0 {
            return Ok(CpuRange::Empty);
        }
        if contains_char(t, ',') {
            match parse_pieces(t, ',') {
                Ok(v) => Ok(CpuRange::List(v)),
                Err(e) => Err(Error::from(e)),
            }
        } else if contains_char(t, '-') {
            match parse_pieces(t, '-') {
                Ok(v) => {
                    if v.len() != 2 {
                        Err(Error::InvalidFormat(t.to_owned(), "0-1 or 0,1,2".to_owned()))
                    } else {
                        Ok(CpuRange::Range { start: v[0], end: v[1] })
                    }
                },
                Err(e) => Err(Error::from(e)),
            }
        } else {
            match parse_usize(t) {
                Ok(n) => {
                    let v = vec![n];
                    assert(v@ =~= usize_text_values(seq![t@]));
                    Ok(CpuRange::List(v))
                },
                Err(e) => {
                    assert(!is_usize_text(seq![t@][0]));
                    Err(Error::from(e))
                },
            }
        }
    }

    /// Encodes the set as the kernel writes it: the list's numbers joined by
    /// `,`, the range's bounds joined by `-`, or nothing.
    pub fn to_string(&self) -> (r: String)
        ensures
            r@ == serialize_spec(self@),
    {
        let mut out = String::new();
        match self {
            CpuRange::Empty => {},
            CpuRange::List(v) => {
                let mut i: usize = 0;
                while i < v.len()
                    invariant
                        i <= v@.len(),
                        out@ == join_spec(v@.subrange(0, i as int)),
                    decreases v@.len() - i,
                {
                    let ghost pre = out@;
                    if i > 0 {
                        out.append(",");
                    }
                    push_decimal(&mut out, v[i]);
                    proof {
                        reveal_strlit(",");
                        let w = v@.subrange(0, i + 1);
                        assert(w.drop_last() =~= v@.subrange(0, i as int));
                        assert(out@ =~= join_spec(w));
                    }
                    i = i + 1;
                }
                assert(v@.subrange(0, v@.len() as int) =~= v@);
            },
            CpuRange::Range { start, end } => {
                push_decimal(&mut out, *start);
                out.append("-");
                push_decimal(&mut out, *end);
                proof {
                    reveal_strlit("-");
                }
                assert(out@ =~= serialize_spec(self@));
            },
        }
        out
    }
}

} // verus!
