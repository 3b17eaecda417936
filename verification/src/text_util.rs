//! String helpers shared by the catalogue and the map parameters: equality,
//! splitting at commas, and decimal parsing with the grammar of std's
//! `from_str` for unsigned integers.
use vstd::prelude::*;
use vstd::string::*;

verus! {

/// Equality of two strings, character by character.
pub fn str_eq(a: &str, b: &str) -> (res: bool)
    ensures
        res == (a@ == b@),
{
    let n = a.unicode_len();
    let m = b.unicode_len();
    if n != m {
        return false;
    }
    let mut i: usize = 0;
    while i < n
        invariant
            n == a@.len(),
            m == b@.len(),
            n == m,
            i <= n,
            forall|j: int| 0 <= j < i ==> a@[j] == b@[j],
        decreases n - i,
    {
        if a.get_char(i) != b.get_char(i) {
            return false;
        }
        i = i + 1;
    }
    assert(a@ =~= b@);
    true
}

/// The pieces of `s` between commas, in order; a string without a comma is
/// one piece, and the empty string is one empty piece.
pub open spec fn comma_pieces(s: Seq<char>) -> Seq<Seq<char>>
    decreases s.len(),
{
    if s.len() == 0 {
        seq![Seq::<char>::empty()]
    } else if s.last() == ',' {
        comma_pieces(s.drop_last()).push(Seq::<char>::empty())
    } else {
        let p = comma_pieces(s.drop_last());
        p.update(p.len() - 1, p.last().push(s.last()))
    }
}

proof fn lemma_comma_pieces_nonempty(s: Seq<char>)
    ensures
        comma_pieces(s).len() >= 1,
    decreases s.len(),
{
    if s.len() > 0 {
        lemma_comma_pieces_nonempty(s.drop_last());
    }
}

/// Splits `s` at every comma, as `str::split(',')` does.
pub fn split_commas(s: &str) -> (res: Vec<&str>)
    ensures
        res@.len() == comma_pieces(s@).len(),
        forall|i: int| 0 <= i < res@.len() ==> (#[trigger] res@[i])@ == comma_pieces(s@)[i],
{
    let n = s.unicode_len();
    let mut done: Vec<&str> = Vec::new();
    let mut start: usize = 0;
    let mut i: usize = 0;
    assert(s@.take(0) =~= Seq::<char>::empty());
    while i < n
        invariant
            n == s@.len(),
            start <= i <= n,
            comma_pieces(s@.take(i as int)).len() == done@.len() + 1,
            forall|k: int|
                0 <= k < done@.len() ==> (#[trigger] done@[k])@ == comma_pieces(s@.take(i as int))[k],
            comma_pieces(s@.take(i as int))[done@.len() as int] == s@.subrange(start as int, i as int),
        decreases n - i,
    {
        let c = s.get_char(i);
        assert(s@.take(i + 1).drop_last() =~= s@.take(i as int));
        assert(s@.take(i + 1).last() == c);
        proof {
            lemma_comma_pieces_nonempty(s@.take(i as int));
        }
        if c == ',' {
            let piece = s.substring_char(start, i);
            done.push(piece);
            start = i + 1;
            assert(s@.subrange(start as int, i + 1) =~= Seq::<char>::empty());
        } else {
            assert(s@.subrange(start as int, i + 1) =~= s@.subrange(start as int, i as int).push(c));
        }
        i = i + 1;
    }
    let last = s.substring_char(start, n);
    done.push(last);
    assert(s@.take(n as int) =~= s@);
    done
}

/// Whether `c` is an ASCII decimal digit.
pub open spec fn is_decimal_digit(c: char) -> bool {
    '0' <= c && c <= '9'
}

/// The value of a string of decimal digits.
pub open spec fn decimal_value(s: Seq<char>) -> nat
    decreases s.len(),
{
    if s.len() == 0 {
        0
    } else {
        decimal_value(s.drop_last()) * 10 + ((s.last() as nat) - ('0' as nat)) as nat
    }
}

/// What std's `from_str` gives for an unsigned integer type whose largest
/// value is `max`: an optional `+`, then one or more decimal digits, and no
/// other character; `None` where it reports an error, overflow included.
pub open spec fn parse_unsigned_spec(s: Seq<char>, max: nat) -> Option<nat> {
    let d = unsigned_digits(s);
    if d.len() > 0 && all_decimal_digits(d) && decimal_value(d) <= max {
        Some(decimal_value(d))
    } else {
        None
    }
}

/// `s` without its leading `+`, if it has one.
pub open spec fn unsigned_digits(s: Seq<char>) -> Seq<char> {
    if s.len() > 0 && s[0] == '+' {
        s.drop_first()
    } else {
        s
    }
}

/// Every character of `d` is a decimal digit.
pub open spec fn all_decimal_digits(d: Seq<char>) -> bool {
    forall|i: int| 0 <= i < d.len() ==> is_decimal_digit(#[trigger] d[i])
}

proof fn lemma_decimal_value_grows(s: Seq<char>, j: int, k: int)
    requires
        0 <= j <= k <= s.len(),
        forall|i: int| 0 <= i < s.len() ==> is_decimal_digit(#[trigger] s[i]),
    ensures
        decimal_value(s.take(j)) <= decimal_value(s.take(k)),
    decreases k - j,
{
    if j < k {
        lemma_decimal_value_grows(s, j, k - 1);
        assert(s.take(k).drop_last() =~= s.take(k - 1));
    }
}

/// Parses `s` as an unsigned integer no larger than `max`, with the grammar
/// of std's `from_str`.
fn parse_unsigned(s: &str, max: u32) -> (res: Option<u32>)
    ensures
        match parse_unsigned_spec(s@, max as nat) {
            Some(v) => res == Some(v as u32),
            None => res is None,
        },
{
    let n = s.unicode_len();
    let mut i: usize = 0;
    if n > 0 && s.get_char(0) == '+' {
        i = 1;
    }
    let ghost d = unsigned_digits(s@);
    let first = i;
    assert(d =~= s@.subrange(first as int, n as int));
    if first == n {
        return None;
    }
    let mut value: u64 = 0;
    assert(d.take(0) =~= Seq::<char>::empty());
    while i < n
        invariant
            n == s@.len(),
            first <= i <= n,
            first < n,
            d =~= s@.subrange(first as int, n as int),
            d == unsigned_digits(s@),
            forall|k: int| 0 <= k < i - first ==> is_decimal_digit(#[trigger] d[k]),
            value == decimal_value(d.take(i - first)),
            value <= max,
        decreases n - i,
    {
        let c = s.get_char(i);
        assert(d[i - first] == c);
        if !('0' <= c && c <= '9') {
            assert(!is_decimal_digit(d[i - first]));
            assert(parse_unsigned_spec(s@, max as nat) is None);
            return None;
        }
        let digit = (c as u32 - '0' as u32) as u64;
        assert(d.take(i - first + 1).drop_last() =~= d.take(i - first));
        value = value * 10 + digit;
        i = i + 1;
        if value > max as u64 {
            proof {
                if all_decimal_digits(d) {
                    lemma_decimal_value_grows(d, i - first, d.len() as int);
                    assert(d.take(d.len() as int) =~= d);
                }
                assert(parse_unsigned_spec(s@, max as nat) is None);
            }
            return None;
        }
    }
    assert(d.take(n - first) =~= d);
    Some(value as u32)
}

/// Parses a decimal `u32` as `str::parse::<u32>` does.
pub fn parse_u32(s: &str) -> (res: Option<u32>)
    ensures
        match parse_unsigned_spec(s@, u32::MAX as nat) {
            Some(v) => res == Some(v as u32),
            None => res is None,
        },
{
    parse_unsigned(s, u32::MAX)
}

/// Parses a decimal `u8` as `str::parse::<u8>` does.
pub fn parse_u8(s: &str) -> (res: Option<u8>)
    ensures
        match parse_unsigned_spec(s@, u8::MAX as nat) {
            Some(v) => res == Some(v as u8),
            None => res is None,
        },
{
    match parse_unsigned(s, u8::MAX as u32) {
        Some(v) => Some(v as u8),
        None => None,
    }
}

/// The pieces joined again, with a comma between each two.
pub open spec fn join_commas(p: Seq<Seq<char>>) -> Seq<char>
    decreases p.len(),
{
    if p.len() <= 1 {
        if p.len() == 1 {
            p[0]
        } else {
            Seq::empty()
        }
    } else {
        join_commas(p.drop_last()) + seq![','] + p.last()
    }
}

/// Splitting at commas loses nothing and cuts at every comma: no piece
/// holds a comma, and joining the pieces with commas gives the string back.
pub proof fn lemma_comma_pieces_join(s: Seq<char>)
    ensures
        comma_pieces(s).len() >= 1,
        join_commas(comma_pieces(s)) == s,
        forall|i: int, j: int|
            0 <= i < comma_pieces(s).len() && 0 <= j < comma_pieces(s)[i].len() ==> #[trigger] comma_pieces(
                s,
            )[i][j] != ',',
    decreases s.len(),
{
    if s.len() == 0 {
        assert(comma_pieces(s) == seq![Seq::<char>::empty()]);
    } else {
        let dl = s.drop_last();
        lemma_comma_pieces_join(dl);
        let p = comma_pieces(dl);
        if s.last() == ',' {
            let q = p.push(Seq::<char>::empty());
            assert(comma_pieces(s) == q);
            assert(q.drop_last() =~= p);
            assert(join_commas(q) =~= dl + seq![','] + Seq::<char>::empty());
            assert(dl + seq![','] + Seq::<char>::empty() =~= s);
            assert forall|i: int, j: int|
                0 <= i < q.len() && 0 <= j < q[i].len() implies #[trigger] q[i][j] != ',' by {
                assert(q[i] == p[i]);
            }
        } else {
            let c = s.last();
            let q = p.update(p.len() - 1, p.last().push(c));
            assert(comma_pieces(s) == q);
            if p.len() == 1 {
                assert(join_commas(q) == q[0]);
                assert(q[0] =~= dl.push(c));
                assert(dl.push(c) =~= s);
            } else {
                assert(q.drop_last() =~= p.drop_last());
                assert(join_commas(q) == join_commas(p.drop_last()) + seq![','] + p.last().push(c));
                assert(join_commas(p.drop_last()) + seq![','] + p.last().push(c) =~= (join_commas(
                    p.drop_last(),
                ) + seq![','] + p.last()).push(c));
                assert(dl.push(c) =~= s);
            }
            assert forall|i: int, j: int|
                0 <= i < q.len() && 0 <= j < q[i].len() implies #[trigger] q[i][j] != ',' by {
                if i < p.len() - 1 {
                    assert(q[i] == p[i]);
                } else if j < p.last().len() {
                    assert(q[i][j] == p[i][j]);
                }
            }
        }
    }
}

} // verus!
