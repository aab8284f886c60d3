use vstd::prelude::*;

verus! {

/// The line with one trailing carriage return removed, if it ends in one.
pub open spec fn strip_cr(l: Seq<char>) -> Seq<char> {
    if l.len() > 0 && l.last() == '\r' {
        l.drop_last()
    } else {
        l
    }
}

/// Splits `s` into lines, continuing a line `cur` already begun after the lines `acc`.
/// A line ends at `\n`, which is dropped together with a `\r` just before it; a
/// final line without `\n` is kept as it is, unless it is empty.
pub open spec fn lines_from(s: Seq<char>, cur: Seq<char>, acc: Seq<Seq<char>>) -> Seq<Seq<char>>
    decreases s.len(),
{
    if s.len() == 0 {
        if cur.len() > 0 { acc.push(cur) } else { acc }
    } else if s[0] == '\n' {
        lines_from(s.drop_first(), Seq::empty(), acc.push(strip_cr(cur)))
    } else {
        lines_from(s.drop_first(), cur.push(s[0]), acc)
    }
}

/// The lines of a text.
pub open spec fn lines_of(s: Seq<char>) -> Seq<Seq<char>> {
    lines_from(s, Seq::empty(), Seq::empty())
}

/// Unicode's White_Space characters.
pub open spec fn is_space(c: char) -> bool {
    let v = c as u32;
    (9 <= v && v <= 13) || v == 32 || v == 0x85 || v == 0xA0 || v == 0x1680
        || (0x2000 <= v && v <= 0x200A) || v == 0x2028 || v == 0x2029 || v == 0x202F
        || v == 0x205F || v == 0x3000
}

/// Splits `s` into maximal runs of non-space characters, continuing a run `cur`
/// already begun after the runs `acc`.
pub open spec fn words_from(s: Seq<char>, cur: Seq<char>, acc: Seq<Seq<char>>) -> Seq<Seq<char>>
    decreases s.len(),
{
    let flushed = if cur.len() > 0 { acc.push(cur) } else { acc };
    if s.len() == 0 {
        flushed
    } else if is_space(s[0]) {
        words_from(s.drop_first(), Seq::empty(), flushed)
    } else {
        words_from(s.drop_first(), cur.push(s[0]), acc)
    }
}

/// The whitespace-separated words of a line.
pub open spec fn words_of(s: Seq<char>) -> Seq<Seq<char>> {
    words_from(s, Seq::empty(), Seq::empty())
}

/// The views of a sequence of character vectors.
pub open spec fn char_seqs(v: Seq<Vec<char>>) -> Seq<Seq<char>> {
    v.map_values(|x: Vec<char>| x@)
}

pub open spec fn is_digit(c: char) -> bool {
    48 <= (c as u32) && (c as u32) <= 57
}

pub open spec fn digit_value(c: char) -> int {
    (c as u32) as int - 48
}

/// The value of a string of decimal digits.
pub open spec fn digits_value(s: Seq<char>) -> int
    decreases s.len(),
{
    if s.len() == 0 {
        0
    } else {
        digits_value(s.drop_last()) * 10 + digit_value(s.last())
    }
}

pub open spec fn all_digits(s: Seq<char>) -> bool {
    forall|i: int| 0 <= i < s.len() ==> is_digit(#[trigger] s[i])
}

/// The integer that `s` writes: an optional sign `+` or `-`, then at least one
/// decimal digit, and nothing else.
pub open spec fn int_of(s: Seq<char>) -> Option<int> {
    let signed = s.len() > 0 && (s[0] == '-' || s[0] == '+');
    let body = if signed { s.drop_first() } else { s };
    if body.len() > 0 && all_digits(body) {
        Some(if signed && s[0] == '-' { -digits_value(body) } else { digits_value(body) })
    } else {
        None
    }
}

/// The `i64` that `s` writes, if it writes one that fits.
pub open spec fn i64_of(s: Seq<char>) -> Option<i64> {
    match int_of(s) {
        Some(v) => if i64::MIN <= v && v <= i64::MAX { Some(v as i64) } else { None },
        None => None,
    }
}

pub open spec fn digit_char(d: nat) -> char {
    ((d + 48) as u8) as char
}

/// The decimal digits of a natural number, without leading zeros.
pub open spec fn nat_digits(n: nat) -> Seq<char>
    decreases n,
{
    if n < 10 {
        seq![digit_char(n)]
    } else {
        nat_digits(n / 10).push(digit_char(n % 10))
    }
}

/// The decimal spelling of an integer, with `-` before a negative one.
pub open spec fn decimal(n: int) -> Seq<char> {
    if n < 0 {
        seq!['-'] + nat_digits((-n) as nat)
    } else {
        nat_digits(n as nat)
    }
}

/// Relies on `String`'s `FromIterator<&char>`: the string of the characters, in order.
#[verifier::external_body]
pub(crate) fn string_from_chars(v: &[char]) -> (r: String)
    ensures
        r@ == v@,
{
    v.iter().collect()
}

/// Appends the characters of `s` to `out`.
pub fn append_str(out: &mut Vec<char>, s: &str)
    ensures
        final(out)@ == old(out)@ + s@,
{
    let n = s.unicode_len();
    let mut i: usize = 0;
    while i < n
        invariant
            n == s@.len(),
            i <= n,
            out@ == old(out)@ + s@.subrange(0, i as int),
        decreases n - i,
    {
        out.push(s.get_char(i));
        assert(s@.subrange(0, i + 1) == s@.subrange(0, i as int).push(s@[i as int]));
        i += 1;
    }
    assert(s@ == s@.subrange(0, n as int));
}

/// Whether `c` is a whitespace character.
pub fn char_is_space(c: char) -> (r: bool)
    ensures
        r == is_space(c),
{
    let v = c as u32;
    (9 <= v && v <= 13) || v == 32 || v == 0x85 || v == 0xA0 || v == 0x1680
        || (0x2000 <= v && v <= 0x200A) || v == 0x2028 || v == 0x2029 || v == 0x202F
        || v == 0x205F || v == 0x3000
}

/// The lines of `text` (see `lines_of`).
pub fn split_lines(text: &[char]) -> (r: Vec<Vec<char>>)
    ensures
        char_seqs(r@) == lines_of(text@),
{
    let n = text.len();
    let mut acc: Vec<Vec<char>> = Vec::new();
    let mut cur: Vec<char> = Vec::new();
    let mut i: usize = 0;
    assert(text@.subrange(0, n as int) =~= text@);
    assert(char_seqs(acc@) =~= Seq::<Seq<char>>::empty());
    while i < n
        invariant
            n == text@.len(),
            i <= n,
            lines_from(text@.subrange(i as int, n as int), cur@, char_seqs(acc@))
                == lines_of(text@),
        decreases n - i,
    {
        let rest = Ghost(text@.subrange(i as int, n as int));
        assert(rest@.drop_first() =~= text@.subrange(i + 1, n as int));
        let c = text[i];
        if c == '\n' {
            if cur.len() > 0 && cur[cur.len() - 1] == '\r' {
                cur.pop();
            }
            assert(char_seqs(acc@.push(cur)) == char_seqs(acc@).push(cur@));
            acc.push(cur);
            cur = Vec::new();
        } else {
            cur.push(c);
        }
        i += 1;
    }
    if cur.len() > 0 {
        assert(char_seqs(acc@.push(cur)) == char_seqs(acc@).push(cur@));
        acc.push(cur);
    }
    acc
}

/// The whitespace-separated words of `line` (see `words_of`).
pub fn split_words(line: &[char]) -> (r: Vec<Vec<char>>)
    ensures
        char_seqs(r@) == words_of(line@),
{
    let n = line.len();
    let mut acc: Vec<Vec<char>> = Vec::new();
    let mut cur: Vec<char> = Vec::new();
    let mut i: usize = 0;
    assert(line@.subrange(0, n as int) =~= line@);
    assert(char_seqs(acc@) =~= Seq::<Seq<char>>::empty());
    while i < n
        invariant
            n == line@.len(),
            i <= n,
            words_from(line@.subrange(i as int, n as int), cur@, char_seqs(acc@))
                == words_of(line@),
        decreases n - i,
    {
        let rest = Ghost(line@.subrange(i as int, n as int));
        assert(rest@.drop_first() =~= line@.subrange(i + 1, n as int));
        let c = line[i];
        if char_is_space(c) {
            if cur.len() == 0 {
                assert(cur@ =~= Seq::<char>::empty());
            } else {
                assert(char_seqs(acc@.push(cur)) == char_seqs(acc@).push(cur@));
                acc.push(cur);
                cur = Vec::new();
            }
        } else {
            cur.push(c);
        }
        i += 1;
    }
    if cur.len() > 0 {
        assert(char_seqs(acc@.push(cur)) == char_seqs(acc@).push(cur@));
        acc.push(cur);
    }
    acc
}

/// The `i64` that `s` writes (see `i64_of`), or `None`.
pub fn parse_i64(s: &[char]) -> (r: Option<i64>)
    ensures
        r == i64_of(s@),
{
    let n = s.len();
    let signed = n > 0 && (s[0] == '-' || s[0] == '+');
    let negative = signed && s[0] == '-';
    let start: usize = if signed { 1 } else { 0 };
    let body = Ghost(if signed { s@.drop_first() } else { s@ });
    assert(signed == (s@.len() > 0 && (s@[0] == '-' || s@[0] == '+')));
    assert(negative == (signed && s@[0] == '-'));
    assert(body@ =~= s@.subrange(start as int, n as int));
    if start >= n {
        return None;
    }
    let bound: u64 = 0x8000_0000_0000_0000;
    let mut acc: u64 = 0;
    let mut big = false;
    let mut j: usize = start;
    while j < n
        invariant
            n == s@.len(),
            start <= j <= n,
            body@ == s@.subrange(start as int, n as int),
            body@ == (if signed { s@.drop_first() } else { s@ }),
            signed == (s@.len() > 0 && (s@[0] == '-' || s@[0] == '+')),
            negative == (signed && s@[0] == '-'),
            all_digits(s@.subrange(start as int, j as int)),
            !big ==> acc == digits_value(s@.subrange(start as int, j as int)) && acc <= bound,
            big ==> digits_value(s@.subrange(start as int, j as int)) > bound,
            bound == 0x8000_0000_0000_0000u64,
        decreases n - j,
    {
        let c = s[j];
        let prefix = Ghost(s@.subrange(start as int, j as int));
        let next = Ghost(s@.subrange(start as int, j + 1));
        assert(next@.drop_last() =~= prefix@);
        assert(next@.last() == c);
        let v = c as u32;
        if !(48 <= v && v <= 57) {
            assert(!is_digit(c));
            assert(body@[(j - start) as int] == c);
            assert(!all_digits(body@));
            assert(int_of(s@) is None);
            return None;
        }
        assert(all_digits(next@)) by {
            assert forall|k: int| 0 <= k < next@.len() implies is_digit(#[trigger] next@[k]) by {
                if k < prefix@.len() {
                    assert(next@[k] == prefix@[k]);
                }
            }
        }
        let d = (v - 48) as u64;
        proof {
            assert(digits_value(prefix@) >= 0) by {
                lemma_digits_value_nonneg(prefix@);
            }
        }
        if !big {
            if acc > (bound - d) / 10 {
                big = true;
            } else {
                acc = acc * 10 + d;
            }
        }
        j += 1;
    }
    assert(s@.subrange(start as int, n as int) =~= body@);
    if big {
        None
    } else if negative {
        Some((0 - (acc as i128)) as i64)
    } else if acc < bound {
        Some(acc as i64)
    } else {
        None
    }
}

pub proof fn lemma_digits_value_nonneg(s: Seq<char>)
    requires
        all_digits(s),
    ensures
        digits_value(s) >= 0,
    decreases s.len(),
{
    if s.len() > 0 {
        assert(is_digit(s[s.len() - 1]));
        lemma_digits_value_nonneg(s.drop_last());
    }
}

/// Appends the decimal digits of `n` to `out`.
pub fn push_digits(n: u64, out: &mut Vec<char>)
    ensures
        final(out)@ == old(out)@ + nat_digits(n as nat),
    decreases n,
{
    if n >= 10 {
        push_digits(n / 10, out);
    }
    let d = (n % 10) as u8;
    out.push((d + 48) as char);
    assert(out@ == old(out)@ + nat_digits(n as nat));
}

/// Appends the decimal spelling of `n` to `out`.
pub fn push_decimal(n: i64, out: &mut Vec<char>)
    ensures
        final(out)@ == old(out)@ + decimal(n as int),
{
    if n < 0 {
        out.push('-');
        let magnitude = (0 - (n as i128)) as u64;
        push_digits(magnitude, out);
        assert(out@ == old(out)@ + decimal(n as int));
    } else {
        push_digits(n as u64, out);
    }
}

/// Whether `a` holds exactly the characters of `b`.
pub fn chars_eq_str(a: &[char], b: &str) -> (r: bool)
    ensures
        r == (a@ == b@),
{
    let n = b.unicode_len();
    if a.len() != n {
        return false;
    }
    let mut i: usize = 0;
    while i < n
        invariant
            n == b@.len(),
            a@.len() == n,
            i <= n,
            a@.subrange(0, i as int) == b@.subrange(0, i as int),
        decreases n - i,
    {
        if a[i] != b.get_char(i) {
            assert(a@[i as int] != b@[i as int]);
            return false;
        }
        assert(a@.subrange(0, i + 1) == a@.subrange(0, i as int).push(a@[i as int]));
        assert(b@.subrange(0, i + 1) == b@.subrange(0, i as int).push(b@[i as int]));
        i += 1;
    }
    assert(a@ == a@.subrange(0, n as int));
    assert(b@ == b@.subrange(0, n as int));
    true
}

/// The characters of `s`, in order.
pub fn chars_of(s: &str) -> (r: Vec<char>)
    ensures
        r@ == s@,
{
    let n = s.unicode_len();
    let mut r: Vec<char> = Vec::new();
    let mut i: usize = 0;
    while i < n
        invariant
            n == s@.len(),
            i <= n,
            r@ == s@.subrange(0, i as int),
        decreases n - i,
    {
        r.push(s.get_char(i));
        i += 1;
    }
    assert(s@ == s@.subrange(0, n as int));
    r
}

} // verus!
