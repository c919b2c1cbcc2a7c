//! Decimal rendering of integers and small text helpers, specified over `Seq<char>`.
use vstd::prelude::*;
use vstd::string::*;

verus! {

/// The character of a decimal digit.
pub open spec fn digit_char(d: int) -> char {
    if d == 0 { '0' }
    else if d == 1 { '1' }
    else if d == 2 { '2' }
    else if d == 3 { '3' }
    else if d == 4 { '4' }
    else if d == 5 { '5' }
    else if d == 6 { '6' }
    else if d == 7 { '7' }
    else if d == 8 { '8' }
    else { '9' }
}

/// The decimal digits of a natural number, most significant first, without leading zeros.
pub open spec fn nat_text(n: nat) -> Seq<char>
    decreases n,
{
    if n < 10 {
        seq![digit_char(n as int)]
    } else {
        nat_text(n / 10) + seq![digit_char((n % 10) as int)]
    }
}

/// The decimal text of an integer, with a leading `-` when it is negative.
pub open spec fn int_text(i: int) -> Seq<char> {
    if i < 0 {
        seq!['-'] + nat_text((-i) as nat)
    } else {
        nat_text(i as nat)
    }
}

fn push_digit(out: &mut String, d: u64)
    requires
        d < 10,
    ensures
        final(out)@ == old(out)@ + seq![digit_char(d as int)],
{
    if d == 0 {
        out.append("0");
        proof { reveal_strlit("0"); }
    } else if d == 1 {
        out.append("1");
        proof { reveal_strlit("1"); }
    } else if d == 2 {
        out.append("2");
        proof { reveal_strlit("2"); }
    } else if d == 3 {
        out.append("3");
        proof { reveal_strlit("3"); }
    } else if d == 4 {
        out.append("4");
        proof { reveal_strlit("4"); }
    } else if d == 5 {
        out.append("5");
        proof { reveal_strlit("5"); }
    } else if d == 6 {
        out.append("6");
        proof { reveal_strlit("6"); }
    } else if d == 7 {
        out.append("7");
        proof { reveal_strlit("7"); }
    } else if d == 8 {
        out.append("8");
        proof { reveal_strlit("8"); }
    } else {
        out.append("9");
        proof { reveal_strlit("9"); }
    }
}

/// Appends the decimal digits of `n`.
pub fn push_nat(out: &mut String, n: u64)
    ensures
        final(out)@ == old(out)@ + nat_text(n as nat),
    decreases n,
{
    if n >= 10 {
        push_nat(out, n / 10);
    }
    push_digit(out, n % 10);
    proof {
        assert(old(out)@ + nat_text(n as nat) =~= if n >= 10 {
            old(out)@ + nat_text((n / 10) as nat) + seq![digit_char((n % 10) as int)]
        } else {
            old(out)@ + seq![digit_char(n as int)]
        });
    }
}

/// `s` right-aligned in a field of `width` characters, filled with spaces on the left.
pub open spec fn pad_left(s: Seq<char>, width: nat) -> Seq<char> {
    if s.len() < width {
        Seq::new((width - s.len()) as nat, |_i: int| ' ') + s
    } else {
        s
    }
}

/// Whether `p` occurs in `s` as a contiguous piece.
pub open spec fn contains_text(s: Seq<char>, p: Seq<char>) -> bool {
    exists|i: int| 0 <= i && i + p.len() <= s.len() && #[trigger] s.subrange(i, i + p.len()) == p
}

/// Appends the decimal text of `v`, with a `-` when it is negative.
pub fn push_int(out: &mut String, v: i64)
    ensures
        final(out)@ == old(out)@ + int_text(v as int),
{
    if v < 0 {
        out.append("-");
        proof { reveal_strlit("-"); }
        let wide: i128 = v as i128;
        let magnitude: u64 = (0 - wide) as u64;
        push_nat(out, magnitude);
        proof {
            assert(old(out)@ + int_text(v as int) =~= old(out)@ + seq!['-'] + nat_text(magnitude as nat));
        }
    } else {
        push_nat(out, v as u64);
    }
}

/// Appends the decimal text of `v`, right-aligned in a field of `width` characters.
pub fn push_int_padded(out: &mut String, v: i64, width: usize)
    ensures
        final(out)@ == old(out)@ + pad_left(int_text(v as int), width as nat),
{
    let mut digits = String::new();
    push_int(&mut digits, v);
    let len = digits.as_str().unicode_len();
    let mut filled: usize = len;
    while filled < width
        invariant
            len == int_text(v as int).len(),
            digits@ == int_text(v as int),
            len <= filled,
            filled <= width || filled == len,
            out@ == old(out)@ + Seq::new((filled - len) as nat, |_i: int| ' '),
        decreases width - filled,
    {
        out.append(" ");
        proof {
            reveal_strlit(" ");
            assert(Seq::new((filled - len) as nat, |_i: int| ' ') + " "@ =~= Seq::new(
                (filled + 1 - len) as nat,
                |_i: int| ' ',
            ));
        }
        filled = filled + 1;
    }
    let ghost before = out@;
    out.append(digits.as_str());
    proof {
        if len < width {
            assert(filled == width);
        } else {
            assert(Seq::new((filled - len) as nat, |_i: int| ' ') =~= Seq::<char>::empty());
            assert(before =~= old(out)@);
        }
        assert(out@ =~= old(out)@ + pad_left(int_text(v as int), width as nat));
    }
}

/// The characters of `s`, one per element.
pub fn chars_of(s: &str) -> (v: Vec<char>)
    ensures
        v@ == s@,
{
    let n = s.unicode_len();
    let mut v: Vec<char> = Vec::new();
    let mut i: usize = 0;
    while i < n
        invariant
            i <= n,
            n == s@.len(),
            v@ == s@.subrange(0, i as int),
        decreases n - i,
    {
        let c = s.get_char(i);
        v.push(c);
        proof {
            assert(s@.subrange(0, i as int).push(c) =~= s@.subrange(0, i + 1));
        }
        i = i + 1;
    }
    proof {
        assert(s@.subrange(0, n as int) =~= s@);
    }
    v
}

fn matches_at(s: &Vec<char>, p: &Vec<char>, at: usize) -> (res: bool)
    requires
        at + p@.len() <= s@.len(),
    ensures
        res == (s@.subrange(at as int, at + p@.len()) == p@),
{
    let slen = s.len();
    let mut j: usize = 0;
    while j < p.len()
        invariant
            slen == s@.len(),
            at + p@.len() <= s@.len(),
            j <= p@.len(),
            forall|k: int| 0 <= k < j ==> s@[at + k] == p@[k],
        decreases p@.len() - j,
    {
        if s[at + j] != p[j] {
            proof {
                assert(s@.subrange(at as int, at + p@.len())[j as int] != p@[j as int]);
            }
            return false;
        }
        j = j + 1;
    }
    proof {
        assert(s@.subrange(at as int, at + p@.len()) =~= p@);
    }
    true
}

/// Whether `needle` occurs in `haystack`.
pub fn text_contains(haystack: &str, needle: &str) -> (res: bool)
    ensures
        res == contains_text(haystack@, needle@),
{
    let s = chars_of(haystack);
    let p = chars_of(needle);
    if p.len() > s.len() {
        return false;
    }
    if p.len() == 0 {
        proof {
            assert(haystack@.subrange(0int, 0int + needle@.len()) =~= needle@);
        }
        return true;
    }
    let slen = s.len();
    let last = slen - p.len();
    let mut i: usize = 0;
    while i <= last
        invariant
            slen == s@.len(),
            s@ == haystack@,
            p@ == needle@,
            p@.len() >= 1,
            last == s@.len() - p@.len(),
            i <= last + 1,
            forall|j: int| 0 <= j < i ==> #[trigger] s@.subrange(j, j + p@.len()) != p@,
        decreases last + 1 - i,
    {
        if matches_at(&s, &p, i) {
            return true;
        }
        i = i + 1;
    }
    false
}

/// The number a digit character stands for.
pub open spec fn digit_value(c: char) -> int {
    if c == '1' { 1 }
    else if c == '2' { 2 }
    else if c == '3' { 3 }
    else if c == '4' { 4 }
    else if c == '5' { 5 }
    else if c == '6' { 6 }
    else if c == '7' { 7 }
    else if c == '8' { 8 }
    else if c == '9' { 9 }
    else { 0 }
}

/// Whether a character is one of the ten decimal digits.
pub open spec fn is_digit(c: char) -> bool {
    c == '0' || c == '1' || c == '2' || c == '3' || c == '4' || c == '5' || c == '6' || c == '7'
        || c == '8' || c == '9'
}

/// The number a string of decimal digits reads as, most significant first.
pub open spec fn read_decimal(s: Seq<char>) -> int
    decreases s.len(),
{
    if s.len() == 0 {
        0
    } else {
        read_decimal(s.drop_last()) * 10 + digit_value(s.last())
    }
}

/// Law: the decimal text of a natural number is made of digits, reads back
/// as that number, and has no leading zero unless it is `0` itself.
pub proof fn nat_text_reads_back(n: nat)
    ensures
        nat_text(n).len() >= 1,
        forall|i: int| 0 <= i < nat_text(n).len() ==> is_digit(#[trigger] nat_text(n)[i]),
        read_decimal(nat_text(n)) == n,
        nat_text(n)[0] == '0' ==> n == 0,
    decreases n,
{
    let d = (n % 10) as int;
    assert(digit_value(digit_char(d)) == d && is_digit(digit_char(d)));
    let t = nat_text(n);
    if n >= 10 {
        nat_text_reads_back(n / 10);
        assert(t.drop_last() =~= nat_text(n / 10));
        assert(t.last() == digit_char(d));
        assert(t[0] == nat_text(n / 10)[0]);
        assert(read_decimal(t) == read_decimal(nat_text(n / 10)) * 10 + d);
    } else {
        assert(t.drop_last() =~= Seq::<char>::empty());
        assert(read_decimal(t) == read_decimal(t.drop_last()) * 10 + digit_value(t.last()));
    }
}

/// Law: the text of a negative number is `-` before the text of its
/// magnitude, and that of any other number has no `-`.
pub proof fn int_text_sign(i: int)
    ensures
        i < 0 ==> int_text(i)[0] == '-' && int_text(i).drop_first() == nat_text((-i) as nat),
        i >= 0 ==> int_text(i) == nat_text(i as nat) && int_text(i)[0] != '-',
{
    nat_text_reads_back((if i < 0 { -i } else { i }) as nat);
    if i < 0 {
        assert(int_text(i).drop_first() =~= nat_text((-i) as nat));
    } else {
        assert(is_digit(nat_text(i as nat)[0]));
    }
}

/// Law: padding gives the text at least the field's width, ends with the
/// text itself, and puts only spaces before it.
pub proof fn pad_left_shape(s: Seq<char>, width: nat)
    ensures
        pad_left(s, width).len() == if s.len() < width { width } else { s.len() },
        pad_left(s, width).subrange(pad_left(s, width).len() - s.len(), pad_left(s, width).len() as int) == s,
        forall|i: int| 0 <= i < pad_left(s, width).len() - s.len() ==> #[trigger] pad_left(s, width)[i] == ' ',
{
    let r = pad_left(s, width);
    assert(r.subrange(r.len() - s.len(), r.len() as int) =~= s);
}

} // verus!
