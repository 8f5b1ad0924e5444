//! Small text routines the library needs: lowercase hexadecimal and signed
//! decimal rendering of integers (as `{:x}` and `{}` print them) and trimming
//! of Unicode white space (as `str::trim` does).
use vstd::prelude::*;

verus! {

/// The lowercase hexadecimal digit for a value below sixteen.
pub open spec fn hex_digit(d: nat) -> char {
    seq!['0', '1', '2', '3', '4', '5', '6', '7', '8', '9', 'a', 'b', 'c', 'd', 'e', 'f'][d as int]
}

/// The decimal digit for a value below ten.
pub open spec fn dec_digit(d: nat) -> char {
    seq!['0', '1', '2', '3', '4', '5', '6', '7', '8', '9'][d as int]
}

/// `n` written in lowercase hexadecimal without prefix or leading zeros.
pub open spec fn hex_text(n: nat) -> Seq<char>
    decreases n,
{
    if n < 16 {
        seq![hex_digit(n)]
    } else {
        hex_text(n / 16).push(hex_digit(n % 16))
    }
}

/// `n` written in decimal without leading zeros.
pub open spec fn dec_text(n: nat) -> Seq<char>
    decreases n,
{
    if n < 10 {
        seq![dec_digit(n)]
    } else {
        dec_text(n / 10).push(dec_digit(n % 10))
    }
}

/// A signed integer written in decimal, with a leading `-` when negative.
pub open spec fn signed_dec_text(v: int) -> Seq<char> {
    if v < 0 {
        seq!['-'] + dec_text((-v) as nat)
    } else {
        dec_text(v as nat)
    }
}

/// The characters that Unicode lists as white space (`char::is_whitespace`).
pub open spec fn is_white_space(c: char) -> bool {
    ||| ('\u{9}' <= c && c <= '\u{d}')
    ||| c == ' '
    ||| c == '\u{85}'
    ||| c == '\u{a0}'
    ||| c == '\u{1680}'
    ||| ('\u{2000}' <= c && c <= '\u{200a}')
    ||| c == '\u{2028}'
    ||| c == '\u{2029}'
    ||| c == '\u{202f}'
    ||| c == '\u{205f}'
    ||| c == '\u{3000}'
}

/// `s` without its leading white space.
pub open spec fn trim_start_text(s: Seq<char>) -> Seq<char>
    decreases s.len(),
{
    if s.len() > 0 && is_white_space(s[0]) {
        trim_start_text(s.drop_first())
    } else {
        s
    }
}

/// `s` without its trailing white space.
pub open spec fn trim_end_text(s: Seq<char>) -> Seq<char>
    decreases s.len(),
{
    if s.len() > 0 && is_white_space(s.last()) {
        trim_end_text(s.drop_last())
    } else {
        s
    }
}

/// `s` without leading and trailing white space.
pub open spec fn trim_text(s: Seq<char>) -> Seq<char> {
    trim_end_text(trim_start_text(s))
}

/// Hexadecimal text never holds a `-`.
pub proof fn lemma_hex_text_has_no_dash(n: nat)
    ensures
        forall|i: int| 0 <= i < hex_text(n).len() ==> hex_text(n)[i] != '-',
        hex_text(n).len() >= 1,
    decreases n,
{
    if n >= 16 {
        lemma_hex_text_has_no_dash(n / 16);
    }
}

proof fn lemma_hex_digit_injective(a: nat, b: nat)
    requires
        a < 16,
        b < 16,
        hex_digit(a) == hex_digit(b),
    ensures
        a == b,
{
}

/// Distinct numbers have distinct hexadecimal texts.
pub proof fn lemma_hex_text_injective(a: nat, b: nat)
    requires
        hex_text(a) == hex_text(b),
    ensures
        a == b,
    decreases a,
{
    if a >= 16 {
        lemma_hex_text_has_no_dash(a / 16);
    }
    if b >= 16 {
        lemma_hex_text_has_no_dash(b / 16);
    }
    if a < 16 && b < 16 {
        assert(hex_text(a) == seq![hex_digit(a)]);
        assert(hex_text(b) == seq![hex_digit(b)]);
        assert(hex_text(a)[0] == hex_text(b)[0]);
        assert(seq![hex_digit(a)][0] == hex_digit(a));
        assert(seq![hex_digit(b)][0] == hex_digit(b));
        lemma_hex_digit_injective(a, b);
    } else if a >= 16 && b >= 16 {
        let sa = hex_text(a);
        let sb = hex_text(b);
        assert(sa.last() == hex_digit(a % 16));
        assert(sb.last() == hex_digit(b % 16));
        lemma_hex_digit_injective(a % 16, b % 16);
        assert(sa.drop_last() =~= hex_text(a / 16));
        assert(sb.drop_last() =~= hex_text(b / 16));
        lemma_hex_text_injective(a / 16, b / 16);
    } else if a < 16 {
        assert(hex_text(b).len() == hex_text(b / 16).len() + 1);
        assert(hex_text(a).len() != hex_text(b).len());
    } else {
        assert(hex_text(a).len() == hex_text(a / 16).len() + 1);
        assert(hex_text(a).len() != hex_text(b).len());
    }
}

/// One character of `"0123456789abcdef"`, as a one-character text.
fn hex_digit_str(d: u128) -> (r: &'static str)
    requires
        d < 16,
    ensures
        r@ == seq![hex_digit(d as nat)],
{
    let digits = "0123456789abcdef";
    proof {
        reveal_strlit("0123456789abcdef");
    }
    let dd: usize = d as usize;
    let r = digits.substring_char(dd, dd + 1);
    assert(r@ =~= seq![hex_digit(d as nat)]);
    r
}

/// One character of `"0123456789"`, as a one-character text.
fn dec_digit_str(d: u64) -> (r: &'static str)
    requires
        d < 10,
    ensures
        r@ == seq![dec_digit(d as nat)],
{
    let digits = "0123456789";
    proof {
        reveal_strlit("0123456789");
    }
    let dd: usize = d as usize;
    let r = digits.substring_char(dd, dd + 1);
    assert(r@ =~= seq![dec_digit(d as nat)]);
    r
}

/// Appends the lowercase hexadecimal text of `n` to `out`.
pub fn push_hex(out: &mut String, n: u128)
    ensures
        final(out)@ == old(out)@ + hex_text(n as nat),
    decreases n,
{
    if n >= 16 {
        push_hex(out, n / 16);
    }
    out.append(hex_digit_str(n % 16));
    proof {
        if n >= 16 {
            assert(hex_text(n as nat) == hex_text((n / 16) as nat).push(hex_digit((n % 16) as nat)));
        }
    }
    assert(out@ =~= old(out)@ + hex_text(n as nat));
}

/// Appends the decimal text of `n` to `out`.
pub fn push_dec(out: &mut String, n: u64)
    ensures
        final(out)@ == old(out)@ + dec_text(n as nat),
    decreases n,
{
    if n >= 10 {
        push_dec(out, n / 10);
    }
    out.append(dec_digit_str(n % 10));
    proof {
        if n >= 10 {
            assert(dec_text(n as nat) == dec_text((n / 10) as nat).push(dec_digit((n % 10) as nat)));
        }
    }
    assert(out@ =~= old(out)@ + dec_text(n as nat));
}

/// Appends the decimal text of a signed `v` to `out` (`{}` of an `i64`).
pub fn push_signed_dec(out: &mut String, v: i64)
    ensures
        final(out)@ == old(out)@ + signed_dec_text(v as int),
{
    if v < 0 {
        out.append("-");
        proof {
            reveal_strlit("-");
        }
        let magnitude: u64 = (-(v as i128)) as u64;
        push_dec(out, magnitude);
        assert(out@ =~= old(out)@ + signed_dec_text(v as int));
    } else {
        push_dec(out, v as u64);
    }
}

proof fn lemma_trim_start_step(s: Seq<char>, i: int)
    requires
        0 <= i < s.len(),
        is_white_space(s[i]),
    ensures
        trim_start_text(s.subrange(i, s.len() as int)) == trim_start_text(
            s.subrange(i + 1, s.len() as int),
        ),
{
    assert(s.subrange(i, s.len() as int).drop_first() =~= s.subrange(i + 1, s.len() as int));
}

proof fn lemma_trim_end_step(s: Seq<char>, i: int, j: int)
    requires
        0 <= i < j <= s.len(),
        is_white_space(s[j - 1]),
    ensures
        trim_end_text(s.subrange(i, j)) == trim_end_text(s.subrange(i, j - 1)),
{
    assert(s.subrange(i, j).drop_last() =~= s.subrange(i, j - 1));
}

/// Whether `c` is white space, decided character by character.
pub fn char_is_white_space(c: char) -> (r: bool)
    ensures
        r == is_white_space(c),
{
    ('\u{9}' <= c && c <= '\u{d}') || c == ' ' || c == '\u{85}' || c == '\u{a0}' || c
        == '\u{1680}' || ('\u{2000}' <= c && c <= '\u{200a}') || c == '\u{2028}' || c
        == '\u{2029}' || c == '\u{202f}' || c == '\u{205f}' || c == '\u{3000}'
}

/// `s` without leading and trailing white space (`str::trim`).
pub fn trim_white_space(s: &str) -> (r: &str)
    ensures
        r@ == trim_text(s@),
{
    let n = s.unicode_len();
    let mut i: usize = 0;
    assert(s@.subrange(0, n as int) =~= s@);
    while i < n && char_is_white_space(s.get_char(i))
        invariant
            n == s@.len(),
            i <= n,
            trim_start_text(s@) == trim_start_text(s@.subrange(i as int, n as int)),
        decreases n - i,
    {
        proof {
            lemma_trim_start_step(s@, i as int);
        }
        i = i + 1;
    }
    assert(trim_start_text(s@) == s@.subrange(i as int, n as int));
    let mut j: usize = n;
    while j > i && char_is_white_space(s.get_char(j - 1))
        invariant
            n == s@.len(),
            i <= j <= n,
            trim_start_text(s@) == s@.subrange(i as int, n as int),
            trim_text(s@) == trim_end_text(s@.subrange(i as int, j as int)),
        decreases j,
    {
        proof {
            lemma_trim_end_step(s@, i as int, j as int);
        }
        j = j - 1;
    }
    let r = s.substring_char(i, j);
    proof {
        let t = s@.subrange(i as int, j as int);
        if j > i {
            assert(t.last() == s@[j - 1]);
        }
        assert(trim_end_text(t) == t);
    }
    r
}

} // verus!
