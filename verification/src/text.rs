use vstd::prelude::*;

verus! {

/// The character that stands for the digit `d` in bases up to sixteen:
/// `0`..`9`, then lower-case `a`..`f`.
pub open spec fn digit_char(d: nat) -> char {
    if d < 10 {
        ((48 + d) as u8) as char
    } else {
        ((87 + d) as u8) as char
    }
}

/// `n` written in decimal, most significant digit first, with no leading zero
/// (the number zero is the single digit `0`).
pub open spec fn decimal(n: nat) -> Seq<char>
    decreases n,
{
    if n < 10 {
        seq![digit_char(n)]
    } else {
        decimal(n / 10).push(digit_char(n % 10))
    }
}

/// `n` written in lower-case hexadecimal, most significant digit first, with no
/// leading zero.
pub open spec fn hex(n: nat) -> Seq<char>
    decreases n,
{
    if n < 16 {
        seq![digit_char(n)]
    } else {
        hex(n / 16).push(digit_char(n % 16))
    }
}

/// `count` copies of the character `0`.
pub open spec fn zeros(count: nat) -> Seq<char> {
    Seq::new(count, |i: int| '0')
}

/// `n` in lower-case hexadecimal, filled with zeros on the left up to `width`
/// characters; a number that needs more keeps all its digits.
pub open spec fn hex_padded(n: nat, width: nat) -> Seq<char> {
    if hex(n).len() >= width {
        hex(n)
    } else {
        zeros((width - hex(n).len()) as nat) + hex(n)
    }
}

/// std's `String::push` appends one character at the end of the string.
pub assume_specification[ String::push ](s: &mut String, ch: char)
    ensures
        final(s)@ == old(s)@.push(ch),
;

/// std's equality on string slices holds exactly when both hold the same
/// characters in the same order.
pub assume_specification[ <str as PartialEq>::eq ](a: &str, b: &str) -> (same: bool)
    ensures
        same == (a@ == b@),
;

/// Whether two string slices hold the same characters.
pub fn same_text(a: &str, b: &str) -> (same: bool)
    ensures
        same == (a@ == b@),
{
    *a == *b
}

/// The character of one digit below sixteen.
fn digit_to_char(d: u8) -> (c: char)
    requires
        d < 16,
    ensures
        c == digit_char(d as nat),
{
    if d < 10 {
        (48u8 + d) as char
    } else {
        (87u8 + d) as char
    }
}

/// Appends `n` in decimal to `out`.
pub fn push_decimal(out: &mut String, n: u64)
    ensures
        final(out)@ == old(out)@ + decimal(n as nat),
    decreases n,
{
    if n >= 10 {
        push_decimal(out, n / 10);
    }
    out.push(digit_to_char((n % 10) as u8));
}

/// Different digits have different characters.
pub proof fn lemma_digit_chars_differ(a: nat, b: nat)
    requires
        a < 16,
        b < 16,
        digit_char(a) == digit_char(b),
    ensures
        a == b,
{
    let x: u8 = if a < 10 {
        (48 + a) as u8
    } else {
        (87 + a) as u8
    };
    let y: u8 = if b < 10 {
        (48 + b) as u8
    } else {
        (87 + b) as u8
    };
    assert(x as char == y as char);
    assert((x as char) as u8 == x);
    assert((y as char) as u8 == y);
}

/// A number in hexadecimal begins with the digit `0` only if it is zero, and
/// has at least one digit.
pub proof fn lemma_hex_leading_digit(n: nat)
    ensures
        hex(n).len() >= 1,
        hex(n)[0] == '0' ==> n == 0,
        n >= 16 ==> hex(n).len() >= 2,
    decreases n,
{
    if n < 16 {
        if hex(n)[0] == '0' {
            assert(digit_char(0) == '0');
            lemma_digit_chars_differ(n, 0);
        }
    } else {
        lemma_hex_leading_digit(n / 16);
        assert(hex(n)[0] == hex(n / 16)[0]);
    }
}

/// Different numbers are written differently in hexadecimal.
pub proof fn lemma_hex_differs(a: nat, b: nat)
    requires
        hex(a) == hex(b),
    ensures
        a == b,
    decreases a,
{
    lemma_hex_leading_digit(a);
    lemma_hex_leading_digit(b);
    if a < 16 {
        if b < 16 {
            assert(hex(a)[0] == hex(b)[0]);
            lemma_digit_chars_differ(a, b);
        }
    } else {
        if b >= 16 {
            assert(hex(a).last() == digit_char(a % 16));
            assert(hex(b).last() == digit_char(b % 16));
            lemma_digit_chars_differ(a % 16, b % 16);
            assert(hex(a).drop_last() =~= hex(a / 16));
            assert(hex(b).drop_last() =~= hex(b / 16));
            lemma_hex_differs(a / 16, b / 16);
        }
    }
}

/// Different numbers are written differently in hexadecimal, filled up to a
/// width or not.
pub proof fn lemma_hex_padded_differs(a: nat, b: nat, width: nat)
    requires
        hex_padded(a, width) == hex_padded(b, width),
    ensures
        a == b,
{
    lemma_hex_leading_digit(a);
    lemma_hex_leading_digit(b);
    let fill_a: nat = if hex(a).len() >= width {
        0
    } else {
        (width - hex(a).len()) as nat
    };
    let fill_b: nat = if hex(b).len() >= width {
        0
    } else {
        (width - hex(b).len()) as nat
    };
    assert(hex_padded(a, width) =~= zeros(fill_a) + hex(a));
    assert(hex_padded(b, width) =~= zeros(fill_b) + hex(b));
    let whole = hex_padded(a, width);
    assert(whole.len() == fill_a + hex(a).len());
    assert(whole.len() == fill_b + hex(b).len());
    if fill_a < fill_b {
        assert(whole[fill_a as int] == hex(a)[0]);
        assert(whole[fill_a as int] == '0');
    } else if fill_b < fill_a {
        assert(whole[fill_b as int] == hex(b)[0]);
        assert(whole[fill_b as int] == '0');
    } else {
        assert(hex(a) =~= whole.subrange(fill_a as int, whole.len() as int));
        assert(hex(b) =~= whole.subrange(fill_b as int, whole.len() as int));
        lemma_hex_differs(a, b);
    }
}

/// Filling on the left commutes with adding one more digit on the right.
proof fn lemma_hex_padded_step(n: nat, width: nat)
    requires
        n >= 16,
    ensures
        hex_padded(n, width) == hex_padded(n / 16, if width >= 1 {
            (width - 1) as nat
        } else {
            0
        }).push(digit_char(n % 16)),
{
    let shorter = if width >= 1 {
        (width - 1) as nat
    } else {
        0
    };
    let head = hex(n / 16);
    if head.len() >= shorter {
    } else {
        let fill = zeros((shorter - head.len()) as nat);
        assert(fill =~= zeros((width - hex(n).len()) as nat));
        assert((fill + head).push(digit_char(n % 16)) =~= fill + head.push(digit_char(n % 16)));
    }
}

/// Appends `n` in lower-case hexadecimal to `out`, at least `width` characters
/// wide, filled with zeros on the left.
pub fn push_hex_padded(out: &mut String, n: u128, width: usize)
    ensures
        final(out)@ == old(out)@ + hex_padded(n as nat, width as nat),
    decreases n,
{
    let ghost start = out@;
    if n >= 16 {
        let shorter: usize = if width >= 1 {
            width - 1
        } else {
            0
        };
        push_hex_padded(out, n / 16, shorter);
        proof {
            lemma_hex_padded_step(n as nat, width as nat);
        }
    } else {
        let mut filled: usize = 1;
        while filled < width
            invariant
                1 <= filled,
                filled <= width || filled == 1,
                out@ == start + zeros((filled - 1) as nat),
            decreases width - filled,
        {
            out.push('0');
            filled = filled + 1;
            assert(out@ =~= start + zeros((filled - 1) as nat));
        }
        assert(start + zeros(0) =~= start);
    }
    out.push(digit_to_char((n % 16) as u8));
    assert(out@ =~= start + hex_padded(n as nat, width as nat));
}

} // verus!
