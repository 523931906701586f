//! Verified construction of the text fragments the tool prints: decimal
//! rendering with zero padding, and joining lists of words with a separator.
use vstd::prelude::*;
use vstd::string::StringExecFns;

verus! {

/// The character for a single decimal digit value.
pub open spec fn digit_char(d: nat) -> char {
    if d == 0 {
        '0'
    } else if d == 1 {
        '1'
    } else if d == 2 {
        '2'
    } else if d == 3 {
        '3'
    } else if d == 4 {
        '4'
    } else if d == 5 {
        '5'
    } else if d == 6 {
        '6'
    } else if d == 7 {
        '7'
    } else if d == 8 {
        '8'
    } else {
        '9'
    }
}

/// The decimal rendering of `n`, most significant digit first, with no
/// leading zeroes (a single `'0'` for zero itself).
pub open spec fn dec_digits(n: nat) -> Seq<char>
    decreases n,
{
    if n < 10 {
        seq![digit_char(n)]
    } else {
        dec_digits(n / 10).push(digit_char(n % 10))
    }
}

/// `s` left-padded with `'0'` up to width `w`; `s` unchanged when it is
/// already at least that wide.
pub open spec fn zero_pad(s: Seq<char>, w: nat) -> Seq<char> {
    if s.len() >= w {
        s
    } else {
        Seq::new((w - s.len()) as nat, |i: int| '0') + s
    }
}

/// The decimal rendering of `n`, zero-padded to at least `w` characters.
pub open spec fn padded_dec(n: nat, w: nat) -> Seq<char> {
    zero_pad(dec_digits(n), w)
}

/// `parts` joined by `sep`: empty for no parts, and no trailing separator.
pub open spec fn join_with(parts: Seq<Seq<char>>, sep: Seq<char>) -> Seq<char>
    decreases parts.len(),
{
    if parts.len() == 0 {
        Seq::empty()
    } else if parts.len() == 1 {
        parts[0]
    } else {
        join_with(parts.drop_last(), sep) + sep + parts.last()
    }
}

/// `10^k`.
pub open spec fn pow10(k: nat) -> nat
    decreases k,
{
    if k == 0 {
        1
    } else {
        10 * pow10((k - 1) as nat)
    }
}

/// A number below `10^k` needs at most `k` decimal digits.
pub proof fn lemma_dec_digits_len(n: nat, k: nat)
    requires
        1 <= k,
        n < pow10(k),
    ensures
        1 <= dec_digits(n).len() <= k,
    decreases k,
{
    if n < 10 {
    } else {
        assert(pow10(k) == 10 * pow10((k - 1) as nat));
        assert(n / 10 < pow10((k - 1) as nat));
        lemma_dec_digits_len(n / 10, (k - 1) as nat);
    }
}

/// Every `u32` fits in ten decimal digits.
pub proof fn lemma_dec_digits_len_u32(n: u32)
    ensures
        1 <= dec_digits(n as nat).len() <= 10,
{
    assert(pow10(0) == 1);
    assert(pow10(1) == 10);
    assert(pow10(2) == 100);
    assert(pow10(3) == 1000);
    assert(pow10(4) == 10_000);
    assert(pow10(5) == 100_000);
    assert(pow10(6) == 1_000_000);
    assert(pow10(7) == 10_000_000);
    assert(pow10(8) == 100_000_000);
    assert(pow10(9) == 1_000_000_000);
    assert(pow10(10) == 10_000_000_000);
    lemma_dec_digits_len(n as nat, 10);
}

/// Appends the character for one digit value to `s`.
pub fn push_digit(s: &mut String, d: u8)
    requires
        d < 10,
    ensures
        final(s)@ == old(s)@ + seq![digit_char(d as nat)],
{
    proof {
        reveal_strlit("0");
        reveal_strlit("1");
        reveal_strlit("2");
        reveal_strlit("3");
        reveal_strlit("4");
        reveal_strlit("5");
        reveal_strlit("6");
        reveal_strlit("7");
        reveal_strlit("8");
        reveal_strlit("9");
    }
    match d {
        0 => s.append("0"),
        1 => s.append("1"),
        2 => s.append("2"),
        3 => s.append("3"),
        4 => s.append("4"),
        5 => s.append("5"),
        6 => s.append("6"),
        7 => s.append("7"),
        8 => s.append("8"),
        _ => s.append("9"),
    }
    assert(s@ =~= old(s)@ + seq![digit_char(d as nat)]);
}

/// Appends the decimal rendering of `n` to `s`.
pub fn push_dec(s: &mut String, n: u32)
    ensures
        final(s)@ == old(s)@ + dec_digits(n as nat),
    decreases n,
{
    if n >= 10 {
        push_dec(s, n / 10);
    }
    push_digit(s, (n % 10) as u8);
    assert(s@ =~= old(s)@ + dec_digits(n as nat));
}

/// The number of decimal digits of `n`.
pub fn num_digits(n: u32) -> (r: u32)
    ensures
        r == dec_digits(n as nat).len(),
    decreases n,
{
    proof {
        lemma_dec_digits_len_u32(n);
    }
    if n < 10 {
        1
    } else {
        1 + num_digits(n / 10)
    }
}

/// Appends the decimal rendering of `n`, zero-padded to at least `width`
/// characters, to `s`.
pub fn push_dec_padded(s: &mut String, n: u32, width: u32)
    ensures
        final(s)@ == old(s)@ + padded_dec(n as nat, width as nat),
{
    let ghost s0 = s@;
    let d = num_digits(n);
    let mut i: u32 = d;
    while i < width
        invariant
            d == dec_digits(n as nat).len(),
            d <= i,
            i <= width || i == d,
            s@ == s0 + Seq::new((i - d) as nat, |x: int| '0'),
        decreases width - i,
    {
        push_digit(s, 0);
        proof {
            assert(s@ =~= s0 + Seq::new((i + 1 - d) as nat, |x: int| '0'));
        }
        i = i + 1;
    }
    push_dec(s, n);
    proof {
        let digits = dec_digits(n as nat);
        if width <= d {
            assert(Seq::new((i - d) as nat, |x: int| '0') =~= Seq::<char>::empty());
            assert(s@ =~= s0 + padded_dec(n as nat, width as nat));
        } else {
            assert(Seq::new((i - d) as nat, |x: int| '0') =~= Seq::new(
                (width as nat - digits.len()) as nat,
                |x: int| '0',
            ));
            assert(s@ =~= s0 + padded_dec(n as nat, width as nat));
        }
    }
}

/// `join_with` over one more element, unfolded from the front.
proof fn lemma_join_step(parts: Seq<Seq<char>>, sep: Seq<char>, i: int)
    requires
        0 <= i < parts.len(),
    ensures
        join_with(parts.take(i + 1), sep) == if i == 0 {
            parts[0]
        } else {
            join_with(parts.take(i), sep) + sep + parts[i]
        },
{
    let front = parts.take(i + 1);
    assert(front.drop_last() =~= parts.take(i));
    assert(front.last() == parts[i]);
    if i == 0 {
        assert(join_with(front, sep) == front[0]);
    }
}

/// Joins the given words with the separator, in order.
pub fn join_strings(parts: &Vec<String>, sep: &str) -> (r: String)
    ensures
        r@ == join_with(parts.deep_view(), sep@),
{
    let mut r = String::new();
    let mut i: usize = 0;
    while i < parts.len()
        invariant
            i <= parts.len(),
            r@ == join_with(parts.deep_view().take(i as int), sep@),
        decreases parts.len() - i,
    {
        if i > 0 {
            r.append(sep);
        }
        r.append(parts[i].as_str());
        proof {
            assert(parts.deep_view()[i as int] == parts@[i as int]@);
            lemma_join_step(parts.deep_view(), sep@, i as int);
        }
        i = i + 1;
    }
    proof {
        assert(parts.deep_view().take(parts@.len() as int) =~= parts.deep_view());
    }
    r
}

} // verus!
