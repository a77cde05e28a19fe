use vstd::prelude::*;

verus! {

/// The character for one decimal digit value.
pub open spec fn digit_char(d: nat) -> char {
    if d == 0 {
        '0'
    } else if d == 1 {
        '1'
    } else if d == 2 {
        '2'
    } else if d == 3 {
        '3'
    } else if d == 4 {
        '4'
    } else if d == 5 {
        '5'
    } else if d == 6 {
        '6'
    } else if d == 7 {
        '7'
    } else if d == 8 {
        '8'
    } else {
        '9'
    }
}

/// The decimal representation of a natural number, most significant digit
/// first, with no leading zeros (a single `'0'` for zero).
pub open spec fn spec_digits(n: nat) -> Seq<char>
    decreases n,
{
    if n < 10 {
        seq![digit_char(n)]
    } else {
        spec_digits(n / 10) + seq![digit_char(n % 10)]
    }
}

/// A run of `k` zero characters.
pub open spec fn spec_zeros(k: nat) -> Seq<char> {
    Seq::new(k, |i: int| '0')
}

/// The decimal representation of `n`, left-padded with zeros to at least
/// `w` characters.
pub open spec fn spec_padded(n: nat, w: nat) -> Seq<char> {
    if spec_digits(n).len() >= w {
        spec_digits(n)
    } else {
        spec_zeros((w - spec_digits(n).len()) as nat) + spec_digits(n)
    }
}

/// Strict lexicographic order on character sequences, by code point, with
/// a proper prefix ordered before its extensions.
pub open spec fn lex_lt(a: Seq<char>, b: Seq<char>) -> bool
    decreases a.len(),
{
    if b.len() == 0 {
        false
    } else if a.len() == 0 {
        true
    } else if (a[0] as int) < (b[0] as int) {
        true
    } else if a[0] == b[0] {
        lex_lt(a.drop_first(), b.drop_first())
    } else {
        false
    }
}

/// The `w`-th power of ten.
pub open spec fn pow10(w: nat) -> nat
    decreases w,
{
    if w == 0 {
        1
    } else {
        10 * pow10((w - 1) as nat)
    }
}

proof fn lemma_digit_char_val(d: nat)
    requires
        d <= 9,
    ensures
        digit_char(d) as int == 48 + d,
{
}

pub proof fn lemma_digits_len(n: nat, w: nat)
    requires
        w >= 1,
        n < pow10(w),
    ensures
        1 <= spec_digits(n).len() <= w,
    decreases w,
{
    if n < 10 {
    } else {
        assert(w >= 2) by {
            if w == 1 {
                assert(pow10(1nat) == 10);
            }
        }
        assert(n / 10 < pow10((w - 1) as nat)) by (nonlinear_arith)
            requires
                n < 10 * pow10((w - 1) as nat),
                n >= 10,
        ;
        lemma_digits_len(n / 10, (w - 1) as nat);
    }
}

pub proof fn lemma_padded_len(n: nat, w: nat)
    requires
        spec_digits(n).len() <= w,
    ensures
        spec_padded(n, w).len() == w,
{
}

proof fn lemma_padded_snoc(m: nat, w: nat)
    requires
        w >= 2,
        spec_digits(m).len() <= w,
    ensures
        spec_digits(m / 10).len() <= w - 1,
        spec_padded(m, w) == spec_padded(m / 10, (w - 1) as nat) + seq![digit_char(m % 10)],
{
    if m < 10 {
        assert(m / 10 == 0);
        assert(spec_padded(m, w) =~= spec_padded(0, (w - 1) as nat) + seq![digit_char(m)]);
    } else {
        assert(spec_digits(m) == spec_digits(m / 10) + seq![digit_char(m % 10)]);
        assert(spec_padded(m, w) =~= spec_padded(m / 10, (w - 1) as nat) + seq![
            digit_char(m % 10),
        ]);
    }
}

/// A shared prefix neither makes nor breaks the lexicographic order: it
/// compares as the remainders compare.
pub proof fn lemma_lex_prefix(p: Seq<char>, a: Seq<char>, b: Seq<char>)
    ensures
        lex_lt(p + a, p + b) == lex_lt(a, b),
    decreases p.len(),
{
    if p.len() == 0 {
        assert(p + a =~= a);
        assert(p + b =~= b);
    } else {
        lemma_lex_prefix(p.drop_first(), a, b);
        assert((p + a).drop_first() =~= p.drop_first() + a);
        assert((p + b).drop_first() =~= p.drop_first() + b);
        assert((p + a)[0] == p[0]);
        assert((p + b)[0] == p[0]);
    }
}

/// Appending anything after two same-length ordered sequences keeps the
/// order: the decision was already made within the common width.
pub proof fn lemma_lex_append(x: Seq<char>, y: Seq<char>, s: Seq<char>, t: Seq<char>)
    requires
        lex_lt(x, y),
        x.len() == y.len(),
    ensures
        lex_lt(x + s, y + t),
    decreases x.len(),
{
    assert(x.len() >= 1);
    assert((x + s)[0] == x[0]);
    assert((y + t)[0] == y[0]);
    if (x[0] as int) < (y[0] as int) {
    } else {
        assert(x[0] == y[0]);
        lemma_lex_append(x.drop_first(), y.drop_first(), s, t);
        assert((x + s).drop_first() =~= x.drop_first() + s);
        assert((y + t).drop_first() =~= y.drop_first() + t);
    }
}

/// Zero-padding to a common width makes decimal order and lexicographic
/// order agree.
pub proof fn lemma_padded_lt(m: nat, n: nat, w: nat)
    requires
        m < n,
        w >= 1,
        spec_digits(m).len() <= w,
        spec_digits(n).len() <= w,
    ensures
        lex_lt(spec_padded(m, w), spec_padded(n, w)),
    decreases w,
{
    if w == 1 {
        assert(m <= 9 && n <= 9);
        lemma_digit_char_val(m);
        lemma_digit_char_val(n);
        assert(spec_padded(m, w) =~= seq![digit_char(m)]);
        assert(spec_padded(n, w) =~= seq![digit_char(n)]);
    } else {
        lemma_padded_snoc(m, w);
        lemma_padded_snoc(n, w);
        let mq = m / 10;
        let nq = n / 10;
        assert(m == 10 * (m / 10) + m % 10);
        assert(n == 10 * (n / 10) + n % 10);
        assert(mq <= nq);
        if mq < nq {
            lemma_padded_lt(mq, nq, (w - 1) as nat);
            lemma_padded_len(mq, (w - 1) as nat);
            lemma_padded_len(nq, (w - 1) as nat);
            lemma_lex_append(
                spec_padded(mq, (w - 1) as nat),
                spec_padded(nq, (w - 1) as nat),
                seq![digit_char(m % 10)],
                seq![digit_char(n % 10)],
            );
        } else {
            assert(m % 10 < n % 10);
            lemma_digit_char_val(m % 10);
            lemma_digit_char_val(n % 10);
            lemma_lex_prefix(
                spec_padded(mq, (w - 1) as nat),
                seq![digit_char(m % 10)],
                seq![digit_char(n % 10)],
            );
        }
    }
}

fn digit_str(d: u32) -> (r: &'static str)
    requires
        d < 10,
    ensures
        r@ == seq![digit_char(d as nat)],
{
    proof {
        reveal_strlit("0");
        reveal_strlit("1");
        reveal_strlit("2");
        reveal_strlit("3");
        reveal_strlit("4");
        reveal_strlit("5");
        reveal_strlit("6");
        reveal_strlit("7");
        reveal_strlit("8");
        reveal_strlit("9");
    }
    let r: &'static str = if d == 0 {
        "0"
    } else if d == 1 {
        "1"
    } else if d == 2 {
        "2"
    } else if d == 3 {
        "3"
    } else if d == 4 {
        "4"
    } else if d == 5 {
        "5"
    } else if d == 6 {
        "6"
    } else if d == 7 {
        "7"
    } else if d == 8 {
        "8"
    } else {
        "9"
    };
    proof {
        assert(r@ =~= seq![digit_char(d as nat)]);
    }
    r
}

/// Formats `n` in decimal with no leading zeros.
pub fn format_u32(n: u32) -> (r: String)
    ensures
        r@ == spec_digits(n as nat),
    decreases n,
{
    if n < 10 {
        String::from_str(digit_str(n))
    } else {
        proof {
            assert(n / 10 < n) by (nonlinear_arith)
                requires
                    n >= 10,
            ;
        }
        let mut s = format_u32(n / 10);
        s.append(digit_str(n % 10));
        s
    }
}

/// Formats `n` in decimal, left-padded with zeros to at least `width`
/// characters.
pub fn format_u32_padded(n: u32, width: usize) -> (r: String)
    ensures
        r@ == spec_padded(n as nat, width as nat),
{
    let digits = format_u32(n);
    let len = digits.as_str().unicode_len();
    if len >= width {
        digits
    } else {
        let mut s = String::new();
        let mut i: usize = 0;
        while i < width - len
            invariant
                len < width,
                len == spec_digits(n as nat).len(),
                i <= width - len,
                s@ =~= spec_zeros(i as nat),
            decreases width - len - i,
        {
            proof {
                reveal_strlit("0");
            }
            s.append("0");
            i = i + 1;
            proof {
                assert(s@ =~= spec_zeros(i as nat));
            }
        }
        s.append(digits.as_str());
        proof {
            assert(s@ =~= spec_padded(n as nat, width as nat));
        }
        s
    }
}

} // verus!
