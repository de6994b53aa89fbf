//! Character-level string helpers shared by the rest of the library.
use vstd::prelude::*;

verus! {

/// Appends one character to a string (`String::push`).
#[verifier::external_body]
pub(crate) fn push_char(s: &mut String, c: char)
    ensures
        final(s)@ == old(s)@.push(c),
{
    s.push(c)
}

/// Whether two string slices hold the same characters.
pub fn str_eq(a: &str, b: &str) -> (r: bool)
    ensures
        r == (a@ == b@),
{
    let x: String = a.to_owned();
    let y: String = b.to_owned();
    x == y
}

/// The decimal digit character for `d` (`d < 10`).
pub open spec fn digit_char(d: nat) -> char {
    if d == 0 { '0' } else if d == 1 { '1' } else if d == 2 { '2' } else if d == 3 { '3' }
    else if d == 4 { '4' } else if d == 5 { '5' } else if d == 6 { '6' } else if d == 7 { '7' }
    else if d == 8 { '8' } else { '9' }
}

/// The decimal representation of `n`, without sign or leading zeros.
pub open spec fn decimal(n: nat) -> Seq<char>
    decreases n,
{
    if n < 10 {
        seq![digit_char(n)]
    } else {
        decimal(n / 10).push(digit_char(n % 10))
    }
}

/// The number that a text of decimal digits writes.
pub open spec fn decimal_value(s: Seq<char>) -> int
    decreases s.len(),
{
    if s.len() == 0 {
        0
    } else {
        decimal_value(s.drop_last()) * 10 + (s.last() as int - '0' as int)
    }
}

/// The decimal representation of `n` writes `n` with the digits `0` to `9`
/// only, and starts with `0` only when `n` is 0 (then it is just `0`).
pub proof fn lemma_decimal_writes_the_number(n: nat)
    ensures
        decimal_value(decimal(n)) == n,
        decimal(n).len() > 0,
        forall|i: int| 0 <= i < decimal(n).len() ==> '0' <= #[trigger] decimal(n)[i] <= '9',
        decimal(n)[0] == '0' <==> n == 0,
        n == 0 ==> decimal(n).len() == 1,
    decreases n,
{
    if n >= 10 {
        lemma_decimal_writes_the_number(n / 10);
        let s = decimal(n);
        let d = (n % 10) as nat;
        assert(s == decimal(n / 10).push(digit_char(d)));
        assert(s.drop_last() =~= decimal(n / 10));
        assert(s.last() == digit_char(d));
        assert(digit_char(d) as int - '0' as int == d);
        assert(n == (n / 10) * 10 + d);
        assert(decimal_value(s) == decimal_value(s.drop_last()) * 10 + (s.last() as int - '0' as int));
        assert forall|i: int| 0 <= i < s.len() implies '0' <= #[trigger] s[i] <= '9' by {
            if i < s.len() - 1 {
                assert(s[i] == decimal(n / 10)[i]);
            }
        }
        assert(s[0] == decimal(n / 10)[0]);
    } else {
        let s = decimal(n);
        assert(s == seq![digit_char(n)]);
        assert(s.drop_last() =~= Seq::<char>::empty());
        assert(digit_char(n) as int - '0' as int == n);
        assert(s.last() == digit_char(n));
        assert(decimal_value(Seq::<char>::empty()) == 0);
        assert(decimal_value(s) == decimal_value(s.drop_last()) * 10 + (s.last() as int - '0' as int));
    }
}

fn digit_of(d: u64) -> (c: char)
    requires
        d < 10,
    ensures
        c == digit_char(d as nat),
{
    if d == 0 { '0' } else if d == 1 { '1' } else if d == 2 { '2' } else if d == 3 { '3' }
    else if d == 4 { '4' } else if d == 5 { '5' } else if d == 6 { '6' } else if d == 7 { '7' }
    else if d == 8 { '8' } else { '9' }
}

/// Appends the decimal representation of `n` to `s`.
pub fn push_decimal(s: &mut String, n: u64)
    ensures
        final(s)@ == old(s)@ + decimal(n as nat),
    decreases n,
{
    if n >= 10 {
        push_decimal(s, n / 10);
    }
    let c = digit_of(n % 10);
    push_char(s, c);
    proof {
        assert(old(s)@ + decimal(n as nat) =~= old(s)@ + (if n < 10 { seq![digit_char(n as nat)] } else { decimal((n / 10) as nat).push(digit_char((n % 10) as nat)) }));
    }
}

/// The lower-case hexadecimal digit for `d` (`d < 16`).
pub open spec fn hex_digit_char(d: nat) -> char {
    if d < 10 {
        digit_char(d)
    } else if d == 10 { 'a' } else if d == 11 { 'b' } else if d == 12 { 'c' } else if d == 13 { 'd' }
    else if d == 14 { 'e' } else { 'f' }
}

/// The lower-case hexadecimal encoding of `data`, two digits per byte,
/// high nibble first.
pub open spec fn hex_lower(data: Seq<u8>) -> Seq<char>
    decreases data.len(),
{
    if data.len() == 0 {
        Seq::empty()
    } else {
        hex_lower(data.drop_last()) + seq![
            hex_digit_char((data.last() / 16) as nat),
            hex_digit_char((data.last() % 16) as nat),
        ]
    }
}

/// The value of a lower-case hexadecimal digit.
pub open spec fn hex_digit_value(c: char) -> int {
    if '0' <= c && c <= '9' {
        c as int - '0' as int
    } else {
        c as int - 'a' as int + 10
    }
}

/// The hex encoding writes byte `i` of `data` as the two lower-case
/// hexadecimal digits at positions `2i` and `2i + 1`, high digit first.
pub proof fn lemma_hex_lower_writes_each_byte(data: Seq<u8>)
    ensures
        hex_lower(data).len() == 2 * data.len(),
        forall|i: int|
            0 <= i < data.len() ==> hex_digit_value(#[trigger] hex_lower(data)[2 * i]) * 16
                + hex_digit_value(hex_lower(data)[2 * i + 1]) == data[i],
        forall|k: int|
            0 <= k < hex_lower(data).len() ==> ('0' <= #[trigger] hex_lower(data)[k] <= '9' || 'a'
                <= hex_lower(data)[k] <= 'f'),
    decreases data.len(),
{
    lemma_hex_lower_len(data);
    if data.len() > 0 {
        let rest = data.drop_last();
        lemma_hex_lower_writes_each_byte(rest);
        let b = data.last();
        let hi = hex_digit_char((b / 16) as nat);
        let lo = hex_digit_char((b % 16) as nat);
        let h = hex_lower(data);
        let hr = hex_lower(rest);
        assert(h == hr + seq![hi, lo]);
        assert(hex_digit_value(hi) == b / 16);
        assert(hex_digit_value(lo) == b % 16);
        assert forall|i: int| 0 <= i < data.len() implies hex_digit_value(#[trigger] h[2 * i]) * 16
            + hex_digit_value(h[2 * i + 1]) == data[i] by {
            if i < rest.len() {
                assert(h[2 * i] == hr[2 * i]);
                assert(h[2 * i + 1] == hr[2 * i + 1]);
                assert(rest[i] == data[i]);
            } else {
                assert(i == rest.len());
                assert(h[2 * i] == hi);
                assert(h[2 * i + 1] == lo);
                assert(data[i] == b);
            }
        }
        assert forall|k: int| 0 <= k < h.len() implies ('0' <= #[trigger] h[k] <= '9' || 'a' <= h[k] <= 'f') by {
            if k < hr.len() {
                assert(h[k] == hr[k]);
            }
        }
    }
}

fn hex_digit_of(d: u8) -> (c: char)
    requires
        d < 16,
    ensures
        c == hex_digit_char(d as nat),
{
    if d < 10 {
        digit_of(d as u64)
    } else if d == 10 { 'a' } else if d == 11 { 'b' } else if d == 12 { 'c' } else if d == 13 { 'd' }
    else if d == 14 { 'e' } else { 'f' }
}

/// The hex encoding has exactly two characters per byte.
pub proof fn lemma_hex_lower_len(data: Seq<u8>)
    ensures
        hex_lower(data).len() == 2 * data.len(),
    decreases data.len(),
{
    if data.len() > 0 {
        lemma_hex_lower_len(data.drop_last());
    }
}

/// Encodes bytes as lower-case hexadecimal text (as `format!("{:x}", ..)`
/// prints a digest).
pub fn to_hex_lower(data: &[u8]) -> (r: String)
    ensures
        r@ == hex_lower(data@),
        r@.len() == 2 * data@.len(),
{
    let mut r = String::new();
    let n = data.len();
    let mut i: usize = 0;
    while i < n
        invariant
            n == data@.len(),
            i <= n,
            r@ == hex_lower(data@.subrange(0, i as int)),
        decreases n - i,
    {
        let b = data[i];
        push_char(&mut r, hex_digit_of(b / 16));
        push_char(&mut r, hex_digit_of(b % 16));
        proof {
            assert(data@.subrange(0, i + 1).drop_last() =~= data@.subrange(0, i as int));
            assert(r@ =~= hex_lower(data@.subrange(0, i + 1)));
        }
        i = i + 1;
    }
    proof {
        assert(data@.subrange(0, n as int) =~= data@);
        lemma_hex_lower_len(data@);
    }
    r
}

} // verus!
