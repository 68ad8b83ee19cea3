use vstd::prelude::*;
use vstd::arithmetic::div_mod::{lemma_breakdown, lemma_small_mod};

verus! {

// Tokens are rendered as characters; the two timestamps travel as fixed-width
// lowercase hexadecimal, so that a token splits at fixed positions. This
// module holds the hexadecimal spec, the verified renderer and parser, and
// the small character-vector helpers the token and guard code builds on.

/// The lowercase hexadecimal digit for a value below 16.
pub open spec fn nibble_char(d: u64) -> char {
    if d == 0 {
        '0'
    } else if d == 1 {
        '1'
    } else if d == 2 {
        '2'
    } else if d == 3 {
        '3'
    } else if d == 4 {
        '4'
    } else if d == 5 {
        '5'
    } else if d == 6 {
        '6'
    } else if d == 7 {
        '7'
    } else if d == 8 {
        '8'
    } else if d == 9 {
        '9'
    } else if d == 10 {
        'a'
    } else if d == 11 {
        'b'
    } else if d == 12 {
        'c'
    } else if d == 13 {
        'd'
    } else if d == 14 {
        'e'
    } else {
        'f'
    }
}

/// The value of a lowercase hexadecimal digit, and -1 for any other character.
pub open spec fn nibble_value(c: char) -> int {
    if c == '0' {
        0
    } else if c == '1' {
        1
    } else if c == '2' {
        2
    } else if c == '3' {
        3
    } else if c == '4' {
        4
    } else if c == '5' {
        5
    } else if c == '6' {
        6
    } else if c == '7' {
        7
    } else if c == '8' {
        8
    } else if c == '9' {
        9
    } else if c == 'a' {
        10
    } else if c == 'b' {
        11
    } else if c == 'c' {
        12
    } else if c == 'd' {
        13
    } else if c == 'e' {
        14
    } else if c == 'f' {
        15
    } else {
        -1
    }
}

pub open spec fn pow16(n: nat) -> int
    decreases n,
{
    if n == 0 {
        1
    } else {
        16 * pow16((n - 1) as nat)
    }
}

/// The last `n` hexadecimal digits of `v`, most significant first.
pub open spec fn hex_digits(v: u64, n: nat) -> Seq<char>
    decreases n,
{
    if n == 0 {
        Seq::empty()
    } else {
        hex_digits(v / 16, (n - 1) as nat).push(nibble_char(v % 16))
    }
}

/// Every character of `s` is a lowercase hexadecimal digit.
pub open spec fn is_hex_seq(s: Seq<char>) -> bool {
    forall|i: int| 0 <= i < s.len() ==> nibble_value(#[trigger] s[i]) >= 0
}

/// The number a sequence of hexadecimal digits denotes, most significant
/// digit first.
pub open spec fn hex_value(s: Seq<char>) -> int
    decreases s.len(),
{
    if s.len() == 0 {
        0
    } else {
        hex_value(s.drop_last()) * 16 + nibble_value(s.last())
    }
}

pub proof fn lemma_pow16_pos(n: nat)
    ensures
        pow16(n) >= 1,
    decreases n,
{
    if n > 0 {
        lemma_pow16_pos((n - 1) as nat);
    }
}

pub proof fn lemma_pow16_mono(a: nat, b: nat)
    requires
        a <= b,
    ensures
        pow16(a) <= pow16(b),
    decreases b,
{
    if a < b {
        lemma_pow16_mono(a, (b - 1) as nat);
        lemma_pow16_pos((b - 1) as nat);
    }
}

pub proof fn lemma_hex_digits_len(v: u64, n: nat)
    ensures
        hex_digits(v, n).len() == n,
    decreases n,
{
    if n > 0 {
        lemma_hex_digits_len(v / 16, (n - 1) as nat);
    }
}

pub proof fn lemma_hex_digits_are_hex(v: u64, n: nat)
    ensures
        is_hex_seq(hex_digits(v, n)),
    decreases n,
{
    if n > 0 {
        lemma_hex_digits_are_hex(v / 16, (n - 1) as nat);
        assert(nibble_value(nibble_char(v % 16)) == (v % 16) as int);
    }
}

pub proof fn lemma_hex_digits_value(v: u64, n: nat)
    ensures
        hex_value(hex_digits(v, n)) == (v as int) % pow16(n),
    decreases n,
{
    if n == 0 {
        lemma_small_mod(0, 1);
        assert((v as int) % 1 == 0) by {
            lemma_breakdown(v as int, 1, 1);
        }
    } else {
        lemma_hex_digits_value(v / 16, (n - 1) as nat);
        lemma_pow16_pos((n - 1) as nat);
        let d = hex_digits(v / 16, (n - 1) as nat);
        assert(hex_digits(v, n).drop_last() == d);
        assert(nibble_value(nibble_char(v % 16)) == (v % 16) as int);
        lemma_breakdown(v as int, 16, pow16((n - 1) as nat));
    }
}

/// A sequence of hexadecimal digits denotes a number below 16^len.
pub proof fn lemma_hex_value_bounds(s: Seq<char>)
    requires
        is_hex_seq(s),
    ensures
        0 <= hex_value(s) < pow16(s.len()),
    decreases s.len(),
{
    if s.len() > 0 {
        lemma_hex_value_bounds(s.drop_last());
        assert(nibble_value(s.last()) >= 0);
        assert(nibble_value(s.last()) <= 15);
    }
}

/// The sixteen digits of a `u64` parse back to it.
pub proof fn lemma_hex_round_trip(v: u64)
    ensures
        hex_value(hex_digits(v, 16)) == v,
{
    lemma_hex_digits_value(v, 16);
    assert(pow16(16) == 0x1_0000_0000_0000_0000) by {
        reveal_with_fuel(pow16, 17);
    }
    lemma_small_mod(v as nat, 0x1_0000_0000_0000_0000);
}

fn nibble_to_char(d: u64) -> (c: char)
    requires
        d < 16,
    ensures
        c == nibble_char(d),
{
    if d == 0 {
        '0'
    } else if d == 1 {
        '1'
    } else if d == 2 {
        '2'
    } else if d == 3 {
        '3'
    } else if d == 4 {
        '4'
    } else if d == 5 {
        '5'
    } else if d == 6 {
        '6'
    } else if d == 7 {
        '7'
    } else if d == 8 {
        '8'
    } else if d == 9 {
        '9'
    } else if d == 10 {
        'a'
    } else if d == 11 {
        'b'
    } else if d == 12 {
        'c'
    } else if d == 13 {
        'd'
    } else if d == 14 {
        'e'
    } else {
        'f'
    }
}

fn char_to_nibble(c: char) -> (r: Option<u64>)
    ensures
        r == (if nibble_value(c) >= 0 {
            Some(nibble_value(c) as u64)
        } else {
            None::<u64>
        }),
{
    if c == '0' {
        Some(0)
    } else if c == '1' {
        Some(1)
    } else if c == '2' {
        Some(2)
    } else if c == '3' {
        Some(3)
    } else if c == '4' {
        Some(4)
    } else if c == '5' {
        Some(5)
    } else if c == '6' {
        Some(6)
    } else if c == '7' {
        Some(7)
    } else if c == '8' {
        Some(8)
    } else if c == '9' {
        Some(9)
    } else if c == 'a' {
        Some(10)
    } else if c == 'b' {
        Some(11)
    } else if c == 'c' {
        Some(12)
    } else if c == 'd' {
        Some(13)
    } else if c == 'e' {
        Some(14)
    } else if c == 'f' {
        Some(15)
    } else {
        None
    }
}

/// Renders `v` as its sixteen hexadecimal digits, most significant first.
pub(crate) fn u64_to_hex(v: u64) -> (r: Vec<char>)
    ensures
        r@ == hex_digits(v, 16),
{
    let mut digits: Vec<char> = Vec::new();
    let mut w: u64 = v;
    let mut k: usize = 0;
    while k < 16
        invariant
            k <= 16,
            digits@.len() == k,
            hex_digits(v, 16) == hex_digits(w, (16 - k) as nat) + digits@,
        decreases 16 - k,
    {
        let ghost old_w = w;
        let ghost old_digits = digits@;
        let c = nibble_to_char(w % 16);
        digits.insert(0, c);
        w = w / 16;
        k = k + 1;
        proof {
            assert(hex_digits(old_w, (17 - k) as nat) == hex_digits(
                old_w / 16,
                (16 - k) as nat,
            ).push(nibble_char(old_w % 16)));
            assert(hex_digits(w, (16 - k) as nat) + digits@ =~= (hex_digits(
                w,
                (16 - k) as nat,
            ).push(c)) + old_digits);
        }
    }
    assert(hex_digits(v, 16) =~= digits@);
    digits
}

/// Parses the sixteen characters of `t` starting at `start` as hexadecimal;
/// `None` exactly when one of them is not a lowercase hexadecimal digit.
pub(crate) fn parse_hex16(t: &Vec<char>, start: usize) -> (r: Option<u64>)
    requires
        start + 16 <= t@.len(),
    ensures
        r == (if is_hex_seq(t@.subrange(start as int, start as int + 16)) {
            Some(hex_value(t@.subrange(start as int, start as int + 16)) as u64)
        } else {
            None::<u64>
        }),
{
    let ghost whole = t@.subrange(start as int, start as int + 16);
    let tlen = t.len();
    let mut acc: u64 = 0;
    let mut i: usize = 0;
    while i < 16
        invariant
            i <= 16,
            tlen == t@.len(),
            start + 16 <= tlen,
            whole == t@.subrange(start as int, start as int + 16),
            is_hex_seq(t@.subrange(start as int, start as int + i)),
            acc == hex_value(t@.subrange(start as int, start as int + i)),
            acc < pow16(i as nat),
        decreases 16 - i,
    {
        let ghost prefix = t@.subrange(start as int, start as int + i);
        let c = t[start + i];
        match char_to_nibble(c) {
            None => {
                proof {
                    assert(whole[i as int] == c);
                    assert(!is_hex_seq(whole));
                }
                return None;
            },
            Some(d) => {
                proof {
                    lemma_pow16_mono(i as nat, 15);
                    assert(pow16(15) == 0x1000_0000_0000_0000) by {
                        reveal_with_fuel(pow16, 16);
                    }
                }
                acc = acc * 16 + d;
                i = i + 1;
                proof {
                    let extended = t@.subrange(start as int, start as int + i);
                    assert(extended =~= prefix.push(c));
                    assert(extended.drop_last() == prefix);
                    assert(extended.last() == c);
                }
            },
        }
    }
    assert(whole =~= t@.subrange(start as int, start as int + 16));
    proof {
        lemma_hex_value_bounds(whole);
    }
    Some(acc)
}

/// Copies `t[from..to]` out into a fresh vector.
pub(crate) fn subvec(t: &Vec<char>, from: usize, to: usize) -> (r: Vec<char>)
    requires
        from <= to <= t@.len(),
    ensures
        r@ == t@.subrange(from as int, to as int),
{
    let mut r: Vec<char> = Vec::new();
    let mut i: usize = from;
    while i < to
        invariant
            from <= i <= to <= t@.len(),
            r@ == t@.subrange(from as int, i as int),
        decreases to - i,
    {
        let ghost before = r@;
        r.push(t[i]);
        i = i + 1;
        proof {
            assert(t@.subrange(from as int, i as int) =~= before.push(t@[i - 1]));
        }
    }
    r
}

/// Appends every character of `src` to `dst`.
pub(crate) fn push_all(dst: &mut Vec<char>, src: &Vec<char>)
    ensures
        final(dst)@ == old(dst)@ + src@,
{
    let mut i: usize = 0;
    while i < src.len()
        invariant
            i <= src@.len(),
            dst@ == old(dst)@ + src@.subrange(0, i as int),
        decreases src@.len() - i,
    {
        let ghost before = dst@;
        dst.push(src[i]);
        i = i + 1;
        proof {
            assert(src@.subrange(0, i as int) =~= src@.subrange(0, i - 1).push(src@[i - 1]));
            assert(dst@ =~= old(dst)@ + src@.subrange(0, i as int));
        }
    }
    assert(src@.subrange(0, src@.len() as int) =~= src@);
}

/// Character-for-character equality of two vectors.
pub(crate) fn chars_eq(a: &Vec<char>, b: &Vec<char>) -> (r: bool)
    ensures
        r == (a@ == b@),
{
    if a.len() != b.len() {
        return false;
    }
    let n = a.len();
    let mut i: usize = 0;
    while i < n
        invariant
            n == a@.len() == b@.len(),
            i <= n,
            forall|j: int| 0 <= j < i ==> a@[j] == b@[j],
        decreases n - i,
    {
        if a[i] != b[i] {
            return false;
        }
        i = i + 1;
    }
    assert(a@ =~= b@);
    true
}

/// Relies on std's `str::chars`: the iterator yields exactly the string's
/// characters in order, which is the string's view.
#[verifier::external_body]
pub(crate) fn str_to_chars(s: &str) -> (r: Vec<char>)
    ensures
        r@ == s@,
{
    s.chars().collect()
}

/// Relies on std's `FromIterator<&char> for String`: collecting characters
/// builds the string of exactly those characters, in order.
#[verifier::external_body]
pub(crate) fn chars_to_string(v: &Vec<char>) -> (r: String)
    ensures
        r@ == v@,
{
    v.iter().collect()
}

} // verus!
