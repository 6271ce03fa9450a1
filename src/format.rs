//! Allocation-free rendering of integers into caller-supplied byte buffers.
//!
//! Every function writes into every byte of the region it is given. When a
//! decimal value does not fit, the region is filled with `'*'` instead, so an
//! overflow is always visible in the output as well as in the result.
use vstd::prelude::*;

verus! {

/// Width of a rendered MAC address, `xx:xx:xx:xx:xx:xx`.
pub const FMT_MAC_ADDR_LEN: usize = 17;

/// The byte written over a whole region when a value does not fit in it.
pub const OVERFLOW_FILL: u8 = 42;

/// The ASCII digit for `d`, which is below 16; lower-case letters past nine.
pub open spec fn digit_char(d: nat) -> u8 {
    if d < 10 {
        (48 + d) as u8
    } else {
        (87 + d) as u8
    }
}

/// The decimal digits of `n`, most significant first, with no leading zeros.
pub open spec fn dec_digits(n: nat) -> Seq<u8>
    decreases n,
{
    if n < 10 {
        seq![digit_char(n)]
    } else {
        dec_digits(n / 10).push(digit_char(n % 10))
    }
}

/// The last `w` hexadecimal digits of `n`, most significant first, with
/// leading zeros where `n` has fewer than `w` digits.
pub open spec fn hex_digits(n: nat, w: nat) -> Seq<u8>
    decreases w,
{
    if w == 0 {
        Seq::empty()
    } else {
        hex_digits(n / 16, (w - 1) as nat).push(digit_char(n % 16))
    }
}

/// `n` copies of the byte `b`.
pub open spec fn repeat(b: u8, n: nat) -> Seq<u8> {
    Seq::new(n, |i: int| b)
}

pub open spec fn abs_of(v: int) -> nat {
    if v < 0 {
        (-v) as nat
    } else {
        v as nat
    }
}

/// The byte used for padding with `fill`: its code truncated to eight bits.
pub open spec fn fill_byte(fill: char) -> u8 {
    (fill as u32 % 256) as u8
}

/// The text of `v` right-aligned in `width` columns, or `None` when it does
/// not fit.
///
/// With a space fill the sign sits next to the first digit, as `%5d` puts it;
/// with any other fill the sign takes the first column and the fill goes
/// between the sign and the digits, as `%05d` puts it.
pub open spec fn int_text(v: int, fill: char, width: nat) -> Option<Seq<u8>> {
    let digits = dec_digits(abs_of(v));
    if fill == ' ' {
        let body = if v < 0 { seq![45u8] + digits } else { digits };
        if body.len() <= width {
            Some(repeat(32u8, (width - body.len()) as nat) + body)
        } else {
            None
        }
    } else if v < 0 {
        if digits.len() + 1 <= width {
            Some(seq![45u8] + repeat(fill_byte(fill), (width - digits.len() - 1) as nat) + digits)
        } else {
            None
        }
    } else if digits.len() <= width {
        Some(repeat(fill_byte(fill), (width - digits.len()) as nat) + digits)
    } else {
        None
    }
}

/// What a region of `width` bytes holds after rendering `v` into it: the
/// text, or the overflow fill.
pub open spec fn int_region(v: int, fill: char, width: nat) -> Seq<u8> {
    match int_text(v, fill, width) {
        Some(t) => t,
        None => repeat(OVERFLOW_FILL, width),
    }
}

/// Division that rounds toward zero, as integer division does on machine
/// integers.
pub open spec fn trunc_div(n: int, f: nat) -> int {
    if n < 0 {
        -((abs_of(n) / f) as int)
    } else {
        n / (f as int)
    }
}

/// The integer part of the fixed-point value `n / 10^places` right-aligned
/// in `width` columns; a value strictly between `-1` and `0` shows as `-0`.
pub open spec fn fixed_int_part(n: int, places: nat, width: nat) -> Option<Seq<u8>> {
    if n < 0 && abs_of(n) < pow10(places) {
        if width >= 2 {
            Some(repeat(32u8, (width - 2) as nat) + seq![45u8, 48u8])
        } else {
            None
        }
    } else {
        int_text(trunc_div(n, pow10(places)), ' ', width)
    }
}

/// The number of places shown for `digits` wanted places in a buffer of
/// `len` bytes: at most `len - 2`, so that a point and an integer column
/// remain.
pub open spec fn shown_places(digits: nat, len: nat) -> nat {
    if digits < len - 2 {
        digits
    } else {
        (len - 2) as nat
    }
}

/// The text of the fixed-point value `n / 10^p` in a buffer of `len` bytes,
/// where `p` is `shown_places(digits, len)`, or `None` when it does not fit.
///
/// `n` is the value already scaled by `10^p`: the places are cut to fit the
/// buffer before the value is scaled and rounded. The integer part is
/// right-aligned with spaces, then come a point and exactly `p` fraction
/// digits. A value strictly between `-1` and `0` shows its integer part as
/// `-0`. With no places the whole buffer holds the integer, with no point.
/// Buffers shorter than three bytes are refused.
pub open spec fn fixed_text(n: int, digits: nat, len: nat) -> Option<Seq<u8>> {
    let p = shown_places(digits, len);
    let int_part = fixed_int_part(n, p, (len - p - 1) as nat);
    let frac_part = int_text((abs_of(n) % pow10(p)) as int, '0', p);
    if len < 3 {
        None
    } else if p == 0 {
        int_text(n, ' ', len)
    } else {
        match (int_part, frac_part) {
            (Some(a), Some(b)) => Some(a + seq![46u8] + b),
            _ => None,
        }
    }
}

/// A MAC address as six pairs of lower-case hexadecimal digits joined by `:`.
pub open spec fn mac_text(mac: Seq<u8>) -> Seq<u8> {
    hex_digits(mac[0] as nat, 2) + seq![58u8] + hex_digits(mac[1] as nat, 2) + seq![58u8]
        + hex_digits(mac[2] as nat, 2) + seq![58u8] + hex_digits(mac[3] as nat, 2) + seq![
        58u8,
    ] + hex_digits(mac[4] as nat, 2) + seq![58u8] + hex_digits(mac[5] as nat, 2)
}

pub proof fn lemma_dec_digits_len(n: nat)
    ensures
        1 <= dec_digits(n).len(),
        n < 10 <==> dec_digits(n).len() == 1,
    decreases n,
{
    if n >= 10 {
        lemma_dec_digits_len(n / 10);
    }
}

/// A number below `10^k` has at most `k` decimal digits.
proof fn lemma_dec_digits_bound(n: nat, k: nat, p: nat)
    requires
        k >= 1,
        p == pow10(k),
        n < p,
    ensures
        dec_digits(n).len() <= k,
    decreases k,
{
    lemma_dec_digits_len(n);
    if n >= 10 {
        let q = pow10((k - 1) as nat);
        assert(p == 10 * q);
        assert(n / 10 < q) by (nonlinear_arith)
            requires
                n < 10 * q,
        ;
        if k == 1 {
            assert(q == 1);
        } else {
            lemma_dec_digits_bound(n / 10, (k - 1) as nat, q);
        }
    }
}

pub open spec fn pow10(k: nat) -> nat
    decreases k,
{
    if k == 0 {
        1
    } else {
        10 * pow10((k - 1) as nat)
    }
}

/// Sets every byte of `buf` to `fill_byte`.
pub fn fill_buf(buf: &mut [u8], fill_byte: u8)
    ensures
        final(buf)@ == repeat(fill_byte, old(buf)@.len()),
{
    fill_range(buf, 0, buf.len(), fill_byte);
    assert(final(buf)@ =~= repeat(fill_byte, old(buf)@.len()));
}

/// Sets `buf[start..end]` to `b`, leaving the other bytes alone.
fn fill_range(buf: &mut [u8], start: usize, end: usize, b: u8)
    requires
        start <= end <= old(buf)@.len(),
    ensures
        final(buf)@.len() == old(buf)@.len(),
        final(buf)@.subrange(start as int, end as int) == repeat(b, (end - start) as nat),
        forall|k: int|
            0 <= k < old(buf)@.len() && !(start <= k < end) ==> final(buf)@[k] == old(buf)@[k],
{
    let mut i: usize = start;
    while i < end
        invariant
            start <= i <= end,
            end <= buf@.len(),
            buf@.len() == old(buf)@.len(),
            forall|k: int| start <= k < i ==> buf@[k] == b,
            forall|k: int|
                0 <= k < old(buf)@.len() && !(start <= k < i) ==> buf@[k] == old(buf)@[k],
        decreases end - i,
    {
        buf[i] = b;
        i = i + 1;
    }
    assert(buf@.subrange(start as int, end as int) =~= repeat(b, (end - start) as nat));
}

/// Number of decimal digits of `a`.
fn count_digits(a: u64) -> (n: usize)
    ensures
        n == dec_digits(a as nat).len(),
        1 <= n <= 20,
{
    let mut n: usize = 1;
    let mut x: u64 = a;
    proof {
        lemma_dec_digits_len(a as nat);
        reveal_with_fuel(pow10, 21);
        assert(pow10(20) == 100000000000000000000nat);
        lemma_dec_digits_bound(a as nat, 20, pow10(20));
    }
    while x >= 10
        invariant
            1 <= n,
            dec_digits(x as nat).len() + n - 1 == dec_digits(a as nat).len(),
            dec_digits(a as nat).len() <= 20,
        decreases x,
    {
        proof {
            lemma_dec_digits_len((x / 10) as nat);
        }
        x = x / 10;
        n = n + 1;
    }
    proof {
        lemma_dec_digits_len(x as nat);
    }
    n
}

/// Writes `num` right-aligned into `buf[start..end]` with the padding policy
/// of `int_text`, or fills that region with the overflow byte when the value
/// does not fit.
pub(crate) fn format_int_range(buf: &mut [u8], start: usize, end: usize, num: i64, fill: char) -> (ok: bool)
    requires
        start <= end <= old(buf)@.len(),
    ensures
        final(buf)@.len() == old(buf)@.len(),
        ok == int_text(num as int, fill, (end - start) as nat) is Some,
        final(buf)@.subrange(start as int, end as int) == int_region(
            num as int,
            fill,
            (end - start) as nat,
        ),
        forall|k: int|
            0 <= k < old(buf)@.len() && !(start <= k < end) ==> final(buf)@[k] == old(buf)@[k],
{
    let width: usize = end - start;
    let neg: bool = num < 0;
    let a: u64 = if num == i64::MIN {
        0x8000000000000000u64
    } else if neg {
        (0i64 - num) as u64
    } else {
        num as u64
    };
    assert(a as nat == abs_of(num as int));
    let nd = count_digits(a);
    let need: usize = if neg {
        nd + 1
    } else {
        nd
    };
    if need > width {
        fill_range(buf, start, end, OVERFLOW_FILL);
        return false;
    }
    let ghost digits = dec_digits(a as nat);
    let mut i: usize = end;
    let mut x: u64 = a;
    let mut k: usize = 0;
    while k < nd
        invariant
            0 <= k <= nd,
            i == end - k,
            start + need <= end,
            nd <= need,
            need == (if neg { nd + 1 } else { nd as int }),
            end <= buf@.len(),
            buf@.len() == old(buf)@.len(),
            nd == digits.len(),
            digits == dec_digits(a as nat),
            k < nd ==> dec_digits(x as nat) + buf@.subrange(i as int, end as int) == digits,
            k < nd ==> dec_digits(x as nat).len() == nd - k,
            k == nd ==> buf@.subrange(i as int, end as int) == digits,
            forall|j: int|
                0 <= j < old(buf)@.len() && !(i <= j < end) ==> buf@[j] == old(buf)@[j],
        decreases nd - k,
    {
        let ghost before = buf@;
        let ch: u8 = 48 + (x % 10) as u8;
        i = i - 1;
        buf[i] = ch;
        proof {
            lemma_dec_digits_len(x as nat);
            lemma_dec_digits_len((x / 10) as nat);
            assert(buf@.subrange(i as int, end as int) =~= seq![ch] + before.subrange(
                i + 1,
                end as int,
            ));
            if x >= 10 {
                assert(dec_digits(x as nat) == dec_digits((x / 10) as nat).push(ch));
                assert(dec_digits((x / 10) as nat) + buf@.subrange(i as int, end as int)
                    =~= dec_digits(x as nat) + before.subrange(i + 1, end as int));
            } else {
                assert(dec_digits(x as nat) == seq![ch]);
                assert(buf@.subrange(i as int, end as int) =~= dec_digits(x as nat)
                    + before.subrange(i + 1, end as int));
            }
        }
        x = x / 10;
        k = k + 1;
    }
    let ghost after_digits = buf@;
    let lead: usize = end - nd;
    if fill == ' ' {
        if neg {
            buf[lead - 1] = 45u8;
            fill_range(buf, start, lead - 1, 32u8);
            assert(buf@.subrange(start as int, end as int) =~= repeat(32u8, (lead - 1 - start) as nat)
                + (seq![45u8] + digits));
        } else {
            fill_range(buf, start, lead, 32u8);
            assert(buf@.subrange(start as int, end as int) =~= repeat(32u8, (lead - start) as nat)
                + digits);
        }
    } else {
        let fb: u8 = (fill as u32 % 256) as u8;
        if neg {
            fill_range(buf, start + 1, lead, fb);
            buf[start] = 45u8;
            assert(buf@.subrange(start as int, end as int) =~= seq![45u8] + repeat(
                fb,
                (lead - start - 1) as nat,
            ) + digits);
        } else {
            fill_range(buf, start, lead, fb);
            assert(buf@.subrange(start as int, end as int) =~= repeat(fb, (lead - start) as nat)
                + digits);
        }
    }
    true
}

/// Writes `num` in decimal, right-aligned, into all of `buf`.
///
/// With `fill == ' '` the unused columns on the left are spaces and a minus
/// sign stands right before the first digit; with any other fill they hold
/// that character and a minus sign takes the first column. When the text
/// does not fit, `buf` is filled with `'*'` and the result is `false`; an
/// empty buffer never fits.
pub fn format_int_into(buf: &mut [u8], num: i32, fill: char) -> (ok: bool)
    ensures
        ok == int_text(num as int, fill, old(buf)@.len()) is Some,
        final(buf)@ == int_region(num as int, fill, old(buf)@.len()),
{
    let len = buf.len();
    let ok = format_int_range(buf, 0, len, num as i64, fill);
    assert(buf@ =~= buf@.subrange(0, len as int));
    ok
}

/// `10^k` for `k` up to nine.
fn pow10_u32(k: u32) -> (r: u32)
    requires
        k <= 9,
    ensures
        r as nat == pow10(k as nat),
        1 <= r <= 1000000000,
{
    let mut factor: u32 = 1;
    let mut p: u32 = 0;
    while p < k
        invariant
            p <= k <= 9,
            factor as nat == pow10(p as nat),
            1 <= factor <= 1000000000,
        decreases k - p,
    {
        proof {
            assert(pow10((p + 1) as nat) == 10 * pow10(p as nat));
            lemma_pow10_mono(p as nat, 8);
            reveal_with_fuel(pow10, 9);
            assert(pow10(8) == 100000000);
        }
        factor = factor * 10;
        p = p + 1;
    }
    factor
}

/// `|scaled|` divided by `10^places`, and the remainder: the integer and
/// fraction digits of the fixed-point value.
fn split_scaled(scaled: i32, places: usize) -> (r: (u64, u64))
    ensures
        r.0 == abs_of(scaled as int) / pow10(places as nat),
        r.1 == abs_of(scaled as int) % pow10(places as nat),
        r.1 < 0x100000000,
{
    let a: u64 = if scaled < 0 {
        (0i64 - scaled as i64) as u64
    } else {
        scaled as u64
    };
    assert(a as nat == abs_of(scaled as int));
    if places <= 9 {
        let f = pow10_u32(places as u32) as u64;
        (a / f, a % f)
    } else {
        proof {
            lemma_pow10_mono(10, places as nat);
            reveal_with_fuel(pow10, 11);
            assert(pow10(10) == 10000000000nat);
            vstd::arithmetic::div_mod::lemma_fundamental_div_mod_converse(
                a as int,
                pow10(places as nat) as int,
                0,
                a as int,
            );
        }
        (0, a)
    }
}

/// Writes the integer part of `scaled / 10^places` into `buf[0..width]`,
/// as `fixed_int_part` gives it, or fails leaving the rest of `buf` alone.
fn fixed_int_range(buf: &mut [u8], width: usize, scaled: i32, places: usize) -> (ok: bool)
    requires
        width <= old(buf)@.len(),
    ensures
        final(buf)@.len() == old(buf)@.len(),
        ok == fixed_int_part(scaled as int, places as nat, width as nat) is Some,
        ok ==> Some(final(buf)@.subrange(0, width as int)) == fixed_int_part(
            scaled as int,
            places as nat,
            width as nat,
        ),
        forall|k: int| width <= k < old(buf)@.len() ==> final(buf)@[k] == old(buf)@[k],
{
    let (q, r) = split_scaled(scaled, places);
    let neg: bool = scaled < 0;
    proof {
        lemma_pow10_positive(places as nat);
        if abs_of(scaled as int) < pow10(places as nat) {
            vstd::arithmetic::div_mod::lemma_fundamental_div_mod_converse(
                abs_of(scaled as int) as int,
                pow10(places as nat) as int,
                0,
                abs_of(scaled as int) as int,
            );
        }
    }
    if neg && q == 0 {
        proof {
            let x = abs_of(scaled as int) as int;
            let m = pow10(places as nat) as int;
            vstd::arithmetic::div_mod::lemma_fundamental_div_mod(x, m);
            vstd::arithmetic::div_mod::lemma_mod_pos_bound(x, m);
            assert(x == m * 0 + x % m);
        }
        assert(abs_of(scaled as int) < pow10(places as nat));
        if width >= 2 {
            fill_range(buf, 0, width - 2, 32u8);
            buf[width - 2] = 45u8;
            buf[width - 1] = 48u8;
            assert(buf@.subrange(0, width as int) =~= repeat(32u8, (width - 2) as nat) + seq![
                45u8,
                48u8,
            ]);
            true
        } else {
            false
        }
    } else {
        assert(!(scaled < 0 && abs_of(scaled as int) < pow10(places as nat)));
        let v: i64 = if neg {
            0i64 - q as i64
        } else {
            q as i64
        };
        assert(v as int == trunc_div(scaled as int, pow10(places as nat)));
        format_int_range(buf, 0, width, v, ' ')
    }
}

/// The number of places `format_fixed_into` shows for `digits_after_decimal`
/// wanted places in a buffer of `len` bytes; a value must be scaled by ten to
/// this power before it is handed over. Zero for buffers shorter than three
/// bytes, which hold no fixed-point text.
pub fn shown_places_for(len: usize, digits_after_decimal: u32) -> (r: usize)
    ensures
        len >= 3 ==> r == shown_places(digits_after_decimal as nat, len as nat),
        len < 3 ==> r == 0,
{
    if len < 3 {
        0
    } else if (digits_after_decimal as usize) < len - 2 {
        digits_after_decimal as usize
    } else {
        len - 2
    }
}

/// Writes the fixed-point value `scaled / 10^p` into all of `buf`,
/// right-aligned with spaces, as `fixed_text` describes; `p` is
/// `shown_places_for(buf.len(), digits_after_decimal)`. This is the integer
/// half of rendering a float: the caller scales the float by `10^p` and
/// rounds it half away from zero first. When the text does not fit, or
/// `buf` is shorter than three bytes, `buf` is filled with `'*'` and the
/// result is `false`.
pub fn format_fixed_into(buf: &mut [u8], scaled: i32, digits_after_decimal: u32) -> (ok: bool)
    ensures
        ok == fixed_text(scaled as int, digits_after_decimal as nat, old(buf)@.len()) is Some,
        ok ==> Some(final(buf)@) == fixed_text(
            scaled as int,
            digits_after_decimal as nat,
            old(buf)@.len(),
        ),
        !ok ==> final(buf)@ == repeat(OVERFLOW_FILL, old(buf)@.len()),
{
    let len = buf.len();
    if len < 3 {
        fill_buf(buf, OVERFLOW_FILL);
        return false;
    }
    let p = shown_places_for(len, digits_after_decimal);
    if p == 0 {
        let ok = format_int_into(buf, scaled, ' ');
        return ok;
    }
    let (_, r) = split_scaled(scaled, p);
    let before: usize = len - p - 1;
    let mut ok = fixed_int_range(buf, before, scaled, p);
    let ghost int_done = buf@;
    if ok {
        buf[before] = 46u8;
        ok = format_int_range(buf, before + 1, len, r as i64, '0');
        if ok {
            proof {
                assert(buf@.subrange(0, before as int) =~= int_done.subrange(0, before as int));
                assert(buf@ =~= buf@.subrange(0, before as int) + seq![46u8] + buf@.subrange(
                    before + 1,
                    len as int,
                ));
            }
        }
    }
    if !ok {
        fill_buf(buf, OVERFLOW_FILL);
    }
    ok
}

proof fn lemma_pow10_positive(k: nat)
    ensures
        pow10(k) >= 1,
    decreases k,
{
    if k > 0 {
        lemma_pow10_positive((k - 1) as nat);
    }
}

proof fn lemma_pow10_mono(a: nat, b: nat)
    requires
        a <= b,
    ensures
        pow10(a) <= pow10(b),
    decreases b,
{
    if a < b {
        lemma_pow10_mono(a, (b - 1) as nat);
    }
}

/// Writes the hexadecimal digits of `num` into `buf[start..end]`, keeping
/// the last `end - start` of them.
fn hex_range(buf: &mut [u8], start: usize, end: usize, num: u32)
    requires
        start <= end <= old(buf)@.len(),
    ensures
        final(buf)@.len() == old(buf)@.len(),
        final(buf)@.subrange(start as int, end as int) == hex_digits(
            num as nat,
            (end - start) as nat,
        ),
        forall|k: int|
            0 <= k < old(buf)@.len() && !(start <= k < end) ==> final(buf)@[k] == old(buf)@[k],
{
    let mut i: usize = end;
    let mut x: u32 = num;
    while i > start
        invariant
            start <= i <= end,
            end <= buf@.len(),
            buf@.len() == old(buf)@.len(),
            hex_digits(x as nat, (i - start) as nat) + buf@.subrange(i as int, end as int)
                == hex_digits(num as nat, (end - start) as nat),
            forall|k: int|
                0 <= k < old(buf)@.len() && !(i <= k < end) ==> buf@[k] == old(buf)@[k],
        decreases i,
    {
        let d = x % 16;
        let ghost before = buf@;
        let ch: u8 = if d < 10 {
            48 + d as u8
        } else {
            87 + d as u8
        };
        i = i - 1;
        buf[i] = ch;
        proof {
            assert(buf@.subrange(i as int, end as int) =~= seq![ch] + before.subrange(
                i + 1,
                end as int,
            ));
            assert(hex_digits(x as nat, (i + 1 - start) as nat) == hex_digits(
                (x / 16) as nat,
                (i - start) as nat,
            ).push(ch));
            assert(hex_digits((x / 16) as nat, (i - start) as nat) + buf@.subrange(
                i as int,
                end as int,
            ) =~= hex_digits(x as nat, (i + 1 - start) as nat) + before.subrange(
                i + 1,
                end as int,
            ));
        }
        x = x / 16;
    }
    assert(buf@.subrange(start as int, end as int) =~= hex_digits(x as nat, 0) + buf@.subrange(
        start as int,
        end as int,
    ));
}

/// Writes the lower-case hexadecimal digits of `num` into all of `buf`,
/// right-aligned with leading zeros; digits that do not fit are dropped from
/// the left. Fails only on an empty buffer.
pub fn format_hex_into(buf: &mut [u8], num: u32) -> (ok: bool)
    ensures
        ok == (old(buf)@.len() >= 1),
        final(buf)@ == hex_digits(num as nat, old(buf)@.len()),
{
    let len = buf.len();
    if len < 1 {
        assert(buf@ =~= hex_digits(num as nat, 0));
        return false;
    }
    hex_range(buf, 0, len, num);
    assert(buf@ =~= buf@.subrange(0, len as int));
    true
}

/// Writes `mac_addr` as `xx:xx:xx:xx:xx:xx` into `buf`.
pub fn format_mac_addr_into(buf: &mut [u8; FMT_MAC_ADDR_LEN], mac_addr: [u8; 6]) -> (ok: bool)
    ensures
        ok,
        final(buf)@ == mac_text(mac_addr@),
{
    let mut i: usize = 0;
    while i < 6
        invariant
            0 <= i <= 6,
            buf@.len() == 17,
            forall|j: int|
                0 <= j < i ==> #[trigger] buf@.subrange(3 * j, 3 * j + 2) == hex_digits(
                    mac_addr@[j] as nat,
                    2,
                ),
            forall|j: int| 0 <= j < i && j < 5 ==> #[trigger] buf@[3 * j + 2] == 58u8,
        decreases 6 - i,
    {
        let ghost before = buf@;
        hex_range(buf, 3 * i, 3 * i + 2, mac_addr[i] as u32);
        if i < 5 {
            buf[3 * i + 2] = 58u8;
        }
        proof {
            assert forall|j: int| 0 <= j < i implies buf@.subrange(3 * j, 3 * j + 2)
                == hex_digits(mac_addr@[j] as nat, 2) by {
                assert(buf@.subrange(3 * j, 3 * j + 2) =~= before.subrange(3 * j, 3 * j + 2));
            }
        }
        i = i + 1;
    }
    proof {
        let s = buf@;
        assert(s =~= s.subrange(0, 2) + seq![s[2]] + s.subrange(3, 5) + seq![s[5]] + s.subrange(
            6,
            8,
        ) + seq![s[8]] + s.subrange(9, 11) + seq![s[11]] + s.subrange(12, 14) + seq![s[14]]
            + s.subrange(15, 17));
        let j0: int = 0;
        assert(s.subrange(3 * j0, 3 * j0 + 2) == hex_digits(mac_addr@[j0] as nat, 2));
        let j1: int = 1;
        assert(s.subrange(3 * j1, 3 * j1 + 2) == hex_digits(mac_addr@[j1] as nat, 2));
        let j2: int = 2;
        assert(s.subrange(3 * j2, 3 * j2 + 2) == hex_digits(mac_addr@[j2] as nat, 2));
        let j3: int = 3;
        assert(s.subrange(3 * j3, 3 * j3 + 2) == hex_digits(mac_addr@[j3] as nat, 2));
        let j4: int = 4;
        assert(s.subrange(3 * j4, 3 * j4 + 2) == hex_digits(mac_addr@[j4] as nat, 2));
        let j5: int = 5;
        assert(s.subrange(3 * j5, 3 * j5 + 2) == hex_digits(mac_addr@[j5] as nat, 2));
        assert(s =~= mac_text(mac_addr@));
    }
    true
}

} // verus!
