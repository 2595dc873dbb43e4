//! Decimal rendering of numbers, and the human-readable texts built from it.

use vstd::prelude::*;

verus! {

/// The character of a decimal digit.
pub open spec fn digit_char(d: nat) -> char {
    if d == 0 { '0' }
    else if d == 1 { '1' }
    else if d == 2 { '2' }
    else if d == 3 { '3' }
    else if d == 4 { '4' }
    else if d == 5 { '5' }
    else if d == 6 { '6' }
    else if d == 7 { '7' }
    else if d == 8 { '8' }
    else { '9' }
}

/// The decimal digits of `n`, most significant first, without leading zeros.
pub open spec fn decimal(n: nat) -> Seq<char>
    decreases n,
{
    if n < 10 {
        seq![digit_char(n)]
    } else {
        decimal(n / 10).push(digit_char(n % 10))
    }
}

/// `n` in decimal, padded with a zero to at least two digits.
pub open spec fn two_digits(n: nat) -> Seq<char> {
    if n < 10 {
        seq!['0', digit_char(n)]
    } else {
        decimal(n)
    }
}

fn digit_str(d: u128) -> (r: &'static str)
    requires
        d < 10,
    ensures
        r@ == seq![digit_char(d as nat)],
{
    proof {
        reveal_strlit("0");
        reveal_strlit("1");
        reveal_strlit("2");
        reveal_strlit("3");
        reveal_strlit("4");
        reveal_strlit("5");
        reveal_strlit("6");
        reveal_strlit("7");
        reveal_strlit("8");
        reveal_strlit("9");
    }
    if d == 0 { "0" }
    else if d == 1 { "1" }
    else if d == 2 { "2" }
    else if d == 3 { "3" }
    else if d == 4 { "4" }
    else if d == 5 { "5" }
    else if d == 6 { "6" }
    else if d == 7 { "7" }
    else if d == 8 { "8" }
    else { "9" }
}

/// Appends the decimal digits of `n` to `s`.
pub fn push_decimal(s: &mut String, n: u128)
    ensures
        final(s)@ == old(s)@ + decimal(n as nat),
    decreases n,
{
    if n < 10 {
        s.append(digit_str(n));
    } else {
        push_decimal(s, n / 10);
        s.append(digit_str(n % 10));
        assert(final(s)@ =~= old(s)@ + decimal(n as nat));
    }
}

/// Appends `n` to `s`, padded with a zero to at least two digits.
pub fn push_two_digits(s: &mut String, n: u128)
    ensures
        final(s)@ == old(s)@ + two_digits(n as nat),
{
    if n < 10 {
        s.append(digit_str(0));
        s.append(digit_str(n));
        assert(final(s)@ =~= old(s)@ + two_digits(n as nat));
    } else {
        push_decimal(s, n);
    }
}


/// `1024` to the power `k`.
pub open spec fn pow1024(k: nat) -> nat
    decreases k,
{
    if k == 0 { 1 } else { 1024 * pow1024((k - 1) as nat) }
}

/// The unit in which a byte count is shown: the largest of Bytes (0), KB (1),
/// MB (2), GB (3) and TB (4) of which the count holds at least one.
pub open spec fn size_tier(bytes: nat) -> nat {
    if bytes >= pow1024(4) { 4 }
    else if bytes >= pow1024(3) { 3 }
    else if bytes >= pow1024(2) { 2 }
    else if bytes >= pow1024(1) { 1 }
    else { 0 }
}

/// `num / den` rounded to the nearest integer, a tie going to the even one.
pub open spec fn round_half_even(num: nat, den: nat) -> nat
    recommends
        den > 0,
{
    let q = num / den;
    let r = num % den;
    if 2 * r > den || (2 * r == den && q % 2 == 1) { q + 1 } else { q }
}

/// The name of a unit, with the space before it.
pub open spec fn unit_suffix(tier: nat) -> Seq<char> {
    if tier == 0 { seq![' ', 'B', 'y', 't', 'e', 's'] }
    else if tier == 1 { seq![' ', 'K', 'B'] }
    else if tier == 2 { seq![' ', 'M', 'B'] }
    else if tier == 3 { seq![' ', 'G', 'B'] }
    else { seq![' ', 'T', 'B'] }
}

/// A byte count as text: whole bytes below 1 KB, else the count in the
/// largest unit of which it holds at least one (base 1024), in hundredths.
pub open spec fn size_text(bytes: nat) -> Seq<char> {
    let tier = size_tier(bytes);
    if tier == 0 {
        decimal(bytes) + unit_suffix(0)
    } else {
        let h = round_half_even(bytes * 100, pow1024(tier));
        decimal(h / 100) + seq!['.'] + two_digits(h % 100) + unit_suffix(tier)
    }
}

fn unit_str(tier: u128) -> (r: &'static str)
    requires
        tier <= 4,
    ensures
        r@ == unit_suffix(tier as nat),
{
    proof {
        reveal_strlit(" Bytes");
        reveal_strlit(" KB");
        reveal_strlit(" MB");
        reveal_strlit(" GB");
        reveal_strlit(" TB");
    }
    if tier == 0 { " Bytes" }
    else if tier == 1 { " KB" }
    else if tier == 2 { " MB" }
    else if tier == 3 { " GB" }
    else { " TB" }
}

/// Renders a byte count in the largest unit it reaches, base 1024, with two
/// decimals rounded to nearest (ties to even), or as whole bytes below 1 KB.
pub fn format_size(bytes: u64) -> (r: String)
    ensures
        r@ == size_text(bytes as nat),
{
    let b = bytes as u128;
    let mut tier: u128 = 0;
    let mut unit: u128 = 1;
    proof {
        reveal_with_fuel(pow1024, 5);
    }
    if b >= 1099511627776 {
        tier = 4;
        unit = 1099511627776;
    } else if b >= 1073741824 {
        tier = 3;
        unit = 1073741824;
    } else if b >= 1048576 {
        tier = 2;
        unit = 1048576;
    } else if b >= 1024 {
        tier = 1;
        unit = 1024;
    }
    assert(tier == size_tier(bytes as nat));
    let mut s = String::new();
    if tier == 0 {
        push_decimal(&mut s, b);
    } else {
        assert(unit == pow1024(tier as nat));
        let num = b * 100;
        let q = num / unit;
        let rem = num % unit;
        let h = if 2 * rem > unit || (2 * rem == unit && q % 2 == 1) { q + 1 } else { q };
        assert(h == round_half_even(bytes as nat * 100, pow1024(tier as nat)));
        push_decimal(&mut s, h / 100);
        s.append(".");
        push_two_digits(&mut s, h % 100);
    }
    s.append(unit_str(tier));
    proof {
        reveal_strlit(".");
    }
    assert(s@ =~= size_text(bytes as nat));
    s
}


/// The `mm:ss` text of a stream of `frames` frames at `rate` frames per
/// second: whole minutes, rounded down, then the seconds left over, rounded to
/// nearest (halves up). Minutes and seconds are taken apart before rounding, so
/// a stream just short of a whole minute reads `mm:60`.
pub open spec fn duration_text(frames: nat, rate: nat) -> Seq<char>
    recommends
        rate > 0,
{
    let minutes = frames / (60 * rate);
    let rest = frames % (60 * rate);
    let seconds = (2 * rest + rate) / (2 * rate);
    two_digits(minutes) + seq![':'] + two_digits(seconds)
}

/// The duration text of a probed stream: its frame count and sample rate when
/// both are known (and the rate is not zero), else a zero duration.
pub open spec fn probed_duration_text(frames: Option<u64>, rate: Option<u32>) -> Seq<char> {
    if frames is Some && rate is Some && rate->0 > 0 {
        duration_text(frames->0 as nat, rate->0 as nat)
    } else {
        seq!['0', '0', ':', '0', '0']
    }
}

/// Renders the duration of an audio stream as zero-padded `mm:ss`.
pub fn format_duration(frames: Option<u64>, sample_rate: Option<u32>) -> (r: String)
    ensures
        r@ == probed_duration_text(frames, sample_rate),
{
    let mut s = String::new();
    let (f, rate): (u128, u128) = match (frames, sample_rate) {
        (Some(f), Some(rate)) if rate > 0 => (f as u128, rate as u128),
        _ => (0, 1),
    };
    let minute = 60 * rate;
    let minutes = f / minute;
    let rest = f % minute;
    assert(rest < minute);
    let seconds = (2 * rest + rate) / (2 * rate);
    push_two_digits(&mut s, minutes);
    s.append(":");
    push_two_digits(&mut s, seconds);
    proof {
        reveal_strlit(":");
        if !(frames is Some && sample_rate is Some && sample_rate->0 > 0) {
            assert(0u128 / 60 == 0 && 0u128 % 60 == 0 && 1u128 / 2 == 0);
            reveal_with_fuel(decimal, 2);
        }
    }
    assert(s@ =~= probed_duration_text(frames, sample_rate));
    s
}

/// The file name of a cover image made at `millis` (milliseconds since the
/// epoch): `cover_<millis>.webp`.
pub open spec fn cover_name(millis: nat) -> Seq<char> {
    seq!['c', 'o', 'v', 'e', 'r', '_'] + decimal(millis) + seq!['.', 'w', 'e', 'b', 'p']
}

/// Names the cover image file made at `millis` milliseconds since the epoch.
pub fn cover_file_name(millis: u64) -> (r: String)
    ensures
        r@ == cover_name(millis as nat),
{
    let mut s = String::new();
    s.append("cover_");
    push_decimal(&mut s, millis as u128);
    s.append(".webp");
    proof {
        reveal_strlit("cover_");
        reveal_strlit(".webp");
    }
    assert(s@ =~= cover_name(millis as nat));
    s
}

/// Renders a playlist id from its creation time in milliseconds since the epoch.
pub fn playlist_id(millis: u64) -> (r: String)
    ensures
        r@ == decimal(millis as nat),
{
    let mut s = String::new();
    push_decimal(&mut s, millis as u128);
    assert(s@ =~= decimal(millis as nat));
    s
}

} // verus!
