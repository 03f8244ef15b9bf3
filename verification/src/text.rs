//! Parameter names and display strings for the fader's four controls.
//!
//! The hosting shell quantizes the raw control values (volume, pan, pan
//! taper, pan law) to integers; everything the user reads is then decided
//! here, exactly.

use vstd::prelude::*;

verus! {

/// Relies on String::push: appends the given character to the end of the
/// string.
pub assume_specification[ String::push ](s: &mut String, ch: char)
    ensures
        final(s)@ == old(s)@.push(ch),
;

/// Relies on String::push_str: appends the given string slice to the end of
/// the string.
pub assume_specification[ String::push_str ](s: &mut String, other: &str)
    ensures
        final(s)@ == old(s)@ + other@,
;

/// The character for one decimal digit.
pub open spec fn spec_digit(d: int) -> char
    recommends
        0 <= d < 10,
{
    if d == 0 {
        '0'
    } else if d == 1 {
        '1'
    } else if d == 2 {
        '2'
    } else if d == 3 {
        '3'
    } else if d == 4 {
        '4'
    } else if d == 5 {
        '5'
    } else if d == 6 {
        '6'
    } else if d == 7 {
        '7'
    } else if d == 8 {
        '8'
    } else {
        '9'
    }
}

/// The decimal digit string of a non-negative number, most significant digit
/// first, without leading zeros (a single zero for the number zero).
pub open spec fn spec_decimal(n: int) -> Seq<char>
    recommends
        n >= 0,
    decreases n,
{
    if n < 10 {
        seq![spec_digit(n)]
    } else {
        spec_decimal(n / 10).push(spec_digit(n % 10))
    }
}

/// Reversing after a push puts the pushed element in front.
proof fn lemma_reverse_push(s: Seq<char>, c: char)
    ensures
        s.push(c).reverse() =~= seq![c] + s.reverse(),
{
}

fn digit_char(d: u32) -> (c: char)
    requires
        d < 10,
    ensures
        c == spec_digit(d as int),
{
    if d == 0 {
        '0'
    } else if d == 1 {
        '1'
    } else if d == 2 {
        '2'
    } else if d == 3 {
        '3'
    } else if d == 4 {
        '4'
    } else if d == 5 {
        '5'
    } else if d == 6 {
        '6'
    } else if d == 7 {
        '7'
    } else if d == 8 {
        '8'
    } else {
        '9'
    }
}

/// Formats a number in decimal, most significant digit first.
pub fn decimal_string(n: u32) -> (s: String)
    ensures
        s@ == spec_decimal(n as int),
{
    let mut digits: Vec<char> = Vec::new();
    digits.push(digit_char(n % 10));
    let mut m: u32 = n / 10;
    proof {
        lemma_reverse_push(Seq::<char>::empty(), spec_digit((n % 10) as int));
        assert(digits@.reverse() =~= seq![spec_digit((n % 10) as int)]);
        if m > 0 {
            assert(spec_decimal(n as int) == spec_decimal(m as int) + digits@.reverse());
        } else {
            assert(spec_decimal(n as int) =~= digits@.reverse());
        }
    }
    while m > 0
        invariant
            m > 0 ==> spec_decimal(n as int) == spec_decimal(m as int) + digits@.reverse(),
            m == 0 ==> spec_decimal(n as int) == digits@.reverse(),
        decreases m,
    {
        let ghost digits0 = digits@;
        let ghost m0 = m as int;
        let d: u32 = m % 10;
        digits.push(digit_char(d));
        m = m / 10;
        proof {
            lemma_reverse_push(digits0, spec_digit(d as int));
            if m > 0 {
                assert(spec_decimal(m0) == spec_decimal(m as int).push(spec_digit(d as int)));
                assert(spec_decimal(m as int) + digits@.reverse() =~= (spec_decimal(
                    m as int,
                ).push(spec_digit(d as int))) + digits0.reverse());
            } else {
                assert(spec_decimal(m0) =~= seq![spec_digit(d as int)]);
                assert(digits@.reverse() =~= spec_decimal(m0) + digits0.reverse());
            }
        }
    }
    let mut s = String::new();
    let mut i: usize = digits.len();
    while i > 0
        invariant
            i <= digits@.len(),
            spec_decimal(n as int) == digits@.reverse(),
            s@ == digits@.reverse().take(digits@.len() - i as int),
        decreases i,
    {
        i = i - 1;
        let c = digits[i];
        s.push(c);
        proof {
            let rev = digits@.reverse();
            assert(c == rev[digits@.len() - 1 - i as int]);
            assert(rev.take(digits@.len() - i as int) =~= rev.take(
                digits@.len() - (i + 1) as int,
            ).push(rev[digits@.len() - 1 - i as int]));
        }
    }
    proof {
        assert(s@ =~= digits@.reverse());
    }
    s
}

/// The display text for the pan position, as a whole-percent offset from
/// centre: the magnitude followed by " L" left of centre, " R" right of
/// centre, and "0 C" at centre.
pub open spec fn spec_pan_text(n: int) -> Seq<char> {
    if n < 0 {
        spec_decimal(-n) + " L"@
    } else if n > 0 {
        spec_decimal(n) + " R"@
    } else {
        spec_decimal(0) + " C"@
    }
}

/// Formats the pan offset `n` (in percent from centre, negative meaning
/// left) for display.
pub fn pan_text(n: i32) -> (s: String)
    requires
        -100 <= n <= 100,
    ensures
        s@ == spec_pan_text(n as int),
{
    let magnitude: u32 = if n < 0 {
        (-n) as u32
    } else {
        n as u32
    };
    let mut s = decimal_string(magnitude);
    if n < 0 {
        s.push_str(" L");
    } else if n > 0 {
        s.push_str(" R");
    } else {
        s.push_str(" C");
    }
    s
}

/// The name shown for a parameter slot: volume, pan, pan taper, pan law.
pub fn parameter_name(index: i32) -> (name: String)
    requires
        0 <= index <= 3,
    ensures
        index == 0 ==> name@ == "Volume"@,
        index == 1 ==> name@ == "Pan"@,
        index == 2 ==> name@ == "Pan Taper"@,
        index == 3 ==> name@ == "Pan Law"@,
{
    if index == 0 {
        "Volume".to_owned()
    } else if index == 1 {
        "Pan".to_owned()
    } else if index == 2 {
        "Pan Taper".to_owned()
    } else {
        "Pan Law".to_owned()
    }
}

/// The display text for the pan taper choice: slot 0 is the sinusoidal
/// taper, every other slot the root taper.
pub fn taper_text(index: i32) -> (s: String)
    ensures
        index == 0 ==> s@ == "Sine"@,
        index != 0 ==> s@ == "Root"@,
{
    if index == 0 {
        "Sine".to_owned()
    } else {
        "Root".to_owned()
    }
}

/// The display text for the pan law choice: 3 dB, 4.5 dB or 6 dB of
/// centre attenuation.
pub fn law_text(index: i32) -> (s: String)
    ensures
        index == 0 ==> s@ == "3 dB"@,
        index == 1 ==> s@ == "4.5 dB"@,
        !(index == 0 || index == 1) ==> s@ == "6 dB"@,
{
    if index == 0 {
        "3 dB".to_owned()
    } else if index == 1 {
        "4.5 dB".to_owned()
    } else {
        "6 dB".to_owned()
    }
}

} // verus!
