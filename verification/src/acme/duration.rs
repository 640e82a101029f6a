//! Durations written as a number and a unit, such as `30d` or `45m`.

use crate::acme::error::{AcmeError, AcmeErrorView};
use crate::text::{
    chars_of, is_white_space, law_white_space_at_the_ends_goes, parse_number, parsed_number, text_of,
    trim, trimmed,
};
use vstd::prelude::*;

verus! {

/// The seconds of a unit: day, hour, minute or second.
pub open spec fn unit_seconds(unit: char) -> Option<nat> {
    if unit == 'd' {
        Some(86400)
    } else if unit == 'h' {
        Some(3600)
    } else if unit == 'm' {
        Some(60)
    } else if unit == 's' {
        Some(1)
    } else {
        None
    }
}

/// The seconds that a duration stands for, or what is wrong with it.
pub open spec fn duration_seconds(s: Seq<char>) -> Result<nat, AcmeErrorView> {
    let t = trimmed(s);
    if t.len() == 0 {
        Err(AcmeErrorView::Config("empty duration string"@))
    } else {
        match unit_seconds(t.last()) {
            None => Err(
                AcmeErrorView::Config(
                    "invalid duration '"@ + t + "': must end with d, h, m, or s"@,
                ),
            ),
            Some(unit) => match parsed_number(t.drop_last(), u64::MAX as nat) {
                None => Err(
                    AcmeErrorView::Config("invalid duration '"@ + t + "': not a valid number"@),
                ),
                Some(n) => Ok(n * unit),
            },
        }
    }
}

/// Whether a duration, where it stands for one, has no more seconds than a `u64` holds.
pub open spec fn duration_fits(s: Seq<char>) -> bool {
    duration_seconds(s) matches Ok(n) ==> n <= u64::MAX
}

/// A duration as it is written, taken apart.
enum Written {
    Empty,
    NoUnit,
    NoNumber,
    Amount(u64, u64),
}

fn read_duration(s: &String) -> (r: Written)
    ensures
        match r {
            Written::Empty => s@.len() == 0,
            Written::NoUnit => s@.len() > 0 && unit_seconds(s@.last()) is None,
            Written::NoNumber => s@.len() > 0 && unit_seconds(s@.last()) is Some && parsed_number(
                s@.drop_last(),
                u64::MAX as nat,
            ) is None,
            Written::Amount(n, unit) => s@.len() > 0 && unit_seconds(s@.last()) == Some(unit as nat)
                && parsed_number(s@.drop_last(), u64::MAX as nat) == Some(n as nat),
        },
{
    let v = chars_of(s.as_str());
    if v.len() == 0 {
        return Written::Empty;
    }
    let last = v[v.len() - 1];
    let unit: u64 = if last == 'd' {
        86400
    } else if last == 'h' {
        3600
    } else if last == 'm' {
        60
    } else if last == 's' {
        1
    } else {
        return Written::NoUnit;
    };
    let digits = text_of(&v, 0, v.len() - 1);
    assert(digits@ =~= s@.drop_last());
    match parse_number(digits.as_str(), u64::MAX) {
        Some(n) => Written::Amount(n, unit),
        None => Written::NoNumber,
    }
}

/// Whether a duration, where it stands for one, has no more seconds than a `u64` holds.
pub fn is_representable(s: &str) -> (r: bool)
    ensures
        r == duration_fits(s@),
{
    match read_duration(&trim(s)) {
        Written::Amount(n, unit) => n.checked_mul(unit).is_some(),
        _ => true,
    }
}

/// Parses a duration string like "30d", "720h", "48h", "45m" into seconds.
pub fn parse_duration(s: &str) -> (r: Result<u64, AcmeError>)
    requires
        duration_fits(s@),
    ensures
        match r {
            Ok(n) => duration_seconds(s@) == Ok::<nat, AcmeErrorView>(n as nat),
            Err(e) => duration_seconds(s@) == Err::<nat, AcmeErrorView>(e@),
        },
{
    let t = trim(s);
    match read_duration(&t) {
        Written::Empty => Err(AcmeError::Config("empty duration string".to_owned())),
        Written::NoUnit => {
            let mut m = "invalid duration '".to_owned();
            m.push_str(t.as_str());
            m.push_str("': must end with d, h, m, or s");
            Err(AcmeError::Config(m))
        },
        Written::NoNumber => {
            let mut m = "invalid duration '".to_owned();
            m.push_str(t.as_str());
            m.push_str("': not a valid number");
            Err(AcmeError::Config(m))
        },
        Written::Amount(n, unit) => {
            assert(duration_seconds(s@) == Ok::<nat, AcmeErrorView>(n as nat * unit as nat));
            Ok(n * unit)
        },
    }
}

proof fn lemma_scaled(n: nat, unit: nat, value: nat)
    requires
        unit == value,
    ensures
        n * unit == n * value,
{
}

/// A number of days is so many times 24 hours, an hour 60 minutes, a minute 60 seconds, and
/// a number of seconds is that number; without a number or a unit there is no duration.
pub proof fn law_units_follow_one_another(digits: Seq<char>)
    requires
        digits.len() > 0,
        !is_white_space(digits[0]),
    ensures
        match parsed_number(digits, u64::MAX as nat) {
            Some(n) => {
                &&& duration_seconds(digits.push('s')) == Ok::<nat, AcmeErrorView>(n)
                &&& duration_seconds(digits.push('m')) == Ok::<nat, AcmeErrorView>(n * 60)
                &&& duration_seconds(digits.push('h')) == Ok::<nat, AcmeErrorView>(n * 60 * 60)
                &&& duration_seconds(digits.push('d')) == Ok::<nat, AcmeErrorView>(
                    n * 60 * 60 * 24,
                )
            },
            None => duration_seconds(digits.push('s')) is Err && duration_seconds(digits.push('m'))
                is Err && duration_seconds(digits.push('h')) is Err && duration_seconds(
                digits.push('d'),
            ) is Err,
        },
{
    law_white_space_at_the_ends_goes(digits.push('s'), ' ');
    law_white_space_at_the_ends_goes(digits.push('m'), ' ');
    law_white_space_at_the_ends_goes(digits.push('h'), ' ');
    law_white_space_at_the_ends_goes(digits.push('d'), ' ');
    assert(digits.push('s').drop_last() =~= digits);
    assert(digits.push('m').drop_last() =~= digits);
    assert(digits.push('h').drop_last() =~= digits);
    assert(digits.push('d').drop_last() =~= digits);
    if let Some(n) = parsed_number(digits, u64::MAX as nat) {
        lemma_scaled(n, unit_seconds('s')->0, 1);
        lemma_scaled(n, unit_seconds('m')->0, 60);
        lemma_scaled(n, unit_seconds('h')->0, 3600);
        lemma_scaled(n, unit_seconds('d')->0, 86400);
    }
}

/// A text that ends with none of the units is no duration, and neither is a blank one; white
/// space around a duration does not count.
pub proof fn law_durations_have_a_unit(s: Seq<char>)
    ensures
        trimmed(s).len() == 0 || !(trimmed(s).last() == 'd' || trimmed(s).last() == 'h' || trimmed(
            s,
        ).last() == 'm' || trimmed(s).last() == 's') ==> duration_seconds(s) is Err,
        duration_seconds(s.push(' ')) == duration_seconds(s),
        duration_seconds(seq![' '] + s) == duration_seconds(s),
{
    law_white_space_at_the_ends_goes(s, ' ');
}

} // verus!
