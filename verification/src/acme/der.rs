//! The end of a certificate's validity, read from its DER encoding.

use crate::acme::calendar::{
    civil_days, days_from_civil, is_date, law_days_are_counted_from_the_epoch,
    law_epoch_parts_the_years, law_next_date_is_next_day, next_date, UNIX_EPOCH_DAYS,
};
use crate::text::{all_digits, digits_value, parsed_number, read_utf8};
use vstd::prelude::*;
use vstd::utf8::*;

verus! {

// ---- lengths ----

/// The number whose big-endian bytes are `b`.
pub open spec fn big_endian(b: Seq<u8>) -> nat
    decreases b.len(),
{
    if b.len() == 0 {
        0
    } else {
        big_endian(b.drop_last()) * 256 + b.last() as nat
    }
}

/// The length field that stands at `pos`: its value and the place behind it.
///
/// A byte below 128 is the length itself; another one says in its lower bits how
/// many bytes follow, no more than four, which hold the length.
pub open spec fn asn1_length(der: Seq<u8>, pos: int) -> Option<(nat, int)> {
    if !(0 <= pos < der.len()) {
        None
    } else if der[pos] < 0x80 {
        Some((der[pos] as nat, pos + 1))
    } else {
        let n = der[pos] - 0x80;
        if n > 4 || pos + 1 + n > der.len() {
            None
        } else {
            Some((big_endian(der.subrange(pos + 1, pos + 1 + n)), pos + 1 + n))
        }
    }
}

proof fn lemma_big_endian_bound(b: Seq<u8>)
    requires
        b.len() <= 4,
    ensures
        b.len() <= 0 ==> big_endian(b) < 1,
        b.len() <= 1 ==> big_endian(b) < 0x100,
        b.len() <= 2 ==> big_endian(b) < 0x1_0000,
        b.len() <= 3 ==> big_endian(b) < 0x100_0000,
        big_endian(b) < 0x1_0000_0000,
    decreases b.len(),
{
    if b.len() > 0 {
        lemma_big_endian_bound(b.drop_last());
    }
}

/// Reads the length field at `pos`.
fn parse_asn1_length(der: &[u8], pos: usize) -> (r: Option<(usize, usize)>)
    ensures
        match r {
            Some((len, next)) => asn1_length(der@, pos as int) == Some((len as nat, next as int))
                && len <= u32::MAX && pos < next <= der@.len(),
            None => asn1_length(der@, pos as int) is None,
        },
{
    if pos >= der.len() {
        return None;
    }
    let first: u8 = der[pos];
    let start: usize = pos + 1;
    if first < 0x80 {
        return Some((first as usize, start));
    }
    assert(first & 0x7f == first - 0x80) by (bit_vector)
        requires
            first >= 0x80,
    ;
    let n: usize = (first & 0x7f) as usize;
    if n > 4 || n > der.len() - start {
        return None;
    }
    let mut len: usize = 0;
    let mut i: usize = 0;
    assert(der@.subrange(start as int, start as int) =~= seq![]);
    while i < n
        invariant
            i <= n <= 4,
            start + n <= der.len(),
            len == big_endian(der@.subrange(start as int, start + i)),
        decreases n - i,
    {
        proof {
            let b = der@.subrange(start as int, start + i + 1);
            assert(b.drop_last() =~= der@.subrange(start as int, start + i));
            lemma_big_endian_bound(b.drop_last());
            lemma_big_endian_bound(b);
        }
        len = len * 256 + der[start + i] as usize;
        i += 1;
    }
    proof {
        lemma_big_endian_bound(der@.subrange(start as int, start + n));
    }
    Some((len, start + n))
}

// ---- elements ----

/// The place behind the tag and the length of an element with the tag `tag`.
pub open spec fn content_start(der: Seq<u8>, pos: int, tag: u8) -> Option<int> {
    if 0 <= pos < der.len() && der[pos] == tag {
        match asn1_length(der, pos + 1) {
            Some((_, next)) => Some(next),
            None => None,
        }
    } else {
        None
    }
}

/// The place behind the element at `pos`, as its length gives it.
pub open spec fn element_end(der: Seq<u8>, pos: int) -> Option<int> {
    match asn1_length(der, pos + 1) {
        Some((len, next)) => Some(next + len),
        None => None,
    }
}

fn skip_tag_and_length(der: &[u8], pos: usize, expected_tag: u8) -> (r: Option<usize>)
    ensures
        match r {
            Some(p) => content_start(der@, pos as int, expected_tag) == Some(p as int),
            None => content_start(der@, pos as int, expected_tag) is None,
        },
{
    if pos >= der.len() || der[pos] != expected_tag {
        return None;
    }
    match parse_asn1_length(der, pos + 1) {
        Some((_, next)) => Some(next),
        None => None,
    }
}

/// A place that does not fit the machine's addresses is given as `None`: it lies
/// behind the end of `der`, as nothing else can.
fn skip_tlv(der: &[u8], pos: usize) -> (r: Option<usize>)
    ensures
        match r {
            Some(p) => element_end(der@, pos as int) == Some(p as int),
            None => element_end(der@, pos as int) is None || element_end(der@, pos as int)->0
                > der@.len(),
        },
{
    if pos >= der.len() {
        return None;
    }
    match parse_asn1_length(der, pos + 1) {
        Some((len, next)) => next.checked_add(len),
        None => None,
    }
}

// ---- times ----

/// The characters that bytes stand for one by one.
pub open spec fn byte_chars(b: Seq<u8>) -> Seq<char> {
    Seq::new(b.len(), |i: int| b[i] as char)
}

/// The number in the bytes `from..to`, where there are so many bytes.
pub open spec fn time_field(b: Seq<u8>, from: int, to: int) -> Option<nat> {
    if to <= b.len() {
        parsed_number(byte_chars(b.subrange(from, to)), u32::MAX as nat)
    } else {
        None
    }
}

/// The Unix time, in seconds, of a date and a time of day.
pub open spec fn unix_seconds(
    year: nat,
    month: nat,
    day: nat,
    hour: nat,
    minute: nat,
    second: nat,
) -> int {
    (civil_days(year as int, month as int, day as int) - UNIX_EPOCH_DAYS) * 86400 + hour * 3600
        + minute * 60 + second
}

/// The Unix time that the fields behind the year give, where they stand at `at`.
pub open spec fn time_after_year(b: Seq<u8>, year: nat, at: int) -> Option<nat> {
    match (
        time_field(b, at, at + 2),
        time_field(b, at + 2, at + 4),
        time_field(b, at + 4, at + 6),
        time_field(b, at + 6, at + 8),
        time_field(b, at + 8, at + 10),
    ) {
        (Some(month), Some(day), Some(hour), Some(minute), Some(second)) => {
            let t = unix_seconds(year, month, day, hour, minute, second);
            if t >= 0 {
                Some(t as nat)
            } else {
                None
            }
        },
        _ => None,
    }
}

/// How many bytes the year takes up at the beginning of a time: two in a `UTCTime` (tag
/// 23) and four in a `GeneralizedTime` (tag 24).
pub open spec fn year_len(tag: u8) -> int {
    if tag == 0x17 {
        2
    } else {
        4
    }
}

/// The year of a time. Two digits are a year from 1950 to 2049.
pub open spec fn time_year(tag: u8, b: Seq<u8>) -> Option<nat> {
    if tag == 0x17 {
        match time_field(b, 0, 2) {
            Some(y) => Some(
                if y >= 50 {
                    1900 + y
                } else {
                    2000 + y
                },
            ),
            None => None,
        }
    } else if tag == 0x18 {
        time_field(b, 0, 4)
    } else {
        None
    }
}

/// The Unix time, in seconds, of a `UTCTime` or a `GeneralizedTime`. A time before 1970
/// has none.
pub open spec fn asn1_time(tag: u8, b: Seq<u8>) -> Option<nat> {
    if !valid_utf8(b) {
        None
    } else {
        match time_year(tag, b) {
            Some(year) => time_after_year(b, year, year_len(tag)),
            None => None,
        }
    }
}

proof fn lemma_digits_bound(s: Seq<char>)
    requires
        all_digits(s),
        s.len() <= 4,
    ensures
        s.len() == 0 ==> digits_value(s) == 0,
        s.len() <= 1 ==> digits_value(s) <= 9,
        s.len() <= 2 ==> digits_value(s) <= 99,
        s.len() <= 3 ==> digits_value(s) <= 999,
        digits_value(s) <= 9999,
    decreases s.len(),
{
    if s.len() > 0 {
        assert('0' <= s[s.len() - 1] <= '9');
        assert(all_digits(s.drop_last()));
        lemma_digits_bound(s.drop_last());
    }
}

/// The number that up to four decimal digits stand for.
fn parse_digits(b: &[u8], from: usize, to: usize) -> (r: Option<u32>)
    requires
        from <= to <= from + 4,
        to <= b@.len(),
    ensures
        ({
            let d = byte_chars(b@.subrange(from as int, to as int));
            match r {
                Some(n) => all_digits(d) && digits_value(d) == n && n <= 9999 && (to <= from + 2
                    ==> n <= 99),
                None => !all_digits(d),
            }
        }),
{
    let ghost d = byte_chars(b@.subrange(from as int, to as int));
    let mut n: u32 = 0;
    let mut i: usize = from;
    while i < to
        invariant
            from <= i <= to <= from + 4,
            to <= b@.len(),
            d == byte_chars(b@.subrange(from as int, to as int)),
            n == digits_value(d.take(i - from)),
            all_digits(d.take(i - from)),
        decreases to - i,
    {
        let c: u8 = b[i];
        assert(d[i - from] == c as char);
        if c < 48 || c > 57 {
            return None;
        }
        proof {
            let next = d.take(i + 1 - from);
            let k = i - from;
            assert(next.drop_last() =~= d.take(k));
            assert forall|j: int| 0 <= j < next.len() implies '0' <= #[trigger] next[j] <= '9' by {
                if j < k {
                    assert(next[j] == d.take(k)[j]);
                }
            }
            lemma_digits_bound(d.take(k));
        }
        n = n * 10 + (c - 48) as u32;
        i += 1;
    }
    proof {
        assert(d.take(i - from) =~= d);
        lemma_digits_bound(d);
    }
    Some(n)
}

/// The number in the bytes `from..to`, of which there are at most four.
fn parse_field(b: &[u8], from: usize, to: usize) -> (r: Option<u32>)
    requires
        from < to <= from + 4,
    ensures
        match r {
            Some(n) => time_field(b@, from as int, to as int) == Some(n as nat) && n <= 9999
                && (to <= from + 2 ==> n <= 99),
            None => time_field(b@, from as int, to as int) is None,
        },
{
    if to > b.len() {
        return None;
    }
    let ghost t = byte_chars(b@.subrange(from as int, to as int));
    let start: usize = if b[from] == 43 {
        from + 1
    } else {
        from
    };
    assert(t[0] == b@[from as int] as char);
    let ghost d = byte_chars(b@.subrange(start as int, to as int));
    assert(d =~= (if t[0] == '+' {
        t.skip(1)
    } else {
        t
    }));
    if start == to {
        return None;
    }
    parse_digits(b, start, to)
}

fn parse_after_year(b: &[u8], year: u32, at: usize) -> (r: Option<u64>)
    requires
        year <= 9999,
        at <= 4,
    ensures
        match r {
            Some(t) => time_after_year(b@, year as nat, at as int) == Some(t as nat),
            None => time_after_year(b@, year as nat, at as int) is None,
        },
{
    let month: u32 = parse_field(b, at, at + 2)?;
    let day: u32 = parse_field(b, at + 2, at + 4)?;
    let hour: u32 = parse_field(b, at + 4, at + 6)?;
    let minute: u32 = parse_field(b, at + 6, at + 8)?;
    let second: u32 = parse_field(b, at + 8, at + 10)?;
    let days: i64 = days_from_civil(year as i64, month as i64, day as i64);
    let unix_secs: i64 = (days - UNIX_EPOCH_DAYS) * 86400 + hour as i64 * 3600 + minute as i64 * 60
        + second as i64;
    if unix_secs < 0 {
        return None;
    }
    Some(unix_secs as u64)
}

/// The Unix time, in seconds, of a `UTCTime` or a `GeneralizedTime`.
pub fn parse_asn1_time(tag: u8, bytes: &[u8]) -> (r: Option<u64>)
    ensures
        match r {
            Some(t) => asn1_time(tag, bytes@) == Some(t as nat),
            None => asn1_time(tag, bytes@) is None,
        },
{
    if read_utf8(bytes).is_none() {
        return None;
    }
    if tag == 0x17 {
        let y: u32 = parse_field(bytes, 0, 2)?;
        let year: u32 = if y >= 50 {
            1900 + y
        } else {
            2000 + y
        };
        parse_after_year(bytes, year, 2)
    } else if tag == 0x18 {
        let year: u32 = parse_field(bytes, 0, 4)?;
        parse_after_year(bytes, year, 4)
    } else {
        None
    }
}

/// The bytes of the two digits of the century that a `UTCTime` leaves out: its years are
/// those from 1950 to 2049.
pub open spec fn century(yy: nat) -> Seq<u8> {
    if yy >= 50 {
        seq![0x31u8, 0x39u8]
    } else {
        seq![0x32u8, 0x30u8]
    }
}

/// Whether there are decimal digits in the bytes `from..to`.
pub open spec fn has_digits(b: Seq<u8>, from: int, to: int) -> bool {
    0 <= from <= to <= b.len() && forall|i: int| from <= i < to ==> 0x30 <= #[trigger] b[i] <= 0x39
}

proof fn lemma_digit_field(b: Seq<u8>, from: int, to: int)
    requires
        has_digits(b, from, to),
        from < to <= from + 4,
    ensures
        time_field(b, from, to) == Some(digits_value(byte_chars(b.subrange(from, to)))),
        to >= from + 2 ==> digits_value(byte_chars(b.subrange(from, to))) == digits_value(
            byte_chars(b.subrange(from, to - 1)),
        ) * 10 + (b[to - 1] - 0x30),
        digits_value(byte_chars(b.subrange(from, from + 1))) == b[from] - 0x30,
{
    let d = byte_chars(b.subrange(from, to));
    assert forall|i: int| 0 <= i < d.len() implies '0' <= #[trigger] d[i] <= '9' by {
        assert(d[i] == b[from + i] as char);
    }
    lemma_digits_bound(d);
    assert(d[0] == b[from] as char);
    assert(d.last() == b[to - 1] as char);
    assert(d.drop_last() =~= byte_chars(b.subrange(from, to - 1)));
    let first = byte_chars(b.subrange(from, from + 1));
    assert(first.drop_last() =~= Seq::<char>::empty());
    assert(first.last() == b[from] as char);
    assert(digits_value(first.drop_last()) == 0);
}

proof fn lemma_ascii_before(c: u8, b: Seq<u8>)
    requires
        c < 0x80,
    ensures
        valid_utf8(seq![c] + b) == valid_utf8(b),
{
    let all = seq![c] + b;
    assert(all[0] == c);
    assert(c & 0x80 == 0) by (bit_vector)
        requires
            c < 0x80,
    ;
    assert(pop_first_scalar(all) =~= b);
}

/// A `UTCTime` says the same as the `GeneralizedTime` with its century written out.
pub proof fn law_time_forms_agree(b: Seq<u8>)
    requires
        has_digits(b, 0, 2),
    ensures
        asn1_time(0x17, b) == asn1_time(
            0x18,
            century(((b[0] - 0x30) * 10 + (b[1] - 0x30)) as nat) + b,
        ),
{
    let yy = ((b[0] - 0x30) * 10 + (b[1] - 0x30)) as nat;
    let c = century(yy);
    let long = c + b;
    assert(long =~= seq![c[0]] + (seq![c[1]] + b));
    lemma_ascii_before(c[1], b);
    lemma_ascii_before(c[0], seq![c[1]] + b);
    assert(long[2] == b[0] && long[3] == b[1]);
    lemma_digit_field(b, 0, 2);
    lemma_digit_field(long, 0, 2);
    lemma_digit_field(long, 0, 3);
    lemma_digit_field(long, 0, 4);
    assert forall|from: int, to: int| 2 <= from <= to implies #[trigger] time_field(b, from, to)
        == time_field(long, from + 2, to + 2) by {
        if to <= b.len() {
            assert(b.subrange(from, to) =~= long.subrange(from + 2, to + 2));
        }
    }
    assert(time_field(b, 2, 4) == time_field(long, 4, 6));
    assert(time_field(b, 4, 6) == time_field(long, 6, 8));
    assert(time_field(b, 6, 8) == time_field(long, 8, 10));
    assert(time_field(b, 8, 10) == time_field(long, 10, 12));
    assert(time_field(b, 10, 12) == time_field(long, 12, 14));
}

/// A time of a date that exists has a Unix time exactly where its year is 1970 or later.
pub proof fn law_times_begin_in_1970(
    tag: u8,
    b: Seq<u8>,
    year: nat,
    month: nat,
    day: nat,
    hour: nat,
    minute: nat,
    second: nat,
)
    requires
        valid_utf8(b),
        time_year(tag, b) == Some(year),
        time_field(b, year_len(tag), year_len(tag) + 2) == Some(month),
        time_field(b, year_len(tag) + 2, year_len(tag) + 4) == Some(day),
        time_field(b, year_len(tag) + 4, year_len(tag) + 6) == Some(hour),
        time_field(b, year_len(tag) + 6, year_len(tag) + 8) == Some(minute),
        time_field(b, year_len(tag) + 8, year_len(tag) + 10) == Some(second),
        is_date(year as int, month as int, day as int),
        hour < 24,
        minute < 60,
        second < 60,
    ensures
        asn1_time(tag, b) is Some <==> year >= 1970,
{
    law_epoch_parts_the_years(year as int, month as int, day as int);
}

/// Nothing but a `UTCTime` and a `GeneralizedTime` is a time.
pub proof fn law_other_elements_are_no_times(tag: u8, b: Seq<u8>)
    requires
        tag != 0x17,
        tag != 0x18,
    ensures
        asn1_time(tag, b) is None,
{
}

// ---- certificates ----

/// The place of the `validity` element, behind version, serial number, signature
/// algorithm and issuer; the version, with the tag 160, may be left out.
pub open spec fn validity_at(der: Seq<u8>) -> Option<int> {
    match content_start(der, 0, 0x30) {
        None => None,
        Some(tbs) => match content_start(der, tbs, 0x30) {
            None => None,
            Some(first) => {
                if first >= der.len() {
                    None
                } else {
                    let serial = if der[first] == 0xA0 {
                        element_end(der, first)
                    } else {
                        Some(first)
                    };
                    match serial {
                        None => None,
                        Some(p) => match element_end(der, p) {
                            None => None,
                            Some(p) => match element_end(der, p) {
                                None => None,
                                Some(p) => element_end(der, p),
                            },
                        },
                    }
                }
            },
        },
    }
}

/// The place of `notAfter`, the second element of `validity`.
pub open spec fn not_after_at(der: Seq<u8>) -> Option<int> {
    match validity_at(der) {
        None => None,
        Some(v) => match content_start(der, v, 0x30) {
            None => None,
            Some(not_before) => element_end(der, not_before),
        },
    }
}

/// The Unix time, in seconds, at which the validity of a certificate ends.
pub open spec fn not_after(der: Seq<u8>) -> Option<nat> {
    match not_after_at(der) {
        None => None,
        Some(p) => if p >= der.len() {
            None
        } else {
            match asn1_length(der, p + 1) {
                None => None,
                Some((len, at)) => if at + len > der.len() {
                    None
                } else {
                    asn1_time(der[p], der.subrange(at, at + len))
                },
            }
        },
    }
}

/// The place of the `validity` element; `None` also where it lies behind the end.
fn find_validity(der: &[u8]) -> (r: Option<usize>)
    ensures
        match r {
            Some(p) => validity_at(der@) == Some(p as int),
            None => validity_at(der@) is None || validity_at(der@)->0 > der@.len(),
        },
{
    let tbs: usize = skip_tag_and_length(der, 0, 0x30)?;
    let first: usize = skip_tag_and_length(der, tbs, 0x30)?;
    if first >= der.len() {
        return None;
    }
    let serial: usize = if der[first] == 0xA0 {
        skip_tlv(der, first)?
    } else {
        first
    };
    let signature: usize = skip_tlv(der, serial)?;
    let issuer: usize = skip_tlv(der, signature)?;
    skip_tlv(der, issuer)
}

/// The Unix time, in seconds, at which the validity of a certificate ends.
pub fn parse_x509_not_after(der: &[u8]) -> (r: Option<u64>)
    ensures
        match r {
            Some(t) => not_after(der@) == Some(t as nat),
            None => not_after(der@) is None,
        },
{
    let validity: usize = find_validity(der)?;
    let not_before: usize = skip_tag_and_length(der, validity, 0x30)?;
    let pos: usize = skip_tlv(der, not_before)?;
    if pos >= der.len() {
        return None;
    }
    let tag: u8 = der[pos];
    let (len, at): (usize, usize) = parse_asn1_length(der, pos + 1)?;
    if len > der.len() - at {
        return None;
    }
    parse_asn1_time(tag, vstd::slice::slice_subrange(der, at, at + len))
}

// ---- what is written is what is read ----

/// The shortest length field for a length below 2^32.
#[verifier::opaque]
pub open spec fn length_field(n: nat) -> Seq<u8> {
    if n < 0x80 {
        seq![n as u8]
    } else if n < 0x100 {
        seq![0x81u8, n as u8]
    } else if n < 0x1_0000 {
        seq![0x82u8, (n / 0x100) as u8, (n % 0x100) as u8]
    } else if n < 0x100_0000 {
        seq![0x83u8, (n / 0x1_0000) as u8, (n / 0x100 % 0x100) as u8, (n % 0x100) as u8]
    } else {
        seq![
            0x84u8,
            (n / 0x100_0000) as u8,
            (n / 0x1_0000 % 0x100) as u8,
            (n / 0x100 % 0x100) as u8,
            (n % 0x100) as u8,
        ]
    }
}

/// The encoding of an element.
pub open spec fn element(tag: u8, content: Seq<u8>) -> Seq<u8> {
    seq![tag] + length_field(content.len()) + content
}

/// Whether `part` stands at `pos` in `der`.
pub open spec fn stands_at(der: Seq<u8>, pos: int, part: Seq<u8>) -> bool {
    0 <= pos && pos + part.len() <= der.len() && der.subrange(pos, pos + part.len()) == part
}

proof fn lemma_stands_inside(der: Seq<u8>, pos: int, a: Seq<u8>, b: Seq<u8>, c: Seq<u8>)
    requires
        stands_at(der, pos, a + b + c),
    ensures
        stands_at(der, pos, a),
        stands_at(der, pos + a.len(), b),
        stands_at(der, pos + a.len() + b.len(), c),
{
    let w = a + b + c;
    let t = der.subrange(pos, pos + w.len());
    assert(t.subrange(0, a.len() as int) =~= a);
    assert(t.subrange(a.len() as int, (a.len() + b.len()) as int) =~= b);
    assert(t.subrange((a.len() + b.len()) as int, w.len() as int) =~= c);
    assert(der.subrange(pos, pos + a.len()) =~= a);
    assert(der.subrange(pos + a.len(), pos + a.len() + b.len()) =~= b);
    assert(der.subrange(pos + a.len() + b.len(), pos + w.len()) =~= c);
}

proof fn lemma_big_endian_bytes(b: Seq<u8>)
    ensures
        b.len() == 1 ==> big_endian(b) == b[0],
        b.len() == 2 ==> big_endian(b) == b[0] * 0x100 + b[1],
        b.len() == 3 ==> big_endian(b) == b[0] * 0x1_0000 + b[1] * 0x100 + b[2],
        b.len() == 4 ==> big_endian(b) == b[0] * 0x100_0000 + b[1] * 0x1_0000 + b[2] * 0x100
            + b[3],
{
    reveal_with_fuel(big_endian, 5);
}

/// A length field gives back the length that it was made for.
pub proof fn law_length_field_is_read(der: Seq<u8>, pos: int, n: nat)
    requires
        n < 0x1_0000_0000,
        stands_at(der, pos, length_field(n)),
    ensures
        asn1_length(der, pos) == Some((n, pos + length_field(n).len())),
{
    reveal(length_field);
    let f = length_field(n);
    let t = der.subrange(pos, pos + f.len());
    assert(t == f);
    assert(der[pos] == t[0]);
    if n >= 0x80 {
        let k = f.len() - 1;
        let b = der.subrange(pos + 1, pos + 1 + k);
        assert(b =~= f.skip(1));
        lemma_big_endian_bytes(b);
    }
}

proof fn lemma_element_is_read(der: Seq<u8>, pos: int, tag: u8, content: Seq<u8>)
    requires
        content.len() < 0x1_0000_0000,
        stands_at(der, pos, element(tag, content)),
    ensures
        0 <= pos < der.len(),
        der[pos] == tag,
        ({
            let at = pos + 1 + length_field(content.len()).len();
            &&& asn1_length(der, pos + 1) == Some((content.len(), at))
            &&& content_start(der, pos, tag) == Some(at)
            &&& element_end(der, pos) == Some(pos + element(tag, content).len())
            &&& stands_at(der, at, content)
        }),
{
    lemma_stands_inside(der, pos, seq![tag], length_field(content.len()), content);
    law_length_field_is_read(der, pos + 1, content.len());
    assert(der.subrange(pos, pos + 1)[0] == tag);
}

/// The fields of a certificate that stand before and behind its end of validity.
#[verifier::ext_equal]
pub struct CertificateFields {
    /// The element with the version, or nothing.
    pub version: Seq<u8>,
    pub serial: (u8, Seq<u8>),
    pub signature: (u8, Seq<u8>),
    pub issuer: (u8, Seq<u8>),
    pub not_before: (u8, Seq<u8>),
    pub not_after: (u8, Seq<u8>),
    /// What stands behind `notAfter` inside `validity`.
    pub after_validity_times: Seq<u8>,
    /// What stands behind `validity` inside the signed part.
    pub after_validity: Seq<u8>,
    /// What stands behind the signed part.
    pub after_signed: Seq<u8>,
}

impl CertificateFields {
    /// The content of the `validity` element.
    pub open spec fn validity(self) -> Seq<u8> {
        element(self.not_before.0, self.not_before.1) + element(self.not_after.0, self.not_after.1)
            + self.after_validity_times
    }

    /// The elements from the serial number to the issuer.
    pub open spec fn names(self) -> Seq<u8> {
        element(self.serial.0, self.serial.1) + element(self.signature.0, self.signature.1)
            + element(self.issuer.0, self.issuer.1)
    }

    /// The content of the signed part.
    pub open spec fn signed(self) -> Seq<u8> {
        self.version + self.names() + (element(0x30, self.validity()) + self.after_validity)
    }

    /// The encoding of the certificate.
    pub open spec fn encoded(self) -> Seq<u8> {
        element(0x30, element(0x30, self.signed()) + self.after_signed)
    }

    /// A version is an element with the tag 160, which no serial number has.
    pub open spec fn well_formed(self) -> bool {
        &&& self.encoded().len() < 0x1_0000_0000
        &&& self.serial.0 != 0xA0
        &&& self.version.len() == 0 || exists|v: Seq<u8>| self.version == #[trigger] element(0xA0, v)
    }
}

proof fn lemma_signed_part_is_read(c: CertificateFields) -> (first: int)
    requires
        c.well_formed(),
    ensures
        ({
            let der = c.encoded();
            &&& 0 <= first
            &&& stands_at(der, first, c.version)
            &&& stands_at(der, first + c.version.len(), c.names())
            &&& stands_at(
                der,
                first + c.version.len() + c.names().len(),
                element(0x30, c.validity()) + c.after_validity,
            )
            &&& content_start(der, 0, 0x30) is Some
            &&& content_start(der, content_start(der, 0, 0x30)->0, 0x30) == Some(first)
        }),
{
    let der = c.encoded();
    let outer = element(0x30, c.signed()) + c.after_signed;
    assert(der.subrange(0, der.len() as int) =~= der);
    lemma_element_is_read(der, 0, 0x30, outer);
    let tbs = 1 + length_field(outer.len()).len();
    assert(outer + Seq::<u8>::empty() =~= outer);
    lemma_stands_inside(der, tbs as int, element(0x30, c.signed()), c.after_signed, seq![]);
    lemma_element_is_read(der, tbs as int, 0x30, c.signed());
    let first = (tbs + 1 + length_field(c.signed().len()).len()) as int;
    lemma_stands_inside(
        der,
        first,
        c.version,
        c.names(),
        element(0x30, c.validity()) + c.after_validity,
    );
    first
}

proof fn lemma_names_are_read(der: Seq<u8>, serial: int, c: CertificateFields)
    requires
        c.well_formed(),
        stands_at(der, serial, c.names()),
    ensures
        ({
            let s = element_end(der, serial);
            let i = element_end(der, s->0);
            &&& serial < der.len()
            &&& der[serial] != 0xA0
            &&& s is Some
            &&& i is Some
            &&& element_end(der, i->0) == Some(serial + c.names().len())
        }),
{
    lemma_stands_inside(
        der,
        serial,
        element(c.serial.0, c.serial.1),
        element(c.signature.0, c.signature.1),
        element(c.issuer.0, c.issuer.1),
    );
    let signature = serial + element(c.serial.0, c.serial.1).len();
    let issuer = signature + element(c.signature.0, c.signature.1).len();
    lemma_element_is_read(der, serial, c.serial.0, c.serial.1);
    lemma_element_is_read(der, signature, c.signature.0, c.signature.1);
    lemma_element_is_read(der, issuer, c.issuer.0, c.issuer.1);
}

proof fn lemma_times_are_read(der: Seq<u8>, validity: int, c: CertificateFields)
    requires
        c.well_formed(),
        validity_at(der) == Some(validity),
        stands_at(der, validity, element(0x30, c.validity()) + c.after_validity),
    ensures
        not_after(der) == asn1_time(c.not_after.0, c.not_after.1),
{
    let e = element(0x30, c.validity());
    assert(e + c.after_validity + Seq::<u8>::empty() =~= e + c.after_validity);
    lemma_stands_inside(der, validity, e, c.after_validity, Seq::<u8>::empty());
    lemma_element_is_read(der, validity, 0x30, c.validity());
    let not_before = validity + 1 + length_field(c.validity().len()).len();
    lemma_stands_inside(
        der,
        not_before,
        element(c.not_before.0, c.not_before.1),
        element(c.not_after.0, c.not_after.1),
        c.after_validity_times,
    );
    lemma_element_is_read(der, not_before, c.not_before.0, c.not_before.1);
    let at = not_before + element(c.not_before.0, c.not_before.1).len();
    lemma_element_is_read(der, at, c.not_after.0, c.not_after.1);
}

/// The end of validity that is read from a certificate's encoding is the one that
/// stands in its `notAfter` field.
pub proof fn law_not_after_is_read(c: CertificateFields)
    requires
        c.well_formed(),
    ensures
        not_after(c.encoded()) == asn1_time(c.not_after.0, c.not_after.1),
{
    let der = c.encoded();
    let first = lemma_signed_part_is_read(c);
    let serial = first + c.version.len();
    lemma_names_are_read(der, serial, c);
    if c.version.len() > 0 {
        let v = choose|v: Seq<u8>| c.version == #[trigger] element(0xA0, v);
        lemma_element_is_read(der, first, 0xA0, v);
    }
    lemma_times_are_read(der, serial + c.names().len(), c);
}

/// Seconds, minutes, hours and days follow one another, and time is counted from the first of
/// January 1970.
pub proof fn law_time_goes_on(year: nat, month: nat, day: nat, hour: nat, minute: nat, second: nat)
    requires
        is_date(year as int, month as int, day as int),
    ensures
        unix_seconds(1970, 1, 1, 0, 0, 0) == 0,
        unix_seconds(year, month, day, hour, minute, second + 1) == unix_seconds(
            year,
            month,
            day,
            hour,
            minute,
            second,
        ) + 1,
        unix_seconds(year, month, day, hour, minute + 1, 0) == unix_seconds(
            year,
            month,
            day,
            hour,
            minute,
            60,
        ),
        unix_seconds(year, month, day, hour + 1, 0, second) == unix_seconds(
            year,
            month,
            day,
            hour,
            60,
            second,
        ),
        ({
            let n = next_date(year as int, month as int, day as int);
            unix_seconds(n.0 as nat, n.1 as nat, n.2 as nat, hour, minute, second) == unix_seconds(
                year,
                month,
                day,
                hour + 24,
                minute,
                second,
            )
        }),
{
    law_next_date_is_next_day(year as int, month as int, day as int);
    law_days_are_counted_from_the_epoch(1970);
}

/// The number of two decimal digits.
pub open spec fn two_digits(b: Seq<u8>, at: int) -> nat {
    ((b[at] - 0x30) * 10 + (b[at + 1] - 0x30)) as nat
}

/// A time is read digit by digit: year, month, day, hour, minute and second.
pub proof fn law_times_are_read_from_their_digits(b: Seq<u8>)
    requires
        valid_utf8(b),
        has_digits(b, 0, 14),
        unix_seconds(
            two_digits(b, 0) * 100 + two_digits(b, 2),
            two_digits(b, 4),
            two_digits(b, 6),
            two_digits(b, 8),
            two_digits(b, 10),
            two_digits(b, 12),
        ) >= 0,
    ensures
        asn1_time(0x18, b) == Some(
            unix_seconds(
                two_digits(b, 0) * 100 + two_digits(b, 2),
                two_digits(b, 4),
                two_digits(b, 6),
                two_digits(b, 8),
                two_digits(b, 10),
                two_digits(b, 12),
            ) as nat,
        ),
{
    lemma_digit_field(b, 0, 2);
    lemma_digit_field(b, 0, 3);
    lemma_digit_field(b, 0, 4);
    lemma_digit_field(b, 4, 6);
    lemma_digit_field(b, 6, 8);
    lemma_digit_field(b, 8, 10);
    lemma_digit_field(b, 10, 12);
    lemma_digit_field(b, 12, 14);
}

/// A year of two digits lies between 1950 and 2049.
pub proof fn law_short_years_have_a_century(b: Seq<u8>)
    requires
        has_digits(b, 0, 2),
    ensures
        time_year(0x17, b) matches Some(y) && 1950 <= y <= 2049 && y % 100 == two_digits(b, 0),
{
    lemma_digit_field(b, 0, 2);
}

/// A length that is said to take more than four bytes is none, nor is one that the bytes break
/// off in.
pub proof fn law_long_length_fields_are_none(der: Seq<u8>, pos: int)
    requires
        0 <= pos < der.len(),
    ensures
        der[pos] > 0x84 ==> asn1_length(der, pos) is None,
        0x80 <= der[pos] <= 0x84 ==> (asn1_length(der, pos) is Some <==> pos + 1 + (der[pos] - 0x80)
            <= der.len()),
        der[pos] < 0x80 ==> asn1_length(der, pos) == Some((der[pos] as nat, pos + 1)),
{
}

} // verus!
