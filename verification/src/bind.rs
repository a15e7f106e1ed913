//! Where the service listens: a port and an IPv4 host, each read from an
//! optional setting in decimal text.

use vstd::prelude::*;
use vstd::string::StringSliceAdditionalSpecFns;

verus! {

/// The port that is used when none is set.
pub const DEFAULT_PORT: u16 = 3030;

/// The host that is used when none is set: every interface.
pub open spec fn default_host() -> Seq<u8> {
    seq![0u8, 0u8, 0u8, 0u8]
}

/// Whether a byte is an ASCII decimal digit.
pub open spec fn is_digit(byte: u8) -> bool {
    0x30 <= byte <= 0x39
}

/// Whether every byte is an ASCII decimal digit.
pub open spec fn all_digits(text: Seq<u8>) -> bool {
    forall|i: int| 0 <= i < text.len() ==> is_digit(#[trigger] text[i])
}

/// The number that a string of decimal digits denotes.
pub open spec fn digits_value(digits: Seq<u8>) -> nat
    decreases digits.len(),
{
    if digits.len() == 0 {
        0
    } else {
        (digits_value(digits.drop_last()) * 10 + (digits.last() - 0x30)) as nat
    }
}

/// The text without a leading plus sign.
pub open spec fn unsigned(text: Seq<u8>) -> Seq<u8> {
    if text.len() > 0 && text[0] == 0x2b {
        text.skip(1)
    } else {
        text
    }
}

/// The number that a text denotes, if it is a number up to `max`: an optional
/// plus sign, then one or more decimal digits and nothing else. Leading zeros
/// are allowed.
pub open spec fn decimal(text: Seq<u8>, max: nat) -> Option<nat> {
    let digits = unsigned(text);
    if digits.len() > 0 && all_digits(digits) && digits_value(digits) <= max {
        Some(digits_value(digits))
    } else {
        None
    }
}

/// The fields of a text that separates them by dots. A text without a dot is
/// one field; two dots in a row hold an empty field between them.
pub open spec fn fields(text: Seq<u8>) -> Seq<Seq<u8>>
    decreases text.len(),
{
    if text.len() == 0 {
        seq![Seq::<u8>::empty()]
    } else {
        let before = fields(text.drop_last());
        if text.last() == 0x2e {
            before.push(Seq::<u8>::empty())
        } else {
            before.drop_last().push(before.last().push(text.last()))
        }
    }
}

/// The port that a text denotes: a number up to 65535.
pub open spec fn port(text: Seq<u8>) -> Option<u16> {
    match decimal(text, 0xffff) {
        Some(value) => Some(value as u16),
        None => None,
    }
}

/// The host that a text denotes: exactly four fields, each a number up to
/// 255.
pub open spec fn host(text: Seq<u8>) -> Option<Seq<u8>> {
    let parts = fields(text);
    if parts.len() == 4 && (forall|k: int|
        0 <= k < 4 ==> decimal(#[trigger] parts[k], 0xff) is Some) {
        Some(Seq::new(4, |k: int| decimal(parts[k], 0xff).unwrap() as u8))
    } else {
        None
    }
}

/// A longer string of digits denotes no smaller number.
proof fn lemma_digits_value_grows(digits: Seq<u8>, i: int)
    requires
        0 <= i <= digits.len(),
        all_digits(digits),
    ensures
        digits_value(digits.take(i)) <= digits_value(digits),
    decreases digits.len() - i,
{
    if i == digits.len() {
        assert(digits.take(i) =~= digits);
    } else {
        lemma_digits_value_grows(digits, i + 1);
        assert(digits.take(i + 1).drop_last() =~= digits.take(i));
        assert(is_digit(digits[i]));
        assert(digits.take(i + 1).last() == digits[i]);
    }
}

/// Reads a number up to `max` from decimal text.
fn parse_decimal(text: &[u8], max: u32) -> (number: Option<u32>)
    requires
        max <= 0xffff,
    ensures
        number.is_some() == decimal(text@, max as nat).is_some(),
        number.is_some() ==> number.unwrap() == decimal(text@, max as nat).unwrap(),
{
    let start: usize = if text.len() > 0 && text[0] == 0x2b {
        1
    } else {
        0
    };
    let ghost digits = unsigned(text@);
    if start == text.len() {
        return None;
    }
    let mut value: u32 = 0;
    let mut i: usize = start;
    while i < text.len()
        invariant
            start <= i <= text.len(),
            start <= 1,
            digits == unsigned(text@),
            digits == text@.skip(start as int),
            all_digits(digits.take(i - start)),
            value == digits_value(digits.take(i - start)),
            value <= max <= 0xffff,
        decreases text.len() - i,
    {
        let byte = text[i];
        if byte < 0x30 || byte > 0x39 {
            assert(digits[i - start] == byte);
            return None;
        }
        let ghost seen = digits.take(i - start + 1);
        proof {
            assert(seen.drop_last() =~= digits.take(i - start));
            assert(seen.last() == byte);
            assert forall|k: int| 0 <= k < seen.len() implies is_digit(#[trigger] seen[k]) by {
                if k < i - start {
                    assert(digits.take(i - start)[k] == seen[k]);
                }
            }
        }
        value = value * 10 + (byte - 0x30) as u32;
        if value > max {
            proof {
                if all_digits(digits) {
                    lemma_digits_value_grows(digits, i - start + 1);
                }
            }
            return None;
        }
        i += 1;
    }
    proof {
        assert(digits.take(i - start) =~= digits);
    }
    Some(value)
}

/// Reads a port from decimal text.
pub fn parse_port(text: &str) -> (number: Option<u16>)
    ensures
        number == port(text.spec_bytes()),
{
    match parse_decimal(text.as_bytes(), 0xffff) {
        Some(value) => Some(value as u16),
        None => None,
    }
}

/// The views of the fields that `parts` holds.
spec fn views(parts: Seq<Vec<u8>>) -> Seq<Seq<u8>> {
    parts.map_values(|part: Vec<u8>| part@)
}

/// Cuts a text at its dots.
fn split_fields(text: &[u8]) -> (parts: Vec<Vec<u8>>)
    ensures
        views(parts@) == fields(text@),
{
    let mut parts: Vec<Vec<u8>> = Vec::new();
    let mut current: Vec<u8> = Vec::new();
    let mut i: usize = 0;
    proof {
        assert(text@.take(0).len() == 0);
        assert(views(parts@).push(current@) =~= fields(text@.take(0)));
    }
    while i < text.len()
        invariant
            0 <= i <= text.len(),
            views(parts@).push(current@) == fields(text@.take(i as int)),
        decreases text.len() - i,
    {
        let byte = text[i];
        let ghost before = fields(text@.take(i as int));
        proof {
            assert(text@.take(i + 1).drop_last() =~= text@.take(i as int));
            assert(text@.take(i + 1).last() == byte);
            assert(before.last() == current@);
            assert(before.drop_last() =~= views(parts@));
        }
        if byte == 0x2e {
            parts.push(current);
            current = Vec::new();
            proof {
                assert(views(parts@).push(current@) =~= before.push(Seq::<u8>::empty()));
            }
        } else {
            current.push(byte);
            proof {
                assert(views(parts@).push(current@) =~= before.drop_last().push(
                    before.last().push(byte),
                ));
            }
        }
        i += 1;
    }
    proof {
        assert(text@.take(i as int) =~= text@);
    }
    parts.push(current);
    proof {
        assert(views(parts@) =~= fields(text@));
    }
    parts
}

/// Reads an IPv4 host from four decimal fields that dots separate.
pub fn parse_host(text: &str) -> (octets: Option<[u8; 4]>)
    ensures
        octets.is_some() == host(text.spec_bytes()).is_some(),
        octets.is_some() ==> octets.unwrap()@ == host(text.spec_bytes()).unwrap(),
{
    let parts = split_fields(text.as_bytes());
    let ghost wanted = fields(text.spec_bytes());
    if parts.len() != 4 {
        return None;
    }
    proof {
        assert forall|k: int| 0 <= k < 4 implies wanted[k] == #[trigger] parts@[k]@ by {
            assert(views(parts@)[k] == parts@[k]@);
        }
    }
    let first = parse_decimal(parts[0].as_slice(), 0xff);
    let second = parse_decimal(parts[1].as_slice(), 0xff);
    let third = parse_decimal(parts[2].as_slice(), 0xff);
    let fourth = parse_decimal(parts[3].as_slice(), 0xff);
    match (first, second, third, fourth) {
        (Some(a), Some(b), Some(c), Some(d)) => {
            let octets: [u8; 4] = [a as u8, b as u8, c as u8, d as u8];
            proof {
                assert(octets@ =~= host(text.spec_bytes()).unwrap());
            }
            Some(octets)
        },
        _ => None,
    }
}

/// The port to listen on: the default where none is set, else what the
/// setting denotes, if it denotes a port.
pub fn port_or_default(setting: Option<&str>) -> (number: Option<u16>)
    ensures
        number == match setting {
            None => Some(DEFAULT_PORT),
            Some(text) => port(text.spec_bytes()),
        },
{
    match setting {
        None => Some(DEFAULT_PORT),
        Some(text) => parse_port(text),
    }
}

/// The host to listen on: the default where none is set, else what the
/// setting denotes, if it denotes a host.
pub fn host_or_default(setting: Option<&str>) -> (octets: Option<[u8; 4]>)
    ensures
        match setting {
            None => octets.is_some() && octets.unwrap()@ == default_host(),
            Some(text) => octets.is_some() == host(text.spec_bytes()).is_some() && (
            octets.is_some() ==> octets.unwrap()@ == host(text.spec_bytes()).unwrap()),
        },
{
    match setting {
        None => {
            let octets: [u8; 4] = [0, 0, 0, 0];
            proof {
                assert(octets@ =~= default_host());
            }
            Some(octets)
        },
        Some(text) => parse_host(text),
    }
}

} // verus!
