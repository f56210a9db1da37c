//! The foreground colour of the display, as the host configures it, and its
//! textual form: four decimal channels separated by commas.

use vstd::prelude::*;
use vstd::string::StringSliceAdditionalSpecFns;

verus! {

pub const COMMA: u8 = 0x2C;

pub const PLUS: u8 = 0x2B;

pub const DIGIT_ZERO: u8 = 0x30;

pub const DIGIT_NINE: u8 = 0x39;

/// A colour of four 8-bit channels: alpha, red, green, blue.
#[derive(Debug, Clone, Copy, PartialEq, Eq)]
pub struct CliColor {
    color: (u8, u8, u8, u8),
}

/// Why a text is no colour.
#[derive(Debug, PartialEq, Eq)]
pub enum CliColorErr {
    /// A field is no number from 0 to 255; holds the whole text.
    ParseValueError(String),
    /// Every field is a number, but there are not four; holds their count.
    NotEnoughValuesError(usize),
}

pub open spec fn is_digit(byte: u8) -> bool {
    DIGIT_ZERO <= byte <= DIGIT_NINE
}

pub open spec fn all_digits(digits: Seq<u8>) -> bool {
    forall|i: int| 0 <= i < digits.len() ==> is_digit(#[trigger] digits[i])
}

/// The number that a sequence of decimal digits denotes.
pub open spec fn digits_value(digits: Seq<u8>) -> int
    decreases digits.len(),
{
    if digits.len() == 0 {
        0
    } else {
        digits_value(digits.drop_last()) * 10 + (digits.last() - DIGIT_ZERO)
    }
}

/// A field without its plus sign, where it begins with one.
pub open spec fn unsigned_part(field: Seq<u8>) -> Seq<u8> {
    if field.len() > 0 && field[0] == PLUS {
        field.skip(1)
    } else {
        field
    }
}

/// The channel that a field denotes: an optional plus sign, then one or more
/// decimal digits whose number is at most 255. Any other field denotes none.
pub open spec fn field_value(field: Seq<u8>) -> Option<u8> {
    let digits = unsigned_part(field);
    if digits.len() > 0 && all_digits(digits) && digits_value(digits) <= 255 {
        Some(digits_value(digits) as u8)
    } else {
        None
    }
}

/// The fields of `text` from the field that starts at `start` on, where the
/// bytes from `start` up to `at` hold no comma.
pub open spec fn fields_scan(text: Seq<u8>, start: int, at: int) -> Seq<Seq<u8>>
    decreases text.len() - at,
{
    if at >= text.len() {
        seq![text.subrange(start, text.len() as int)]
    } else if text[at] == COMMA {
        seq![text.subrange(start, at)] + fields_scan(text, at + 1, at + 1)
    } else {
        fields_scan(text, start, at + 1)
    }
}

/// The fields of `text`: what stands between its commas, before the first and
/// after the last. A text without a comma is one field.
pub open spec fn fields(text: Seq<u8>) -> Seq<Seq<u8>> {
    fields_scan(text, 0, 0)
}

/// The channels that the fields denote, where each denotes one.
pub open spec fn channel_values(fields: Seq<Seq<u8>>) -> Option<Seq<u8>> {
    if forall|k: int| 0 <= k < fields.len() ==> (#[trigger] field_value(fields[k])) is Some {
        Some(Seq::new(fields.len(), |k: int| field_value(fields[k]).unwrap()))
    } else {
        None
    }
}

/// The number of a prefix of a digit sequence is at most the number of the
/// whole.
proof fn lemma_prefix_value(digits: Seq<u8>, k: int)
    requires
        all_digits(digits),
        0 <= k <= digits.len(),
    ensures
        0 <= digits_value(digits.subrange(0, k)) <= digits_value(digits),
    decreases digits.len(),
{
    if digits.len() == 0 {
        assert(digits.subrange(0, k) =~= digits);
    } else if k == digits.len() {
        assert(digits.subrange(0, k) =~= digits);
        lemma_prefix_value(digits.drop_last(), k - 1);
    } else {
        lemma_prefix_value(digits.drop_last(), k);
        assert(digits.drop_last().subrange(0, k) =~= digits.subrange(0, k));
    }
}

/// The channel that the bytes of `text` from `start` up to `end` denote.
fn parse_channel(text: &[u8], start: usize, end: usize) -> (value: Option<u8>)
    requires
        start <= end <= text@.len(),
    ensures
        value == field_value(text@.subrange(start as int, end as int)),
{
    let ghost field = text@.subrange(start as int, end as int);
    let mut at = start;
    if at < end && text[at] == PLUS {
        at += 1;
    }
    let first = at;
    let ghost digits = text@.subrange(first as int, end as int);
    proof {
        assert(unsigned_part(field) =~= digits);
    }
    if at == end {
        return None;
    }
    let mut acc: u16 = 0;
    while at < end
        invariant
            first <= at <= end <= text@.len(),
            acc <= 255,
            acc == digits_value(text@.subrange(first as int, at as int)),
            all_digits(text@.subrange(first as int, at as int)),
            digits == text@.subrange(first as int, end as int),
            start <= first,
            unsigned_part(text@.subrange(start as int, end as int)) == digits,
        decreases end - at,
    {
        let byte = text[at];
        if byte < DIGIT_ZERO || byte > DIGIT_NINE {
            proof {
                assert(digits[at - first] == byte);
            }
            return None;
        }
        let next: u16 = acc * 10 + (byte - DIGIT_ZERO) as u16;
        proof {
            let longer = text@.subrange(first as int, at + 1);
            assert(longer.drop_last() =~= text@.subrange(first as int, at as int));
            assert(longer.last() == byte);
            assert(digits.subrange(0, at + 1 - first) =~= longer);
            assert forall|i: int| 0 <= i < longer.len() implies is_digit(#[trigger] longer[i]) by {
                if i < longer.len() - 1 {
                    assert(longer[i] == text@.subrange(first as int, at as int)[i]);
                }
            }
            if all_digits(digits) {
                lemma_prefix_value(digits, at + 1 - first);
            }
        }
        if next > 255 {
            return None;
        }
        acc = next;
        at += 1;
    }
    proof {
        assert(text@.subrange(first as int, at as int) =~= digits);
    }
    Some(acc as u8)
}

impl CliColor {
    /// The channels as (alpha, red, green, blue).
    pub closed spec fn view(&self) -> (u8, u8, u8, u8) {
        self.color
    }

    pub fn new(a: u8, r: u8, g: u8, b: u8) -> (color: Self)
        ensures
            color@ == (a, r, g, b),
    {
        CliColor { color: (a, r, g, b) }
    }

    /// The channels as (alpha, red, green, blue).
    pub fn channels(&self) -> (argb: (u8, u8, u8, u8))
        ensures
            argb == self@,
    {
        self.color
    }

    /// Reads a colour from its textual form, `alpha,red,green,blue`. A field
    /// that is no number from 0 to 255 is an error, whatever the number of
    /// fields; else any number of fields but four is an error.
    pub fn from_str(s: &str) -> (result: Result<CliColor, CliColorErr>)
        ensures
            match result {
                Ok(color) => channel_values(fields(s.spec_bytes())) matches Some(values) && values.len() == 4
                    && color@ == (values[0], values[1], values[2], values[3]),
                Err(CliColorErr::ParseValueError(text)) => channel_values(fields(s.spec_bytes())) is None
                    && text@ == s@,
                Err(CliColorErr::NotEnoughValuesError(count)) => channel_values(fields(s.spec_bytes())) matches Some(
                    values,
                ) && values.len() != 4 && count == values.len(),
            },
    {
        let text = s.as_bytes();
        let mut values: Vec<u8> = Vec::new();
        let mut start: usize = 0;
        let mut at: usize = 0;
        let ghost mut done: Seq<Seq<u8>> = Seq::empty();
        proof {
            assert(done + fields_scan(text@, 0, 0) =~= fields(text@));
        }
        while at < text.len()
            invariant
                text@ == s.spec_bytes(),
                start <= at <= text@.len(),
                fields(text@) == done + fields_scan(text@, start as int, at as int),
                values@.len() == done.len(),
                forall|k: int| 0 <= k < done.len() ==> #[trigger] field_value(done[k]) == Some(values@[k]),
            decreases text@.len() - at,
        {
            if text[at] == COMMA {
                let ghost field = text@.subrange(start as int, at as int);
                let ghost rest = fields_scan(text@, at + 1, at + 1);
                proof {
                    assert(fields(text@) =~= done.push(field) + rest);
                    assert(fields(text@)[done.len() as int] == field);
                }
                match parse_channel(text, start, at) {
                    Some(value) => values.push(value),
                    None => {
                        return Err(CliColorErr::ParseValueError(s.to_owned()));
                    },
                }
                proof {
                    done = done.push(field);
                }
                start = at + 1;
            }
            at += 1;
        }
        let ghost last = text@.subrange(start as int, text@.len() as int);
        proof {
            assert(fields(text@) =~= done.push(last));
            assert(fields(text@)[done.len() as int] == last);
        }
        match parse_channel(text, start, text.len()) {
            Some(value) => values.push(value),
            None => {
                return Err(CliColorErr::ParseValueError(s.to_owned()));
            },
        }
        proof {
            done = done.push(last);
            assert(channel_values(fields(text@)) matches Some(v) && v =~= values@);
        }
        if values.len() == 4 {
            Ok(CliColor::new(values[0], values[1], values[2], values[3]))
        } else {
            Err(CliColorErr::NotEnoughValuesError(values.len()))
        }
    }
}

} // verus!
