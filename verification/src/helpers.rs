//! Small formatting utilities: identifier generation, human-readable
//! durations, identifier normalization and text truncation.

use vstd::prelude::*;
use crate::strings::alphanumeric_of;
use crate::strings::char_is_alphanumeric;
use crate::strings::i64_to_string;
use crate::strings::int_digits;
use crate::strings::lower_of;
use crate::strings::lowercase;

verus! {

use vstd::string::StrSliceExecFns;
use vstd::string::StringExecFns;
use vstd::string::StringSliceAdditionalSpecFns;

/// Relies on `uuid::Uuid::new_v4` and its hyphenated `Display` form: a fresh
/// random identifier, always 36 characters of hexadecimal digits and
/// hyphens. Nothing more is promised: the value is random.
#[verifier::external_body]
pub fn generate_id() -> (r: String)
    ensures
        r@.len() == 36,
{
    uuid::Uuid::new_v4().to_string()
}

/// The human-readable rendering of a minute count.
pub open spec fn spec_format_minutes(m: int) -> Seq<char> {
    if m < 60 {
        int_digits(m) + " minutos"@
    } else if m < 120 {
        "1 hora y "@ + int_digits(m - 60) + " minutos"@
    } else {
        if m % 60 == 0 {
            int_digits(m / 60) + " horas"@
        } else {
            int_digits(m / 60) + " horas y "@ + int_digits(m % 60) + " minutos"@
        }
    }
}

/// Render a minute count as minutes, or hours and minutes.
pub fn format_minutes_to_human_readable(minutes: i32) -> (r: String)
    ensures
        r@ == spec_format_minutes(minutes as int),
{
    if minutes < 60 {
        let mut s = i64_to_string(minutes as i64);
        s.append(" minutos");
        proof {
            assert(s@ =~= spec_format_minutes(minutes as int));
        }
        s
    } else if minutes < 120 {
        let mut s = "1 hora y ".to_owned();
        let rest = i64_to_string((minutes - 60) as i64);
        s.append(rest.as_str());
        s.append(" minutos");
        proof {
            assert(s@ =~= spec_format_minutes(minutes as int));
        }
        s
    } else {
        let hours = minutes / 60;
        let remaining = minutes % 60;
        let mut s = i64_to_string(hours as i64);
        if remaining == 0 {
            s.append(" horas");
        } else {
            s.append(" horas y ");
            let rest = i64_to_string(remaining as i64);
            s.append(rest.as_str());
            s.append(" minutos");
        }
        proof {
            assert(s@ =~= spec_format_minutes(minutes as int));
        }
        s
    }
}

/// The identifier form of a name: its lowercase folding with every character
/// that is neither alphanumeric nor an underscore removed.
pub open spec fn spec_normalize_name(s: Seq<char>) -> Seq<char> {
    lower_of(s).filter(|c: char| alphanumeric_of(c) || c == '_')
}

/// Normalize a name for use in identifiers: lowercase, alphanumerics and
/// underscores only.
pub fn normalize_name_for_id(name: &str) -> (r: String)
    ensures
        r@ == spec_normalize_name(name@),
{
    let ghost pred = |c: char| alphanumeric_of(c) || c == '_';
    let lowered = lowercase(name);
    let lowered_str = lowered.as_str();
    let len = lowered_str.unicode_len();
    let mut r = String::new();
    let mut i: usize = 0;
    while i < len
        invariant
            0 <= i <= len,
            len == lowered_str@.len(),
            lowered_str@ == lower_of(name@),
            r@ == lowered_str@.take(i as int).filter(pred),
            pred == (|c: char| alphanumeric_of(c) || c == '_'),
        decreases len - i,
    {
        let c = lowered_str.get_char(i);
        proof {
            reveal_with_fuel(Seq::<char>::filter, 2);
            assert(lowered_str@.take(i + 1).drop_last() =~= lowered_str@.take(i as int));
            assert(lowered_str@.take(i + 1).last() == c);
            assert(lowered_str@.take(i + 1).filter(pred) == if pred(c) {
                lowered_str@.take(i as int).filter(pred).push(c)
            } else {
                lowered_str@.take(i as int).filter(pred)
            });
        }
        if char_is_alphanumeric(c) || c == '_' {
            let piece = lowered_str.substring_char(i, i + 1);
            r.append(piece);
            proof {
                assert(r@ =~= lowered_str@.take(i + 1).filter(pred));
            }
        }
        i += 1;
    }
    proof {
        assert(lowered_str@.take(len as int) =~= lowered_str@);
    }
    r
}

/// The byte length of a string slice, as `str::len` reports it.
pub open spec fn byte_len(s: &str) -> usize {
    s.spec_bytes().len() as usize
}

/// The truncated form of a text: unchanged while its byte length fits,
/// otherwise its first `max - 3` characters followed by an ellipsis.
pub open spec fn spec_truncate_text(s: &str, max: int) -> Seq<char> {
    if byte_len(s) <= max {
        s@
    } else {
        let keep = if max - 3 < s@.len() {
            max - 3
        } else {
            s@.len() as int
        };
        s@.take(keep) + "..."@
    }
}

/// Truncate a text to a maximum byte length, marking the cut with an
/// ellipsis. A limit below 3 is only allowed for texts that already fit.
pub fn truncate_text(text: &str, max_length: usize) -> (r: String)
    requires
        byte_len(text) > max_length ==> max_length >= 3,
    ensures
        r@ == spec_truncate_text(text, max_length as int),
{
    if text.len() <= max_length {
        text.to_owned()
    } else {
        let chars = text.unicode_len();
        let keep = if max_length - 3 < chars {
            max_length - 3
        } else {
            chars
        };
        let mut r = text.substring_char(0, keep).to_owned();
        r.append("...");
        proof {
            assert(r@ =~= spec_truncate_text(text, max_length as int));
        }
        r
    }
}

} // verus!
