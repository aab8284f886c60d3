use vstd::prelude::*;

use crate::object_type::{type_of_name, ObjectType};
use crate::objects::{
    all_wf, default_ranges, range_models, seed_models, valid_bounds, ObjectRange, RangeModel,
};
use crate::text::{
    char_seqs, chars_eq_str, i64_of, lines_of, parse_i64, split_lines, split_words,
    string_from_chars, words_of,
};

verus! {

/// How many lines after the section's start marker are a header, skipped unread.
pub const HEADER_LINES: u64 = 5;

/// Why a license report could not be read.
#[derive(Debug, Clone, Copy, PartialEq, Eq, Structural)]
pub enum LicenseError {
    /// No line reads `Object Assignment`.
    MissingSectionStart,
    /// After the section's start, no line reads `Module Objects and Permissions`.
    MissingSectionEnd,
    /// A row of the section does not hold exactly five words.
    RowFormat,
    /// A row names an unknown object type.
    UnknownType,
    /// A row's bounds are not integers that fit in an `i64`.
    InvalidNumber,
    /// A row's lower bound exceeds its upper bound, or it covers more ids than an
    /// `i64` counts.
    InvalidRange,
}

/// Where the scan of a license report stands.
#[derive(Debug, Clone, Copy, PartialEq, Eq, Structural)]
pub enum ScanState {
    /// Looking for the line `Object Assignment`.
    SeekingStart,
    /// Skipping the header; the number of its lines still to skip.
    SkippingHeader(u64),
    /// Reading rows until the line `Module Objects and Permissions`.
    CollectingRows,
    /// The section has ended; the rest of the report is ignored.
    Finished,
}

/// The state after reading `line` in `state`.
pub open spec fn next_state(state: ScanState, line: Seq<char>) -> ScanState {
    match state {
        ScanState::SeekingStart => if line == "Object Assignment"@ {
            ScanState::SkippingHeader(HEADER_LINES)
        } else {
            ScanState::SeekingStart
        },
        ScanState::SkippingHeader(n) => if n <= 1 {
            ScanState::CollectingRows
        } else {
            ScanState::SkippingHeader((n - 1) as u64)
        },
        ScanState::CollectingRows => if line == "Module Objects and Permissions"@ {
            ScanState::Finished
        } else {
            ScanState::CollectingRows
        },
        ScanState::Finished => ScanState::Finished,
    }
}

/// Whether `line`, read in `state`, is a row that grants a range.
pub open spec fn is_row(state: ScanState, line: Seq<char>) -> bool {
    state == ScanState::CollectingRows && line != "Module Objects and Permissions"@ && line.len() > 0
}

/// The range that a row grants: five words, which are the type's name, a count
/// that is not trusted, the two bounds and the permission codes.
pub open spec fn row_model(line: Seq<char>) -> Result<RangeModel, LicenseError> {
    let w = words_of(line);
    if w.len() != 5 {
        Err(LicenseError::RowFormat)
    } else {
        match type_of_name(w[0]) {
            None => Err(LicenseError::UnknownType),
            Some(t) => match (i64_of(w[2]), i64_of(w[3])) {
                (Some(a), Some(b)) => if valid_bounds(a as int, b as int) {
                    Ok(RangeModel { object_type: t, range_from: a as int, range_to: b as int, permission: w[4] })
                } else {
                    Err(LicenseError::InvalidRange)
                },
                _ => Err(LicenseError::InvalidNumber),
            },
        }
    }
}

/// The ranges after reading `lines` in `state`, with `found` read before. Every
/// row's error ends the scan; at the end of the text the section must be over.
pub open spec fn scan(state: ScanState, lines: Seq<Seq<char>>, found: Seq<RangeModel>)
    -> Result<Seq<RangeModel>, LicenseError>
    decreases lines.len(),
{
    if lines.len() == 0 {
        match state {
            ScanState::SeekingStart => Err(LicenseError::MissingSectionStart),
            ScanState::Finished => Ok(found),
            _ => Err(LicenseError::MissingSectionEnd),
        }
    } else {
        let line = lines[0];
        let next = next_state(state, line);
        if is_row(state, line) {
            match row_model(line) {
                Ok(r) => scan(next, lines.drop_first(), found.push(r)),
                Err(e) => Err(e),
            }
        } else {
            scan(next, lines.drop_first(), found)
        }
    }
}

/// The ranges that a license report grants: the built-in ones, then those of the
/// report's rows in their order.
pub open spec fn license_ranges(text: Seq<char>) -> Result<Seq<RangeModel>, LicenseError> {
    scan(ScanState::SeekingStart, lines_of(text), seed_models())
}

impl ScanState {
    /// The state after reading `line`, and whether `line` is a row to parse.
    pub fn step(&self, line: &[char]) -> (r: (ScanState, bool))
        ensures
            r.0 == next_state(*self, line@),
            r.1 == is_row(*self, line@),
    {
        match self {
            ScanState::SeekingStart => if chars_eq_str(line, "Object Assignment") {
                (ScanState::SkippingHeader(HEADER_LINES), false)
            } else {
                (ScanState::SeekingStart, false)
            },
            ScanState::SkippingHeader(n) => if *n <= 1 {
                (ScanState::CollectingRows, false)
            } else {
                (ScanState::SkippingHeader(*n - 1), false)
            },
            ScanState::CollectingRows => if chars_eq_str(line, "Module Objects and Permissions") {
                (ScanState::Finished, false)
            } else {
                (ScanState::CollectingRows, line.len() > 0)
            },
            ScanState::Finished => (ScanState::Finished, false),
        }
    }
}

/// The range that a row grants (see `row_model`).
pub fn parse_row(line: &[char]) -> (r: Result<ObjectRange, LicenseError>)
    ensures
        match r {
            Ok(x) => row_model(line@) == Ok::<RangeModel, LicenseError>(x@) && x.wf(),
            Err(e) => row_model(line@) == Err::<RangeModel, LicenseError>(e),
        },
{
    let words = split_words(line);
    proof {
        assert(char_seqs(words@).len() == words@.len());
    }
    if words.len() != 5 {
        return Err(LicenseError::RowFormat);
    }
    assert(char_seqs(words@)[0] == words@[0]@);
    assert(char_seqs(words@)[2] == words@[2]@);
    assert(char_seqs(words@)[3] == words@[3]@);
    assert(char_seqs(words@)[4] == words@[4]@);
    let object_type = match ObjectType::parse(words[0].as_slice()) {
        Some(t) => t,
        None => return Err(LicenseError::UnknownType),
    };
    let from = parse_i64(words[2].as_slice());
    let to = parse_i64(words[3].as_slice());
    match (from, to) {
        (Some(a), Some(b)) => {
            if a <= b && (b as i128) - (a as i128) + 1 <= i64::MAX as i128 {
                Ok(ObjectRange::with_type(object_type, a, b, string_from_chars(words[4].as_slice())))
            } else {
                Err(LicenseError::InvalidRange)
            }
        },
        _ => Err(LicenseError::InvalidNumber),
    }
}

/// The ranges that the license report `text` grants (see `license_ranges`).
pub fn parse_license(text: &[char]) -> (r: Result<Vec<ObjectRange>, LicenseError>)
    ensures
        match r {
            Ok(v) => license_ranges(text@) == Ok::<Seq<RangeModel>, LicenseError>(range_models(v@))
                && all_wf(v@),
            Err(e) => license_ranges(text@) == Err::<Seq<RangeModel>, LicenseError>(e),
        },
{
    let lines = split_lines(text);
    let ghost ls = char_seqs(lines@);
    let mut found = default_ranges();
    let mut state = ScanState::SeekingStart;
    let mut i: usize = 0;
    assert(ls.subrange(0, ls.len() as int) =~= ls);
    while i < lines.len()
        invariant
            ls == char_seqs(lines@),
            ls == lines_of(text@),
            i <= lines@.len(),
            all_wf(found@),
            scan(state, ls.subrange(i as int, ls.len() as int), range_models(found@))
                == license_ranges(text@),
        decreases lines.len() - i,
    {
        let line = lines[i].as_slice();
        let ghost rest = ls.subrange(i as int, ls.len() as int);
        assert(rest[0] == line@);
        assert(rest.drop_first() =~= ls.subrange(i + 1, ls.len() as int));
        let (next, row) = state.step(line);
        if row {
            match parse_row(line) {
                Ok(x) => {
                    assert(range_models(found@.push(x)) =~= range_models(found@).push(x@));
                    found.push(x);
                },
                Err(e) => return Err(e),
            }
        }
        state = next;
        i += 1;
    }
    match state {
        ScanState::Finished => Ok(found),
        ScanState::SeekingStart => Err(LicenseError::MissingSectionStart),
        _ => Err(LicenseError::MissingSectionEnd),
    }
}

/// The text that encoding_rs decodes from `b` as Windows-1252.
pub uninterp spec fn windows_1252_text(b: Seq<u8>) -> Seq<char>;

/// Relies on encoding_rs's `Encoding::decode` with `WINDOWS_1252`: the decoded
/// text is a function of the bytes alone (a leading byte order mark picks its own
/// encoding and is dropped; malformed input becomes U+FFFD).
#[verifier::external_body]
fn decode_windows_1252(bytes: &[u8]) -> (r: Vec<char>)
    ensures
        r@ == windows_1252_text(bytes@),
{
    let (text, _, _) = encoding_rs::WINDOWS_1252.decode(bytes);
    text.chars().collect()
}

/// The ranges that a license report granted in Windows-1252 bytes grants.
pub fn read_license(bytes: &[u8]) -> (r: Result<Vec<ObjectRange>, LicenseError>)
    ensures
        match r {
            Ok(v) => license_ranges(windows_1252_text(bytes@))
                == Ok::<Seq<RangeModel>, LicenseError>(range_models(v@)) && all_wf(v@),
            Err(e) => license_ranges(windows_1252_text(bytes@))
                == Err::<Seq<RangeModel>, LicenseError>(e),
        },
{
    let text = decode_windows_1252(bytes);
    parse_license(text.as_slice())
}

} // verus!
