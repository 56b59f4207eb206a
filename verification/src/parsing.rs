//! Parsing of numeric configuration values, reporting failures through the
//! library's own report trees.

use vstd::prelude::*;

use crate::context::{Context, ContextV, IoFailure};
use crate::report::{NodeV, Report};
use crate::text::{all_digits, check_all_digits, dec_val, is_dec_digit, num_digits, parse_u64};

verus! {

/// Failure cases of `parse_value`.
#[derive(Debug)]
pub enum ParseError {
    InvalidFormat,
    MissingField(String),
}

#[verifier::ext_equal]
pub ghost enum ParseErrorV {
    InvalidFormat,
    MissingField(Seq<char>),
}

impl View for ParseError {
    type V = ParseErrorV;

    open spec fn view(&self) -> ParseErrorV {
        match self {
            ParseError::InvalidFormat => ParseErrorV::InvalidFormat,
            ParseError::MissingField(f) => ParseErrorV::MissingField(f@),
        }
    }
}

impl Clone for ParseError {
    fn clone(&self) -> (r: Self)
        ensures
            r@ == self@,
    {
        match self {
            ParseError::InvalidFormat => ParseError::InvalidFormat,
            ParseError::MissingField(f) => ParseError::MissingField(f.clone()),
        }
    }
}

/// The display message of a `ParseError`.
pub open spec fn parse_error_message(e: ParseErrorV) -> Seq<char> {
    match e {
        ParseErrorV::InvalidFormat => "Invalid format"@,
        ParseErrorV::MissingField(f) => "Missing required field: "@ + f,
    }
}

impl ParseError {
    /// The human-readable display text of this failure.
    pub fn message(&self) -> (r: String)
        ensures
            r@ == parse_error_message(self@),
    {
        match self {
            ParseError::InvalidFormat => String::from_str("Invalid format"),
            ParseError::MissingField(f) => String::from_str("Missing required field: ").concat(
                f.as_str(),
            ),
        }
    }
}

/// A string is accepted as a `u32` when it is all digits, non-empty, and in
/// range.
pub open spec fn parses_to_u32(s: Seq<char>) -> bool {
    s.len() > 0 && all_digits(s) && dec_val(s) <= u32::MAX
}

/// The report `parse_value` returns for a rejected input: an empty input or
/// one with a non-digit is an invalid format (the latter annotated with the
/// offending input); a numeric overflow is reported as a missing value.
pub open spec fn parse_value_error(s: Seq<char>) -> NodeV {
    if s.len() == 0 {
        NodeV {
            context: ContextV::Parse(ParseErrorV::InvalidFormat),
            attachments: Seq::<Seq<char>>::empty(),
            children: Seq::<NodeV>::empty(),
        }
    } else if !all_digits(s) {
        NodeV {
            context: ContextV::Parse(ParseErrorV::InvalidFormat),
            attachments: seq!["Input: "@ + s],
            children: Seq::<NodeV>::empty(),
        }
    } else {
        NodeV {
            context: ContextV::Parse(ParseErrorV::MissingField("value"@)),
            attachments: Seq::<Seq<char>>::empty(),
            children: Seq::<NodeV>::empty(),
        }
    }
}

/// Parse a numeric configuration value. Empty input and non-digit input are
/// rejected as invalid format; a value too large for the result type is
/// reported as a missing value, as the original numeric conversion would
/// have failed.
pub fn parse_value(input: &str) -> (r: Result<u32, Report<Context>>)
    ensures
        (r is Ok <==> parses_to_u32(input@)),
        (r matches Ok(v) ==> v as nat == dec_val(input@)),
        (r matches Err(rep) ==> rep@ == parse_value_error(input@)),
{
    if input.unicode_len() == 0 {
        return Err(Report::new(Context::Parse(ParseError::InvalidFormat)));
    }
    if !check_all_digits(input) {
        let msg = String::from_str("Input: ").concat(input);
        let rep = Report::new(Context::Parse(ParseError::InvalidFormat)).attach(msg.as_str());
        proof {
            assert(rep@.attachments =~= seq!["Input: "@ + input@]);
            assert(rep@ =~= parse_value_error(input@));
        }
        return Err(rep);
    }
    proof {
        // every character is a digit, so there is no leading sign to strip
        assert(is_dec_digit(input@[0]));
        assert(input@[0] != '+');
        assert(num_digits(input@) =~= input@);
    }
    match parse_u64(input) {
        Some(v) => {
            if v <= 0xffff_ffffu64 {
                Ok(v as u32)
            } else {
                Err(Report::new(Context::Parse(ParseError::MissingField(String::from_str("value")))))
            }
        },
        None => {
            proof {
                assert(dec_val(input@) > u64::MAX);
            }
            Err(Report::new(Context::Parse(ParseError::MissingField(String::from_str("value")))))
        },
    }
}

/// Wrap a failed file read into a report: the platform failure becomes the
/// root context of a single-node tree, annotated with the path that could
/// not be read. The caller performs the read and hands in the failure as a
/// plain value.
pub fn read_failure_report(failure: IoFailure, path: &str) -> (r: Report<Context>)
    ensures
        r@ == (NodeV {
            context: ContextV::Io(failure@),
            attachments: seq!["Path: "@ + path@],
            children: Seq::<NodeV>::empty(),
        }),
{
    let msg = String::from_str("Path: ").concat(path);
    let rep = Report::new(Context::Io(failure)).attach(msg.as_str());
    proof {
        assert(rep@.attachments =~= seq!["Path: "@ + path@]);
    }
    rep
}

} // verus!
