//! Errors raised while validating CPE attribute values.

use vstd::prelude::*;

verus! {

/// An enumeration containing all CPE validation errors.
///
/// Every error is a local validation failure returned to the caller; no
/// function of this library panics on malformed input.
#[derive(Clone, Copy, Debug, PartialEq, Eq, Structural)]
pub enum CpeError {
    /// The candidate attribute string had zero length.
    EmptyValue,
    /// The candidate attribute string contained a whitespace character.
    ContainsWhitespace,
    /// The candidate attribute string was exactly the two-character
    /// quoted-hyphen sequence (backslash followed by hyphen) and nothing else.
    QuotedHyphenOnly,
    /// The candidate did not match any accepted token for a
    /// closed-enumeration attribute.
    InvalidValueError,
}

/// The wording of each error, for callers that present errors as text.
pub open spec fn error_text(e: CpeError) -> Seq<char> {
    match e {
        CpeError::EmptyValue => seq!['e', 'm', 'p', 't', 'y', ' ', 'v', 'a', 'l', 'u', 'e'],
        CpeError::ContainsWhitespace => seq![
            'c', 'o', 'n', 't', 'a', 'i', 'n', 's', ' ', 'w', 'h', 'i', 't', 'e', 's', 'p', 'a',
            'c', 'e',
        ],
        CpeError::QuotedHyphenOnly => seq![
            'q', 'u', 'o', 't', 'e', 'd', ' ', 'h', 'y', 'p', 'h', 'e', 'n', ' ', 'o', 'n', 'l',
            'y',
        ],
        CpeError::InvalidValueError => seq![
            'A', 'n', ' ', 'i', 'n', 'v', 'a', 'l', 'i', 'd', ' ', 'v', 'a', 'l', 'u', 'e', ' ',
            'w', 'a', 's', ' ', 'f', 'o', 'u', 'n', 'd',
        ],
    }
}

impl CpeError {
    /// A short human-readable description of the error.
    pub fn message(&self) -> (r: String)
        ensures
            r@ == error_text(*self),
    {
        match self {
            CpeError::EmptyValue => {
                proof {
                    reveal_strlit("empty value");
                }
                let s = String::from_str("empty value");
                proof {
                    assert(s@ =~= error_text(CpeError::EmptyValue));
                }
                s
            },
            CpeError::ContainsWhitespace => {
                proof {
                    reveal_strlit("contains whitespace");
                }
                let s = String::from_str("contains whitespace");
                proof {
                    assert(s@ =~= error_text(CpeError::ContainsWhitespace));
                }
                s
            },
            CpeError::QuotedHyphenOnly => {
                proof {
                    reveal_strlit("quoted hyphen only");
                }
                let s = String::from_str("quoted hyphen only");
                proof {
                    assert(s@ =~= error_text(CpeError::QuotedHyphenOnly));
                }
                s
            },
            CpeError::InvalidValueError => {
                proof {
                    reveal_strlit("An invalid value was found");
                }
                let s = String::from_str("An invalid value was found");
                proof {
                    assert(s@ =~= error_text(CpeError::InvalidValueError));
                }
                s
            },
        }
    }
}

} // verus!
