//! The value domain shared by every WFN attribute, and its payload types.
//!
//! Every attribute of a Well-Formed CPE Name holds an [`AttributeValue`]:
//! either no value at all, the logical wildcard ANY, the logical sentinel
//! NA, or a concrete payload. Free-text attributes carry an
//! [`AttributeString`], a wrapper that can only be built through a fallible
//! validating constructor; the `part` attribute carries a [`Part`], a closed
//! enumeration.

use vstd::prelude::*;

use super::error::CpeError;

verus! {

/// Whether a character counts as whitespace under the attribute-string
/// rules: the characters carrying the Unicode `White_Space` property.
pub open spec fn is_wfn_whitespace(c: char) -> bool {
    ||| c == '\u{0009}'
    ||| c == '\u{000A}'
    ||| c == '\u{000B}'
    ||| c == '\u{000C}'
    ||| c == '\u{000D}'
    ||| c == ' '
    ||| c == '\u{0085}'
    ||| c == '\u{00A0}'
    ||| c == '\u{1680}'
    ||| c == '\u{2000}'
    ||| c == '\u{2001}'
    ||| c == '\u{2002}'
    ||| c == '\u{2003}'
    ||| c == '\u{2004}'
    ||| c == '\u{2005}'
    ||| c == '\u{2006}'
    ||| c == '\u{2007}'
    ||| c == '\u{2008}'
    ||| c == '\u{2009}'
    ||| c == '\u{200A}'
    ||| c == '\u{2028}'
    ||| c == '\u{2029}'
    ||| c == '\u{202F}'
    ||| c == '\u{205F}'
    ||| c == '\u{3000}'
}

fn char_is_wfn_whitespace(c: char) -> (r: bool)
    ensures
        r == is_wfn_whitespace(c),
{
    c == '\u{0009}' || c == '\u{000A}' || c == '\u{000B}' || c == '\u{000C}' || c == '\u{000D}'
        || c == ' ' || c == '\u{0085}' || c == '\u{00A0}' || c == '\u{1680}' || c == '\u{2000}'
        || c == '\u{2001}' || c == '\u{2002}' || c == '\u{2003}' || c == '\u{2004}'
        || c == '\u{2005}' || c == '\u{2006}' || c == '\u{2007}' || c == '\u{2008}'
        || c == '\u{2009}' || c == '\u{200A}' || c == '\u{2028}' || c == '\u{2029}'
        || c == '\u{202F}' || c == '\u{205F}' || c == '\u{3000}'
}

/// Whether no position of `s` holds a whitespace character.
pub open spec fn free_of_whitespace(s: Seq<char>) -> bool {
    forall|i: int| 0 <= i < s.len() ==> !is_wfn_whitespace(#[trigger] s[i])
}

/// The degenerate quoted-hyphen string: a backslash followed by a hyphen,
/// standing alone as the entire value.
pub open spec fn quoted_hyphen() -> Seq<char> {
    seq!['\\', '-']
}

/// The lexical rules a concrete attribute string must satisfy: non-empty,
/// free of whitespace, and not the quoted-hyphen sequence standing alone.
pub open spec fn valid_attribute_string(s: Seq<char>) -> bool {
    &&& s.len() > 0
    &&& free_of_whitespace(s)
    &&& s != quoted_hyphen()
}

/// The error an invalid candidate is rejected with: emptiness first, then
/// whitespace, then the lone quoted hyphen. The three conditions are
/// mutually exclusive, so the order only settles which impossible case is
/// never reported.
pub open spec fn string_validation_error(s: Seq<char>) -> CpeError {
    if s.len() == 0 {
        CpeError::EmptyValue
    } else if !free_of_whitespace(s) {
        CpeError::ContainsWhitespace
    } else {
        CpeError::QuotedHyphenOnly
    }
}

/// A validated free-text attribute payload.
///
/// The only way to obtain an instance is [`AttributeString::construct`],
/// which checks the lexical rules; every instance therefore satisfies
/// [`valid_attribute_string`] and is never re-checked afterwards.
#[derive(Debug, PartialEq, Eq)]
pub struct AttributeString {
    value: String,
}

impl View for AttributeString {
    type V = Seq<char>;

    closed spec fn view(&self) -> Seq<char> {
        self.value@
    }
}

impl AttributeString {
    #[verifier::type_invariant]
    spec fn inv(self) -> bool {
        valid_attribute_string(self.value@)
    }

    /// Validates `candidate` and wraps it.
    ///
    /// Succeeds exactly when the candidate is non-empty, holds no
    /// whitespace character, and is not the lone quoted-hyphen sequence;
    /// otherwise returns the error kind naming the first rule violated.
    pub fn construct(candidate: &str) -> (r: Result<AttributeString, CpeError>)
        ensures
            valid_attribute_string(candidate@) ==> (r matches Ok(a) && a@ == candidate@),
            !valid_attribute_string(candidate@) ==> r == Err::<AttributeString, CpeError>(
                string_validation_error(candidate@),
            ),
    {
        let n = candidate.unicode_len();
        if n == 0 {
            return Err(CpeError::EmptyValue);
        }
        let mut i: usize = 0;
        while i < n
            invariant
                n == candidate@.len(),
                0 <= i <= n,
                forall|j: int| 0 <= j < i ==> !is_wfn_whitespace(#[trigger] candidate@[j]),
            decreases n - i,
        {
            if char_is_wfn_whitespace(candidate.get_char(i)) {
                proof {
                    assert(!free_of_whitespace(candidate@));
                }
                return Err(CpeError::ContainsWhitespace);
            }
            i += 1;
        }
        if n == 2 {
            let c0 = candidate.get_char(0);
            let c1 = candidate.get_char(1);
            if c0 == '\\' && c1 == '-' {
                proof {
                    assert(candidate@ =~= quoted_hyphen());
                }
                return Err(CpeError::QuotedHyphenOnly);
            }
        }
        proof {
            if candidate@ == quoted_hyphen() {
                assert(candidate@.len() == 2);
                assert(candidate@[0] == '\\');
                assert(candidate@[1] == '-');
            }
        }
        Ok(AttributeString { value: candidate.to_owned() })
    }

    /// The validated contents.
    pub fn text(&self) -> (r: &str)
        ensures
            r@ == self@,
            valid_attribute_string(self@),
    {
        proof {
            use_type_invariant(self);
        }
        self.value.as_str()
    }
}

/// The `part` attribute of a WFN: the class of product being named.
///
/// Each variant has a canonical single-lowercase-character textual form,
/// accepted case-insensitively on input and always rendered in lower case.
#[derive(Clone, Copy, Debug, PartialEq, Eq, Structural)]
pub enum Part {
    /// An application (`a`).
    Application,
    /// An operating system (`o`).
    OperatingSystem,
    /// A hardware device (`h`).
    Hardware,
}

/// The `Part` a candidate token names, if any: exactly the single
/// characters `a`/`A`, `o`/`O` and `h`/`H` are accepted.
pub open spec fn part_token(s: Seq<char>) -> Option<Part> {
    if s.len() == 1 {
        if s[0] == 'a' || s[0] == 'A' {
            Some(Part::Application)
        } else if s[0] == 'o' || s[0] == 'O' {
            Some(Part::OperatingSystem)
        } else if s[0] == 'h' || s[0] == 'H' {
            Some(Part::Hardware)
        } else {
            None::<Part>
        }
    } else {
        None::<Part>
    }
}

/// The canonical textual form of a part: a single lowercase character.
pub open spec fn part_text(p: Part) -> Seq<char> {
    match p {
        Part::Application => seq!['a'],
        Part::OperatingSystem => seq!['o'],
        Part::Hardware => seq!['h'],
    }
}

impl Part {
    /// Parses a part token, case-insensitively: `a`/`A`, `o`/`O` or
    /// `h`/`H`. Every other input fails with
    /// [`CpeError::InvalidValueError`].
    pub fn parse(candidate: &str) -> (r: Result<Part, CpeError>)
        ensures
            match part_token(candidate@) {
                Some(p) => r == Ok::<Part, CpeError>(p),
                None => r == Err::<Part, CpeError>(CpeError::InvalidValueError),
            },
    {
        let n = candidate.unicode_len();
        if n != 1 {
            return Err(CpeError::InvalidValueError);
        }
        let c = candidate.get_char(0);
        if c == 'a' || c == 'A' {
            Ok(Part::Application)
        } else if c == 'o' || c == 'O' {
            Ok(Part::OperatingSystem)
        } else if c == 'h' || c == 'H' {
            Ok(Part::Hardware)
        } else {
            Err(CpeError::InvalidValueError)
        }
    }

    /// The canonical textual form: always the lowercase character, whatever
    /// the case of the parsed token was.
    pub fn canonical_text(&self) -> (r: String)
        ensures
            r@ == part_text(*self),
    {
        match self {
            Part::Application => {
                proof {
                    reveal_strlit("a");
                }
                let s = String::from_str("a");
                proof {
                    assert(s@ =~= seq!['a']);
                }
                s
            },
            Part::OperatingSystem => {
                proof {
                    reveal_strlit("o");
                }
                let s = String::from_str("o");
                proof {
                    assert(s@ =~= seq!['o']);
                }
                s
            },
            Part::Hardware => {
                proof {
                    reveal_strlit("h");
                }
                let s = String::from_str("h");
                proof {
                    assert(s@ =~= seq!['h']);
                }
                s
            },
        }
    }
}

/// The four-way value domain shared by every WFN attribute.
#[derive(Debug, PartialEq, Eq)]
pub enum AttributeValue<T> {
    /// The attribute was never assigned; omitted from any printed form,
    /// but treated like ANY by consumers that reason about matching.
    Unspecified,
    /// The explicit logical wildcard: no restriction on this attribute.
    Any,
    /// The explicit logical sentinel: this attribute has no meaningful
    /// value for the product.
    NotApplicable,
    /// A concrete, validated payload.
    Value(T),
}

/// Whether a candidate is the logical-value token `any`, compared
/// case-insensitively.
pub open spec fn matches_any_token(s: Seq<char>) -> bool {
    &&& s.len() == 3
    &&& (s[0] == 'a' || s[0] == 'A')
    &&& (s[1] == 'n' || s[1] == 'N')
    &&& (s[2] == 'y' || s[2] == 'Y')
}

/// Whether a candidate is the logical-value token `na`, compared
/// case-insensitively.
pub open spec fn matches_na_token(s: Seq<char>) -> bool {
    &&& s.len() == 2
    &&& (s[0] == 'n' || s[0] == 'N')
    &&& (s[1] == 'a' || s[1] == 'A')
}

pub(crate) fn is_any_token(s: &str) -> (r: bool)
    ensures
        r == matches_any_token(s@),
{
    let n = s.unicode_len();
    if n != 3 {
        return false;
    }
    let c0 = s.get_char(0);
    let c1 = s.get_char(1);
    let c2 = s.get_char(2);
    (c0 == 'a' || c0 == 'A') && (c1 == 'n' || c1 == 'N') && (c2 == 'y' || c2 == 'Y')
}

pub(crate) fn is_na_token(s: &str) -> (r: bool)
    ensures
        r == matches_na_token(s@),
{
    let n = s.unicode_len();
    if n != 2 {
        return false;
    }
    let c0 = s.get_char(0);
    let c1 = s.get_char(1);
    (c0 == 'n' || c0 == 'N') && (c1 == 'a' || c1 == 'A')
}

/// What one `set` call on a free-text attribute does: the relation between
/// the slot's prior value, its next value, the candidate text, and the
/// result handed back.
///
/// The ANY/NA tokens take precedence over payload validation; a candidate
/// that is neither token is validated, and on failure the slot keeps its
/// prior value.
pub open spec fn string_slot_outcome(
    prior: AttributeValue<AttributeString>,
    next: AttributeValue<AttributeString>,
    cand: Seq<char>,
    r: Result<(), CpeError>,
) -> bool {
    if matches_any_token(cand) {
        &&& r == Ok::<(), CpeError>(())
        &&& next == AttributeValue::<AttributeString>::Any
    } else if matches_na_token(cand) {
        &&& r == Ok::<(), CpeError>(())
        &&& next == AttributeValue::<AttributeString>::NotApplicable
    } else if valid_attribute_string(cand) {
        &&& r == Ok::<(), CpeError>(())
        &&& next matches AttributeValue::Value(a) && a@ == cand
    } else {
        &&& r == Err::<(), CpeError>(string_validation_error(cand))
        &&& next == prior
    }
}

/// What one `set` call on the `part` attribute does, with the same ANY/NA
/// precedence as for free-text attributes.
pub open spec fn part_slot_outcome(
    prior: AttributeValue<Part>,
    next: AttributeValue<Part>,
    cand: Seq<char>,
    r: Result<(), CpeError>,
) -> bool {
    if matches_any_token(cand) {
        &&& r == Ok::<(), CpeError>(())
        &&& next == AttributeValue::<Part>::Any
    } else if matches_na_token(cand) {
        &&& r == Ok::<(), CpeError>(())
        &&& next == AttributeValue::<Part>::NotApplicable
    } else {
        match part_token(cand) {
            Some(p) => {
                &&& r == Ok::<(), CpeError>(())
                &&& next == AttributeValue::<Part>::Value(p)
            },
            None => {
                &&& r == Err::<(), CpeError>(CpeError::InvalidValueError)
                &&& next == prior
            },
        }
    }
}

/// Turns a candidate into the value a free-text slot should hold, or the
/// error the slot assignment must report.
pub(crate) fn string_slot_value(candidate: &str) -> (r: Result<
    AttributeValue<AttributeString>,
    CpeError,
>)
    ensures
        matches_any_token(candidate@) ==> r == Ok::<AttributeValue<AttributeString>, CpeError>(
            AttributeValue::Any,
        ),
        !matches_any_token(candidate@) && matches_na_token(candidate@) ==> r == Ok::<
            AttributeValue<AttributeString>,
            CpeError,
        >(AttributeValue::NotApplicable),
        !matches_any_token(candidate@) && !matches_na_token(candidate@) && valid_attribute_string(
            candidate@,
        ) ==> (r matches Ok(v) && v matches AttributeValue::Value(a) && a@ == candidate@),
        !matches_any_token(candidate@) && !matches_na_token(candidate@) && !valid_attribute_string(
            candidate@,
        ) ==> r == Err::<AttributeValue<AttributeString>, CpeError>(
            string_validation_error(candidate@),
        ),
{
    if is_any_token(candidate) {
        Ok(AttributeValue::Any)
    } else if is_na_token(candidate) {
        Ok(AttributeValue::NotApplicable)
    } else {
        match AttributeString::construct(candidate) {
            Ok(a) => Ok(AttributeValue::Value(a)),
            Err(e) => Err(e),
        }
    }
}

/// Turns a candidate into the value the `part` slot should hold, or the
/// error the slot assignment must report.
pub(crate) fn part_slot_value(candidate: &str) -> (r: Result<AttributeValue<Part>, CpeError>)
    ensures
        matches_any_token(candidate@) ==> r == Ok::<AttributeValue<Part>, CpeError>(
            AttributeValue::Any,
        ),
        !matches_any_token(candidate@) && matches_na_token(candidate@) ==> r == Ok::<
            AttributeValue<Part>,
            CpeError,
        >(AttributeValue::NotApplicable),
        !matches_any_token(candidate@) && !matches_na_token(candidate@) ==> r == (match part_token(
            candidate@,
        ) {
            Some(p) => Ok::<AttributeValue<Part>, CpeError>(AttributeValue::Value(p)),
            None => Err::<AttributeValue<Part>, CpeError>(CpeError::InvalidValueError),
        }),
{
    if is_any_token(candidate) {
        Ok(AttributeValue::Any)
    } else if is_na_token(candidate) {
        Ok(AttributeValue::NotApplicable)
    } else {
        match Part::parse(candidate) {
            Ok(p) => Ok(AttributeValue::Value(p)),
            Err(e) => Err(e),
        }
    }
}

/// How a free-text slot presents itself: nothing when unset, the token
/// `ANY` or `NA` for the logical values, the validated contents otherwise.
pub open spec fn string_slot_text(v: AttributeValue<AttributeString>) -> Option<Seq<char>> {
    match v {
        AttributeValue::Unspecified => None::<Seq<char>>,
        AttributeValue::Any => Some(seq!['A', 'N', 'Y']),
        AttributeValue::NotApplicable => Some(seq!['N', 'A']),
        AttributeValue::Value(a) => Some(a@),
    }
}

/// How the `part` slot presents itself: nothing when unset, the token
/// `ANY` or `NA` for the logical values, the canonical lowercase character
/// otherwise.
pub open spec fn part_slot_text(v: AttributeValue<Part>) -> Option<Seq<char>> {
    match v {
        AttributeValue::Unspecified => None::<Seq<char>>,
        AttributeValue::Any => Some(seq!['A', 'N', 'Y']),
        AttributeValue::NotApplicable => Some(seq!['N', 'A']),
        AttributeValue::Value(p) => Some(part_text(p)),
    }
}

/// Renders a free-text slot, following [`string_slot_text`].
pub fn string_slot_string(v: &AttributeValue<AttributeString>) -> (r: Option<String>)
    ensures
        match string_slot_text(*v) {
            Some(t) => r matches Some(s) && s@ == t,
            None => r is None,
        },
{
    match v {
        AttributeValue::Unspecified => None,
        AttributeValue::Any => {
            proof {
                reveal_strlit("ANY");
            }
            let s = String::from_str("ANY");
            proof {
                assert(s@ =~= seq!['A', 'N', 'Y']);
            }
            Some(s)
        },
        AttributeValue::NotApplicable => {
            proof {
                reveal_strlit("NA");
            }
            let s = String::from_str("NA");
            proof {
                assert(s@ =~= seq!['N', 'A']);
            }
            Some(s)
        },
        AttributeValue::Value(a) => Some(String::from_str(a.text())),
    }
}

/// Renders the `part` slot, following [`part_slot_text`].
pub fn part_slot_string(v: &AttributeValue<Part>) -> (r: Option<String>)
    ensures
        match part_slot_text(*v) {
            Some(t) => r matches Some(s) && s@ == t,
            None => r is None,
        },
{
    match v {
        AttributeValue::Unspecified => None,
        AttributeValue::Any => {
            proof {
                reveal_strlit("ANY");
            }
            let s = String::from_str("ANY");
            proof {
                assert(s@ =~= seq!['A', 'N', 'Y']);
            }
            Some(s)
        },
        AttributeValue::NotApplicable => {
            proof {
                reveal_strlit("NA");
            }
            let s = String::from_str("NA");
            proof {
                assert(s@ =~= seq!['N', 'A']);
            }
            Some(s)
        },
        AttributeValue::Value(p) => Some(p.canonical_text()),
    }
}

/// An empty candidate is always rejected as [`CpeError::EmptyValue`].
pub proof fn lemma_empty_candidate_rejected(s: Seq<char>)
    requires
        s.len() == 0,
    ensures
        !valid_attribute_string(s),
        string_validation_error(s) == CpeError::EmptyValue,
{
}

/// A candidate holding a whitespace character at any position is rejected
/// as [`CpeError::ContainsWhitespace`].
pub proof fn lemma_whitespace_candidate_rejected(s: Seq<char>, i: int)
    requires
        0 <= i < s.len(),
        is_wfn_whitespace(s[i]),
    ensures
        !valid_attribute_string(s),
        string_validation_error(s) == CpeError::ContainsWhitespace,
{
    assert(!free_of_whitespace(s)) by {
        if free_of_whitespace(s) {
            assert(!is_wfn_whitespace(s[i]));
        }
    }
}

/// Display suppression law: a free-text slot presents text exactly when it
/// is set; an unspecified slot is the only one that renders absent.
pub proof fn lemma_string_slot_text_present(v: AttributeValue<AttributeString>)
    ensures
        (string_slot_text(v) is Some) <==> !(v is Unspecified),
{
}

/// Display suppression law for the `part` slot: it presents text exactly
/// when it is set.
pub proof fn lemma_part_slot_text_present(v: AttributeValue<Part>)
    ensures
        (part_slot_text(v) is Some) <==> !(v is Unspecified),
{
}

/// The canonical textual form a free-text slot presents after a successful
/// assignment of `cand`: the token `ANY` or `NA` when the candidate named a
/// logical value, the candidate itself otherwise.
pub open spec fn canonical_string_candidate(cand: Seq<char>) -> Seq<char> {
    if matches_any_token(cand) {
        seq!['A', 'N', 'Y']
    } else if matches_na_token(cand) {
        seq!['N', 'A']
    } else {
        cand
    }
}

/// The canonical textual form the `part` slot presents after a successful
/// assignment of `cand`: the token `ANY` or `NA` for a logical value, and
/// the lowercase part character otherwise, whatever the candidate's case.
pub open spec fn canonical_part_candidate(cand: Seq<char>) -> Seq<char> {
    if matches_any_token(cand) {
        seq!['A', 'N', 'Y']
    } else if matches_na_token(cand) {
        seq!['N', 'A']
    } else {
        match part_token(cand) {
            Some(p) => part_text(p),
            None => cand,
        }
    }
}

/// Replacement law: after a successful assignment, a free-text slot is
/// determined by the new candidate alone; nothing of the prior value
/// remains, whichever value the slot held before.
pub proof fn lemma_string_set_replaces(
    prior: AttributeValue<AttributeString>,
    next: AttributeValue<AttributeString>,
    cand: Seq<char>,
)
    requires
        string_slot_outcome(prior, next, cand, Ok::<(), CpeError>(())),
    ensures
        matches_any_token(cand) ==> next == AttributeValue::<AttributeString>::Any,
        !matches_any_token(cand) && matches_na_token(cand) ==> next == AttributeValue::<
            AttributeString,
        >::NotApplicable,
        !matches_any_token(cand) && !matches_na_token(cand) ==> (next matches AttributeValue::Value(
            a,
        ) && a@ == cand),
{
}

/// Replacement law for the `part` slot: after a successful assignment the
/// slot is determined by the new candidate alone.
pub proof fn lemma_part_set_replaces(
    prior: AttributeValue<Part>,
    next: AttributeValue<Part>,
    cand: Seq<char>,
)
    requires
        part_slot_outcome(prior, next, cand, Ok::<(), CpeError>(())),
    ensures
        matches_any_token(cand) ==> next == AttributeValue::<Part>::Any,
        !matches_any_token(cand) && matches_na_token(cand) ==> next == AttributeValue::<
            Part,
        >::NotApplicable,
        !matches_any_token(cand) && !matches_na_token(cand) ==> (part_token(cand) matches Some(p)
            && next == AttributeValue::<Part>::Value(p)),
{
}

/// Round-trip law: reading a free-text slot after a successful assignment
/// yields exactly the canonical textual form of the candidate that was
/// assigned.
pub proof fn lemma_string_set_get_round_trip(
    prior: AttributeValue<AttributeString>,
    next: AttributeValue<AttributeString>,
    cand: Seq<char>,
)
    requires
        string_slot_outcome(prior, next, cand, Ok::<(), CpeError>(())),
    ensures
        string_slot_text(next) == Some(canonical_string_candidate(cand)),
{
}

/// Round-trip law for the `part` slot: reading it after a successful
/// assignment yields the canonical textual form of the candidate, with the
/// part character normalized to lower case.
pub proof fn lemma_part_set_get_round_trip(
    prior: AttributeValue<Part>,
    next: AttributeValue<Part>,
    cand: Seq<char>,
)
    requires
        part_slot_outcome(prior, next, cand, Ok::<(), CpeError>(())),
    ensures
        part_slot_text(next) == Some(canonical_part_candidate(cand)),
{
}

} // verus!
