//! Well-Formed CPE Names (WFN), as defined by NIST Interagency Report 7695,
//! *Common Platform Enumeration: Naming Specification Version 2.3*.
//!
//! A WFN describes a hardware or software product class as a fixed set of
//! named attributes. Each attribute holds an [`AttributeValue`]: unset, the
//! logical wildcard ANY, the logical sentinel NA, or a concrete validated
//! payload. The `part` attribute carries a [`Part`]; the ten free-text
//! attributes carry an [`AttributeString`].
//!
//! Every setter applies the same precedence rule: a candidate that
//! case-insensitively equals `any` or `na` installs the logical value and
//! never reaches the payload validator; anything else is validated by the
//! attribute's payload type. A failed `set` leaves the slot untouched.

use vstd::prelude::*;

use super::attribute::AttributeString;
use super::attribute::AttributeValue;
use super::attribute::Part;
use super::attribute::part_slot_outcome;
use super::attribute::part_slot_string;
use super::attribute::part_slot_text;
use super::attribute::part_slot_value;
use super::attribute::string_slot_outcome;
use super::attribute::string_slot_string;
use super::attribute::string_slot_text;
use super::attribute::string_slot_value;
use super::error::CpeError;

verus! {

/// A Well-Formed CPE Name: one value slot per attribute, in the
/// specification's fixed attribute order.
#[derive(Debug, PartialEq, Eq)]
pub struct Wfn {
    /// The class of product: application, operating system or hardware.
    pub part: AttributeValue<Part>,
    /// The person or organisation that manufactured or created the product.
    pub vendor: AttributeValue<AttributeString>,
    /// The most common and recognisable name of the product.
    pub product: AttributeValue<AttributeString>,
    /// Vendor-specific release version information.
    pub version: AttributeValue<AttributeString>,
    /// Vendor-specific update, service pack or point release information.
    pub update: AttributeValue<AttributeString>,
    /// A legacy edition qualifier, kept for backward compatibility.
    pub edition: AttributeValue<AttributeString>,
    /// The language tag of the user interface.
    pub language: AttributeValue<AttributeString>,
    /// How the product is tailored to a particular market or class of
    /// end users.
    pub sw_edition: AttributeValue<AttributeString>,
    /// The software computing environment the product operates within.
    pub target_sw: AttributeValue<AttributeString>,
    /// The instruction set architecture the product operates on.
    pub target_hw: AttributeValue<AttributeString>,
    /// Any other general descriptive or identifying information.
    pub other: AttributeValue<AttributeString>,
}

impl Wfn {
    /// The all-unset WFN: every slot `Unspecified`.
    pub open spec fn unspecified() -> Wfn {
        Wfn {
            part: AttributeValue::Unspecified,
            vendor: AttributeValue::Unspecified,
            product: AttributeValue::Unspecified,
            version: AttributeValue::Unspecified,
            update: AttributeValue::Unspecified,
            edition: AttributeValue::Unspecified,
            language: AttributeValue::Unspecified,
            sw_edition: AttributeValue::Unspecified,
            target_sw: AttributeValue::Unspecified,
            target_hw: AttributeValue::Unspecified,
            other: AttributeValue::Unspecified,
        }
    }

    /// Returns an empty WFN, i.e. a WFN with all attributes having an
    /// unspecified value.
    pub fn new() -> (r: Wfn)
        ensures
            r == Wfn::unspecified(),
    {
        Wfn {
            part: AttributeValue::Unspecified,
            vendor: AttributeValue::Unspecified,
            product: AttributeValue::Unspecified,
            version: AttributeValue::Unspecified,
            update: AttributeValue::Unspecified,
            edition: AttributeValue::Unspecified,
            language: AttributeValue::Unspecified,
            sw_edition: AttributeValue::Unspecified,
            target_sw: AttributeValue::Unspecified,
            target_hw: AttributeValue::Unspecified,
            other: AttributeValue::Unspecified,
        }
    }

    /// Assigns a value to the `part` attribute: the token `any` or `na`
    /// (case-insensitive) installs the logical value, a part character is
    /// parsed case-insensitively, and anything else fails with
    /// [`CpeError::InvalidValueError`], leaving the slot unchanged.
    pub fn set_part(&mut self, p: &str) -> (r: Result<(), CpeError>)
        ensures
            part_slot_outcome(old(self).part, final(self).part, p@, r),
            *final(self) == (Wfn { part: final(self).part, ..*old(self) }),
    {
        match part_slot_value(p) {
            Ok(v) => {
                self.part = v;
                Ok(())
            },
            Err(e) => Err(e),
        }
    }

    /// Reads the `part` attribute in its presentation form: absent when
    /// unset, the token `ANY` or `NA` for the logical values, the
    /// canonical lowercase part character otherwise.
    pub fn get_part(self) -> (r: Option<String>)
        ensures
            match part_slot_text(self.part) {
                Some(t) => r matches Some(s) && s@ == t,
                None => r is None,
            },
    {
        part_slot_string(&self.part)
    }

    /// Assigns a value to the `vendor` attribute: the token `any` or `na`
    /// (case-insensitive) installs the logical value; anything else must
    /// satisfy the attribute-string rules, and on failure the specific
    /// error kind is returned and the slot is left unchanged.
    pub fn set_vendor(&mut self, candidate: &str) -> (r: Result<(), CpeError>)
        ensures
            string_slot_outcome(old(self).vendor, final(self).vendor, candidate@, r),
            *final(self) == (Wfn { vendor: final(self).vendor, ..*old(self) }),
    {
        match string_slot_value(candidate) {
            Ok(v) => {
                self.vendor = v;
                Ok(())
            },
            Err(e) => Err(e),
        }
    }

    /// Reads the `vendor` attribute in its presentation form: absent when
    /// unset, the token `ANY` or `NA` for the logical values, the
    /// validated contents otherwise.
    pub fn get_vendor(&self) -> (r: Option<String>)
        ensures
            match string_slot_text(self.vendor) {
                Some(t) => r matches Some(s) && s@ == t,
                None => r is None,
            },
    {
        string_slot_string(&self.vendor)
    }

    /// Assigns a value to the `product` attribute: the token `any` or `na`
    /// (case-insensitive) installs the logical value; anything else must
    /// satisfy the attribute-string rules, and on failure the specific
    /// error kind is returned and the slot is left unchanged.
    pub fn set_product(&mut self, candidate: &str) -> (r: Result<(), CpeError>)
        ensures
            string_slot_outcome(old(self).product, final(self).product, candidate@, r),
            *final(self) == (Wfn { product: final(self).product, ..*old(self) }),
    {
        match string_slot_value(candidate) {
            Ok(v) => {
                self.product = v;
                Ok(())
            },
            Err(e) => Err(e),
        }
    }

    /// Reads the `product` attribute in its presentation form: absent when
    /// unset, the token `ANY` or `NA` for the logical values, the
    /// validated contents otherwise.
    pub fn get_product(&self) -> (r: Option<String>)
        ensures
            match string_slot_text(self.product) {
                Some(t) => r matches Some(s) && s@ == t,
                None => r is None,
            },
    {
        string_slot_string(&self.product)
    }

    /// Assigns a value to the `version` attribute: the token `any` or `na`
    /// (case-insensitive) installs the logical value; anything else must
    /// satisfy the attribute-string rules, and on failure the specific
    /// error kind is returned and the slot is left unchanged.
    pub fn set_version(&mut self, candidate: &str) -> (r: Result<(), CpeError>)
        ensures
            string_slot_outcome(old(self).version, final(self).version, candidate@, r),
            *final(self) == (Wfn { version: final(self).version, ..*old(self) }),
    {
        match string_slot_value(candidate) {
            Ok(v) => {
                self.version = v;
                Ok(())
            },
            Err(e) => Err(e),
        }
    }

    /// Reads the `version` attribute in its presentation form: absent when
    /// unset, the token `ANY` or `NA` for the logical values, the
    /// validated contents otherwise.
    pub fn get_version(&self) -> (r: Option<String>)
        ensures
            match string_slot_text(self.version) {
                Some(t) => r matches Some(s) && s@ == t,
                None => r is None,
            },
    {
        string_slot_string(&self.version)
    }

    /// Assigns a value to the `update` attribute: the token `any` or `na`
    /// (case-insensitive) installs the logical value; anything else must
    /// satisfy the attribute-string rules, and on failure the specific
    /// error kind is returned and the slot is left unchanged.
    pub fn set_update(&mut self, candidate: &str) -> (r: Result<(), CpeError>)
        ensures
            string_slot_outcome(old(self).update, final(self).update, candidate@, r),
            *final(self) == (Wfn { update: final(self).update, ..*old(self) }),
    {
        match string_slot_value(candidate) {
            Ok(v) => {
                self.update = v;
                Ok(())
            },
            Err(e) => Err(e),
        }
    }

    /// Reads the `update` attribute in its presentation form: absent when
    /// unset, the token `ANY` or `NA` for the logical values, the
    /// validated contents otherwise.
    pub fn get_update(&self) -> (r: Option<String>)
        ensures
            match string_slot_text(self.update) {
                Some(t) => r matches Some(s) && s@ == t,
                None => r is None,
            },
    {
        string_slot_string(&self.update)
    }

    /// Assigns a value to the `edition` attribute: the token `any` or `na`
    /// (case-insensitive) installs the logical value; anything else must
    /// satisfy the attribute-string rules, and on failure the specific
    /// error kind is returned and the slot is left unchanged.
    pub fn set_edition(&mut self, candidate: &str) -> (r: Result<(), CpeError>)
        ensures
            string_slot_outcome(old(self).edition, final(self).edition, candidate@, r),
            *final(self) == (Wfn { edition: final(self).edition, ..*old(self) }),
    {
        match string_slot_value(candidate) {
            Ok(v) => {
                self.edition = v;
                Ok(())
            },
            Err(e) => Err(e),
        }
    }

    /// Reads the `edition` attribute in its presentation form: absent when
    /// unset, the token `ANY` or `NA` for the logical values, the
    /// validated contents otherwise.
    pub fn get_edition(&self) -> (r: Option<String>)
        ensures
            match string_slot_text(self.edition) {
                Some(t) => r matches Some(s) && s@ == t,
                None => r is None,
            },
    {
        string_slot_string(&self.edition)
    }

    /// Assigns a value to the `language` attribute: the token `any` or `na`
    /// (case-insensitive) installs the logical value; anything else must
    /// satisfy the attribute-string rules, and on failure the specific
    /// error kind is returned and the slot is left unchanged.
    pub fn set_language(&mut self, candidate: &str) -> (r: Result<(), CpeError>)
        ensures
            string_slot_outcome(old(self).language, final(self).language, candidate@, r),
            *final(self) == (Wfn { language: final(self).language, ..*old(self) }),
    {
        match string_slot_value(candidate) {
            Ok(v) => {
                self.language = v;
                Ok(())
            },
            Err(e) => Err(e),
        }
    }

    /// Reads the `language` attribute in its presentation form: absent when
    /// unset, the token `ANY` or `NA` for the logical values, the
    /// validated contents otherwise.
    pub fn get_language(&self) -> (r: Option<String>)
        ensures
            match string_slot_text(self.language) {
                Some(t) => r matches Some(s) && s@ == t,
                None => r is None,
            },
    {
        string_slot_string(&self.language)
    }

    /// Assigns a value to the `sw_edition` attribute: the token `any` or `na`
    /// (case-insensitive) installs the logical value; anything else must
    /// satisfy the attribute-string rules, and on failure the specific
    /// error kind is returned and the slot is left unchanged.
    pub fn set_sw_edition(&mut self, candidate: &str) -> (r: Result<(), CpeError>)
        ensures
            string_slot_outcome(old(self).sw_edition, final(self).sw_edition, candidate@, r),
            *final(self) == (Wfn { sw_edition: final(self).sw_edition, ..*old(self) }),
    {
        match string_slot_value(candidate) {
            Ok(v) => {
                self.sw_edition = v;
                Ok(())
            },
            Err(e) => Err(e),
        }
    }

    /// Reads the `sw_edition` attribute in its presentation form: absent when
    /// unset, the token `ANY` or `NA` for the logical values, the
    /// validated contents otherwise.
    pub fn get_sw_edition(&self) -> (r: Option<String>)
        ensures
            match string_slot_text(self.sw_edition) {
                Some(t) => r matches Some(s) && s@ == t,
                None => r is None,
            },
    {
        string_slot_string(&self.sw_edition)
    }

    /// Assigns a value to the `target_sw` attribute: the token `any` or `na`
    /// (case-insensitive) installs the logical value; anything else must
    /// satisfy the attribute-string rules, and on failure the specific
    /// error kind is returned and the slot is left unchanged.
    pub fn set_target_sw(&mut self, candidate: &str) -> (r: Result<(), CpeError>)
        ensures
            string_slot_outcome(old(self).target_sw, final(self).target_sw, candidate@, r),
            *final(self) == (Wfn { target_sw: final(self).target_sw, ..*old(self) }),
    {
        match string_slot_value(candidate) {
            Ok(v) => {
                self.target_sw = v;
                Ok(())
            },
            Err(e) => Err(e),
        }
    }

    /// Reads the `target_sw` attribute in its presentation form: absent when
    /// unset, the token `ANY` or `NA` for the logical values, the
    /// validated contents otherwise.
    pub fn get_target_sw(&self) -> (r: Option<String>)
        ensures
            match string_slot_text(self.target_sw) {
                Some(t) => r matches Some(s) && s@ == t,
                None => r is None,
            },
    {
        string_slot_string(&self.target_sw)
    }

    /// Assigns a value to the `target_hw` attribute: the token `any` or `na`
    /// (case-insensitive) installs the logical value; anything else must
    /// satisfy the attribute-string rules, and on failure the specific
    /// error kind is returned and the slot is left unchanged.
    pub fn set_target_hw(&mut self, candidate: &str) -> (r: Result<(), CpeError>)
        ensures
            string_slot_outcome(old(self).target_hw, final(self).target_hw, candidate@, r),
            *final(self) == (Wfn { target_hw: final(self).target_hw, ..*old(self) }),
    {
        match string_slot_value(candidate) {
            Ok(v) => {
                self.target_hw = v;
                Ok(())
            },
            Err(e) => Err(e),
        }
    }

    /// Reads the `target_hw` attribute in its presentation form: absent when
    /// unset, the token `ANY` or `NA` for the logical values, the
    /// validated contents otherwise.
    pub fn get_target_hw(&self) -> (r: Option<String>)
        ensures
            match string_slot_text(self.target_hw) {
                Some(t) => r matches Some(s) && s@ == t,
                None => r is None,
            },
    {
        string_slot_string(&self.target_hw)
    }

    /// Assigns a value to the `other` attribute: the token `any` or `na`
    /// (case-insensitive) installs the logical value; anything else must
    /// satisfy the attribute-string rules, and on failure the specific
    /// error kind is returned and the slot is left unchanged.
    pub fn set_other(&mut self, candidate: &str) -> (r: Result<(), CpeError>)
        ensures
            string_slot_outcome(old(self).other, final(self).other, candidate@, r),
            *final(self) == (Wfn { other: final(self).other, ..*old(self) }),
    {
        match string_slot_value(candidate) {
            Ok(v) => {
                self.other = v;
                Ok(())
            },
            Err(e) => Err(e),
        }
    }

    /// Reads the `other` attribute in its presentation form: absent when
    /// unset, the token `ANY` or `NA` for the logical values, the
    /// validated contents otherwise.
    pub fn get_other(&self) -> (r: Option<String>)
        ensures
            match string_slot_text(self.other) {
                Some(t) => r matches Some(s) && s@ == t,
                None => r is None,
            },
    {
        string_slot_string(&self.other)
    }

    /// Renders the WFN as a bracketed listing of `attribute=value` pairs
    /// for every non-unspecified slot, in the fixed attribute order; an
    /// all-unspecified WFN renders as the empty listing.
    #[verifier::rlimit(100)]
    pub fn display(&self) -> (r: String)
        ensures
            r@ == display_text(*self),
    {
        let mut out = String::from_str("wfn: [");
        let mut first: bool = true;
        let mut es: Ghost<Seq<(Seq<char>, Seq<char>)>> = Ghost(
            Seq::<(Seq<char>, Seq<char>)>::empty(),
        );
        proof {
            reveal_strlit("wfn: [");
            assert(out@ =~= wfn_header() + rendered_entries(es@));
            assert(es@ =~= entries_up_to(*self, 0));
        }
        let step = emit_part_slot(&mut out, first, "part", &self.part, es);
        first = step.0;
        es = step.1;
        proof {
            reveal_strlit("part");
            assert(("part")@ =~= seq!['p', 'a', 'r', 't']);
            assert(es@ == entries_up_to(*self, 1));
        }
        let step = emit_string_slot(&mut out, first, "vendor", &self.vendor, es);
        first = step.0;
        es = step.1;
        proof {
            reveal_strlit("vendor");
            assert(("vendor")@ =~= seq!['v', 'e', 'n', 'd', 'o', 'r']);
            assert(es@ == entries_up_to(*self, 2));
        }
        let step = emit_string_slot(&mut out, first, "product", &self.product, es);
        first = step.0;
        es = step.1;
        proof {
            reveal_strlit("product");
            assert(("product")@ =~= seq!['p', 'r', 'o', 'd', 'u', 'c', 't']);
            assert(es@ == entries_up_to(*self, 3));
        }
        let step = emit_string_slot(&mut out, first, "version", &self.version, es);
        first = step.0;
        es = step.1;
        proof {
            reveal_strlit("version");
            assert(("version")@ =~= seq!['v', 'e', 'r', 's', 'i', 'o', 'n']);
            assert(es@ == entries_up_to(*self, 4));
        }
        let step = emit_string_slot(&mut out, first, "update", &self.update, es);
        first = step.0;
        es = step.1;
        proof {
            reveal_strlit("update");
            assert(("update")@ =~= seq!['u', 'p', 'd', 'a', 't', 'e']);
            assert(es@ == entries_up_to(*self, 5));
        }
        let step = emit_string_slot(&mut out, first, "edition", &self.edition, es);
        first = step.0;
        es = step.1;
        proof {
            reveal_strlit("edition");
            assert(("edition")@ =~= seq!['e', 'd', 'i', 't', 'i', 'o', 'n']);
            assert(es@ == entries_up_to(*self, 6));
        }
        let step = emit_string_slot(&mut out, first, "language", &self.language, es);
        first = step.0;
        es = step.1;
        proof {
            reveal_strlit("language");
            assert(("language")@ =~= seq!['l', 'a', 'n', 'g', 'u', 'a', 'g', 'e']);
            assert(es@ == entries_up_to(*self, 7));
        }
        let step = emit_string_slot(&mut out, first, "sw_edition", &self.sw_edition, es);
        first = step.0;
        es = step.1;
        proof {
            reveal_strlit("sw_edition");
            assert(("sw_edition")@ =~= seq!['s', 'w', '_', 'e', 'd', 'i', 't', 'i', 'o', 'n']);
            assert(es@ == entries_up_to(*self, 8));
        }
        let step = emit_string_slot(&mut out, first, "target_sw", &self.target_sw, es);
        first = step.0;
        es = step.1;
        proof {
            reveal_strlit("target_sw");
            assert(("target_sw")@ =~= seq!['t', 'a', 'r', 'g', 'e', 't', '_', 's', 'w']);
            assert(es@ == entries_up_to(*self, 9));
        }
        let step = emit_string_slot(&mut out, first, "target_hw", &self.target_hw, es);
        first = step.0;
        es = step.1;
        proof {
            reveal_strlit("target_hw");
            assert(("target_hw")@ =~= seq!['t', 'a', 'r', 'g', 'e', 't', '_', 'h', 'w']);
            assert(es@ == entries_up_to(*self, 10));
        }
        let step = emit_string_slot(&mut out, first, "other", &self.other, es);
        first = step.0;
        es = step.1;
        proof {
            reveal_strlit("other");
            assert(("other")@ =~= seq!['o', 't', 'h', 'e', 'r']);
            assert(es@ == entries_up_to(*self, 11));
        }
        proof {
            reveal_strlit("]");
        }
        out.append("]");
        proof {
            assert(("]")@ =~= seq![']']);
            assert(out@ == wfn_header() + rendered_entries(listed_entries(*self)) + seq![']']);
        }
        out
    }
}

/// The opening of every displayed WFN.
pub open spec fn wfn_header() -> Seq<char> {
    seq!['w', 'f', 'n', ':', ' ', '[']
}

/// One display entry for a slot: nothing when the slot presents no text,
/// a single `name`/`text` pair otherwise.
pub open spec fn attr_entry(name: Seq<char>, text: Option<Seq<char>>) -> Seq<
    (Seq<char>, Seq<char>),
> {
    match text {
        Some(t) => seq![(name, t)],
        None => Seq::<(Seq<char>, Seq<char>)>::empty(),
    }
}

/// The contribution of attribute `i` (in the fixed attribute order) to
/// the display listing: one `name`/`text` entry when the slot is set,
/// nothing when it is unspecified.
pub open spec fn slot_entry(w: Wfn, i: int) -> Seq<(Seq<char>, Seq<char>)> {
    if i == 0 {
        attr_entry(seq!['p', 'a', 'r', 't'], part_slot_text(w.part))
    } else if i == 1 {
        attr_entry(seq!['v', 'e', 'n', 'd', 'o', 'r'], string_slot_text(w.vendor))
    } else if i == 2 {
        attr_entry(seq!['p', 'r', 'o', 'd', 'u', 'c', 't'], string_slot_text(w.product))
    } else if i == 3 {
        attr_entry(seq!['v', 'e', 'r', 's', 'i', 'o', 'n'], string_slot_text(w.version))
    } else if i == 4 {
        attr_entry(seq!['u', 'p', 'd', 'a', 't', 'e'], string_slot_text(w.update))
    } else if i == 5 {
        attr_entry(seq!['e', 'd', 'i', 't', 'i', 'o', 'n'], string_slot_text(w.edition))
    } else if i == 6 {
        attr_entry(seq!['l', 'a', 'n', 'g', 'u', 'a', 'g', 'e'], string_slot_text(w.language))
    } else if i == 7 {
        attr_entry(seq!['s', 'w', '_', 'e', 'd', 'i', 't', 'i', 'o', 'n'], string_slot_text(w.sw_edition))
    } else if i == 8 {
        attr_entry(seq!['t', 'a', 'r', 'g', 'e', 't', '_', 's', 'w'], string_slot_text(w.target_sw))
    } else if i == 9 {
        attr_entry(seq!['t', 'a', 'r', 'g', 'e', 't', '_', 'h', 'w'], string_slot_text(w.target_hw))
    } else if i == 10 {
        attr_entry(seq!['o', 't', 'h', 'e', 'r'], string_slot_text(w.other))
    } else {
        Seq::<(Seq<char>, Seq<char>)>::empty()
    }
}

/// The display entries of the first `k` attributes, in order.
pub open spec fn entries_up_to(w: Wfn, k: int) -> Seq<(Seq<char>, Seq<char>)>
    decreases k,
{
    if k <= 0 {
        Seq::<(Seq<char>, Seq<char>)>::empty()
    } else {
        entries_up_to(w, k - 1) + slot_entry(w, k - 1)
    }
}

/// The display entries of every non-unspecified attribute, in the fixed
/// attribute order.
pub open spec fn listed_entries(w: Wfn) -> Seq<(Seq<char>, Seq<char>)> {
    entries_up_to(w, 11)
}

/// One entry rendered as `name=text`.
pub open spec fn entry_text(e: (Seq<char>, Seq<char>)) -> Seq<char> {
    e.0 + seq!['='] + e.1
}

/// Entries rendered in order, separated by a comma and a space.
pub open spec fn rendered_entries(es: Seq<(Seq<char>, Seq<char>)>) -> Seq<char>
    decreases es.len(),
{
    if es.len() == 0 {
        Seq::<char>::empty()
    } else if es.len() == 1 {
        entry_text(es.last())
    } else {
        rendered_entries(es.drop_last()) + seq![',', ' '] + entry_text(es.last())
    }
}

/// The full display form of a WFN: the bracketed listing of every
/// non-unspecified attribute.
pub open spec fn display_text(w: Wfn) -> Seq<char> {
    wfn_header() + rendered_entries(listed_entries(w)) + seq![']']
}

proof fn lemma_rendered_push(es: Seq<(Seq<char>, Seq<char>)>, e: (Seq<char>, Seq<char>))
    ensures
        rendered_entries(es.push(e)) == (if es.len() == 0 {
            entry_text(e)
        } else {
            rendered_entries(es) + seq![',', ' '] + entry_text(e)
        }),
{
    let esp = es.push(e);
    assert(esp.last() == e);
    assert(esp.drop_last() =~= es);
}

proof fn lemma_push_entry_is_concat(es: Seq<(Seq<char>, Seq<char>)>, e: (Seq<char>, Seq<char>))
    ensures
        es + seq![e] == es.push(e),
{
    assert(es + seq![e] =~= es.push(e));
}

proof fn lemma_concat_empty_entries(es: Seq<(Seq<char>, Seq<char>)>)
    ensures
        es + Seq::<(Seq<char>, Seq<char>)>::empty() == es,
{
    assert(es + Seq::<(Seq<char>, Seq<char>)>::empty() =~= es);
}

proof fn lemma_display_step(
    prev: Seq<char>,
    next: Seq<char>,
    es: Seq<(Seq<char>, Seq<char>)>,
    e: (Seq<char>, Seq<char>),
    first: bool,
)
    requires
        prev == wfn_header() + rendered_entries(es),
        first == (es.len() == 0),
        next == prev + (if first {
            Seq::<char>::empty()
        } else {
            seq![',', ' ']
        }) + e.0 + seq!['='] + e.1,
    ensures
        next == wfn_header() + rendered_entries(es.push(e)),
{
    lemma_rendered_push(es, e);
    assert(next =~= wfn_header() + rendered_entries(es.push(e)));
}

fn push_entry(out: &mut String, first: bool, name: &str, text: &str)
    ensures
        final(out)@ == old(out)@ + (if first {
            Seq::<char>::empty()
        } else {
            seq![',', ' ']
        }) + name@ + seq!['='] + text@,
{
    proof {
        reveal_strlit(", ");
        reveal_strlit("=");
    }
    if !first {
        out.append(", ");
    }
    out.append(name);
    out.append("=");
    out.append(text);
    proof {
        assert((", ")@ =~= seq![',', ' ']);
        assert(("=")@ =~= seq!['=']);
        assert(out@ =~= old(out)@ + (if first {
            Seq::<char>::empty()
        } else {
            seq![',', ' ']
        }) + name@ + seq!['='] + text@);
    }
}

fn emit_string_slot(
    out: &mut String,
    first: bool,
    name: &str,
    v: &AttributeValue<AttributeString>,
    es: Ghost<Seq<(Seq<char>, Seq<char>)>>,
) -> (res: (bool, Ghost<Seq<(Seq<char>, Seq<char>)>>))
    requires
        old(out)@ == wfn_header() + rendered_entries(es@),
        first == (es@.len() == 0),
    ensures
        final(out)@ == wfn_header() + rendered_entries(res.1@),
        res.0 == (res.1@.len() == 0),
        res.1@ == es@ + attr_entry(name@, string_slot_text(*v)),
{
    match string_slot_string(v) {
        None => {
            proof {
                lemma_concat_empty_entries(es@);
            }
            (first, es)
        },
        Some(t) => {
            let ghost prev = out@;
            push_entry(out, first, name, t.as_str());
            proof {
                lemma_display_step(prev, out@, es@, (name@, t@), first);
                lemma_push_entry_is_concat(es@, (name@, t@));
            }
            (false, Ghost(es@.push((name@, t@))))
        },
    }
}

fn emit_part_slot(
    out: &mut String,
    first: bool,
    name: &str,
    v: &AttributeValue<Part>,
    es: Ghost<Seq<(Seq<char>, Seq<char>)>>,
) -> (res: (bool, Ghost<Seq<(Seq<char>, Seq<char>)>>))
    requires
        old(out)@ == wfn_header() + rendered_entries(es@),
        first == (es@.len() == 0),
    ensures
        final(out)@ == wfn_header() + rendered_entries(res.1@),
        res.0 == (res.1@.len() == 0),
        res.1@ == es@ + attr_entry(name@, part_slot_text(*v)),
{
    match part_slot_string(v) {
        None => {
            proof {
                lemma_concat_empty_entries(es@);
            }
            (first, es)
        },
        Some(t) => {
            let ghost prev = out@;
            push_entry(out, first, name, t.as_str());
            proof {
                lemma_display_step(prev, out@, es@, (name@, t@), first);
                lemma_push_entry_is_concat(es@, (name@, t@));
            }
            (false, Ghost(es@.push((name@, t@))))
        },
    }
}


} // verus!
