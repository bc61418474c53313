use vstd::prelude::*;

use crate::flags::SamFlag;
use crate::flags::check_flag;
use crate::flags::spec_check_flag;
use crate::strand::Strand;
use crate::strand::str_eq;

verus! {

/// The layout of the stranded sequencing library a read was produced with.
/// The names do not follow camel case on purpose, to keep the leading
/// orientation term (`f`, `r`, `ff`, `fr`, `rf`) readable.
#[derive(Clone, Debug, Copy, Eq, Hash, PartialEq)]
#[allow(non_camel_case_types)]
pub enum LibType {
    frFirstStrand,
    frSecondStrand,
    fFirstStrand,
    fSecondStrand,
    ffFirstStrand,
    ffSecondStrand,
    rfFirstStrand,
    rfSecondStrand,
    rFirstStrand,
    rSecondStrand,
    Invalid,
}

/// Error returned when a piece of text names no library protocol.
#[derive(Debug, PartialEq, Eq)]
pub struct ParseLibType;

/// Paired read whose first mate reads the reverse strand: read 1 is
/// reverse-complemented and its mate is not, or read 2 is forward and its
/// mate is reverse-complemented.
pub open spec fn paired_read1_reverse(flag: u16) -> bool {
    spec_check_flag(
        flag,
        (SamFlag::PAIRED + SamFlag::FIRST_IN_PAIR + SamFlag::READ_RERVERSE) as u16,
        SamFlag::MATE_REVERSE,
    ) || spec_check_flag(
        flag,
        (SamFlag::PAIRED + SamFlag::SECOND_IN_PAIR + SamFlag::MATE_REVERSE) as u16,
        SamFlag::READ_RERVERSE,
    )
}

/// Paired read whose first mate reads the forward strand: read 1 is forward
/// and its mate is reverse-complemented, or read 2 is reverse-complemented
/// and its mate is not.
pub open spec fn paired_read1_forward(flag: u16) -> bool {
    spec_check_flag(
        flag,
        (SamFlag::PAIRED + SamFlag::FIRST_IN_PAIR + SamFlag::MATE_REVERSE) as u16,
        SamFlag::READ_RERVERSE,
    ) || spec_check_flag(
        flag,
        (SamFlag::PAIRED + SamFlag::SECOND_IN_PAIR + SamFlag::READ_RERVERSE) as u16,
        SamFlag::MATE_REVERSE,
    )
}

/// Paired read with both mates reverse-complemented.
pub open spec fn paired_both_reverse(flag: u16) -> bool {
    spec_check_flag(
        flag,
        (SamFlag::PAIRED + SamFlag::FIRST_IN_PAIR + SamFlag::READ_RERVERSE
            + SamFlag::MATE_REVERSE) as u16,
        0,
    ) || spec_check_flag(
        flag,
        (SamFlag::PAIRED + SamFlag::SECOND_IN_PAIR + SamFlag::READ_RERVERSE
            + SamFlag::MATE_REVERSE) as u16,
        0,
    )
}

/// Paired read with both mates forward.
pub open spec fn paired_both_forward(flag: u16) -> bool {
    spec_check_flag(
        flag,
        (SamFlag::PAIRED + SamFlag::FIRST_IN_PAIR) as u16,
        (SamFlag::READ_RERVERSE + SamFlag::MATE_REVERSE) as u16,
    ) || spec_check_flag(
        flag,
        (SamFlag::PAIRED + SamFlag::SECOND_IN_PAIR) as u16,
        (SamFlag::READ_RERVERSE + SamFlag::MATE_REVERSE) as u16,
    )
}

/// Unpaired-style rule: the read carries the first-in-pair mark and is
/// reverse-complemented.
pub open spec fn read1_reverse(flag: u16) -> bool {
    spec_check_flag(flag, (SamFlag::FIRST_IN_PAIR + SamFlag::READ_RERVERSE) as u16, 0)
}

/// Unpaired-style rule: the read carries the first-in-pair mark and is not
/// reverse-complemented.
pub open spec fn read1_forward(flag: u16) -> bool {
    spec_check_flag(flag, SamFlag::FIRST_IN_PAIR, SamFlag::READ_RERVERSE)
}

/// The Plus-rule of each protocol: the flag patterns under which a read is
/// assigned the sense strand.
pub open spec fn plus_rule(lib: LibType, flag: u16) -> bool {
    match lib {
        LibType::frFirstStrand => paired_read1_reverse(flag),
        LibType::frSecondStrand => paired_read1_forward(flag),
        LibType::fFirstStrand => read1_reverse(flag),
        LibType::fSecondStrand => read1_forward(flag),
        LibType::ffFirstStrand => paired_both_reverse(flag),
        LibType::ffSecondStrand => paired_both_forward(flag),
        LibType::rfFirstStrand => paired_read1_forward(flag),
        LibType::rfSecondStrand => paired_read1_reverse(flag),
        LibType::rFirstStrand => read1_reverse(flag),
        LibType::rSecondStrand => read1_forward(flag),
        LibType::Invalid => false,
    }
}

/// The Minus-rule of each protocol: the flag patterns under which a read is
/// assigned the antisense strand. For each protocol it is the Plus-rule of
/// its mirrored partner.
pub open spec fn minus_rule(lib: LibType, flag: u16) -> bool {
    match lib {
        LibType::frFirstStrand => paired_read1_forward(flag),
        LibType::frSecondStrand => paired_read1_reverse(flag),
        LibType::fFirstStrand => read1_forward(flag),
        LibType::fSecondStrand => read1_reverse(flag),
        LibType::ffFirstStrand => paired_both_forward(flag),
        LibType::ffSecondStrand => paired_both_reverse(flag),
        LibType::rfFirstStrand => paired_read1_reverse(flag),
        LibType::rfSecondStrand => paired_read1_forward(flag),
        LibType::rFirstStrand => read1_forward(flag),
        LibType::rSecondStrand => read1_reverse(flag),
        LibType::Invalid => false,
    }
}

/// Strand resolution: the Plus-rule is tried first, then the Minus-rule;
/// a read matching neither gets no strand.
pub open spec fn spec_get_strand(lib: LibType, flag: u16) -> Option<Strand> {
    if plus_rule(lib, flag) {
        Some(Strand::Plus)
    } else if minus_rule(lib, flag) {
        Some(Strand::Minus)
    } else {
        None
    }
}

/// The protocol a piece of text names: exactly the ten canonical protocol
/// names are accepted; everything else is a parse error.
pub open spec fn spec_parse_libtype(t: Seq<char>) -> Result<LibType, ParseLibType> {
    if t == "frFirstStrand"@ {
        Ok(LibType::frFirstStrand)
    } else if t == "frSecondStrand"@ {
        Ok(LibType::frSecondStrand)
    } else if t == "fFirstStrand"@ {
        Ok(LibType::fFirstStrand)
    } else if t == "fSecondStrand"@ {
        Ok(LibType::fSecondStrand)
    } else if t == "ffFirstStrand"@ {
        Ok(LibType::ffFirstStrand)
    } else if t == "ffSecondStrand"@ {
        Ok(LibType::ffSecondStrand)
    } else if t == "rfFirstStrand"@ {
        Ok(LibType::rfFirstStrand)
    } else if t == "rfSecondStrand"@ {
        Ok(LibType::rfSecondStrand)
    } else if t == "rFirstStrand"@ {
        Ok(LibType::rFirstStrand)
    } else if t == "rSecondStrand"@ {
        Ok(LibType::rSecondStrand)
    } else {
        Err(ParseLibType)
    }
}

impl LibType {
    /// Create a `LibType` from its canonical name. Any text that is not one
    /// of the ten canonical protocol names is reported as an error; the
    /// `Invalid` variant is never returned.
    pub fn from_str(s: &str) -> (r: Result<LibType, ParseLibType>)
        ensures
            r == spec_parse_libtype(s@),
    {
        if str_eq(s, "frFirstStrand") {
            Ok(LibType::frFirstStrand)
        } else if str_eq(s, "frSecondStrand") {
            Ok(LibType::frSecondStrand)
        } else if str_eq(s, "fFirstStrand") {
            Ok(LibType::fFirstStrand)
        } else if str_eq(s, "fSecondStrand") {
            Ok(LibType::fSecondStrand)
        } else if str_eq(s, "ffFirstStrand") {
            Ok(LibType::ffFirstStrand)
        } else if str_eq(s, "ffSecondStrand") {
            Ok(LibType::ffSecondStrand)
        } else if str_eq(s, "rfFirstStrand") {
            Ok(LibType::rfFirstStrand)
        } else if str_eq(s, "rfSecondStrand") {
            Ok(LibType::rfSecondStrand)
        } else if str_eq(s, "rFirstStrand") {
            Ok(LibType::rFirstStrand)
        } else if str_eq(s, "rSecondStrand") {
            Ok(LibType::rSecondStrand)
        } else {
            Err(ParseLibType)
        }
    }

    /// Resolve the strand of a read from its flag under this library layout.
    /// Returns `None` where the layout cannot decide, so that a caller may
    /// filter or tag such reads; it never fails.
    pub fn get_strand(self: &Self, flag: u16) -> (r: Option<Strand>)
        ensures
            r == spec_get_strand(*self, flag),
    {
        match self {
            LibType::frFirstStrand => {
                if check_flag(
                    flag,
                    SamFlag::PAIRED + SamFlag::FIRST_IN_PAIR + SamFlag::READ_RERVERSE,
                    SamFlag::MATE_REVERSE,
                ) || check_flag(
                    flag,
                    SamFlag::PAIRED + SamFlag::SECOND_IN_PAIR + SamFlag::MATE_REVERSE,
                    SamFlag::READ_RERVERSE,
                ) {
                    Some(Strand::Plus)
                } else if check_flag(
                    flag,
                    SamFlag::PAIRED + SamFlag::FIRST_IN_PAIR + SamFlag::MATE_REVERSE,
                    SamFlag::READ_RERVERSE,
                ) || check_flag(
                    flag,
                    SamFlag::PAIRED + SamFlag::SECOND_IN_PAIR + SamFlag::READ_RERVERSE,
                    SamFlag::MATE_REVERSE,
                ) {
                    Some(Strand::Minus)
                } else {
                    None
                }
            }
            LibType::frSecondStrand => {
                if check_flag(
                    flag,
                    SamFlag::PAIRED + SamFlag::FIRST_IN_PAIR + SamFlag::MATE_REVERSE,
                    SamFlag::READ_RERVERSE,
                ) || check_flag(
                    flag,
                    SamFlag::PAIRED + SamFlag::SECOND_IN_PAIR + SamFlag::READ_RERVERSE,
                    SamFlag::MATE_REVERSE,
                ) {
                    Some(Strand::Plus)
                } else if check_flag(
                    flag,
                    SamFlag::PAIRED + SamFlag::FIRST_IN_PAIR + SamFlag::READ_RERVERSE,
                    SamFlag::MATE_REVERSE,
                ) || check_flag(
                    flag,
                    SamFlag::PAIRED + SamFlag::SECOND_IN_PAIR + SamFlag::MATE_REVERSE,
                    SamFlag::READ_RERVERSE,
                ) {
                    Some(Strand::Minus)
                } else {
                    None
                }
            }
            LibType::fFirstStrand => {
                if check_flag(flag, SamFlag::FIRST_IN_PAIR + SamFlag::READ_RERVERSE, 0) {
                    Some(Strand::Plus)
                } else if check_flag(flag, SamFlag::FIRST_IN_PAIR, SamFlag::READ_RERVERSE) {
                    Some(Strand::Minus)
                } else {
                    None
                }
            }
            LibType::fSecondStrand => {
                if check_flag(flag, SamFlag::FIRST_IN_PAIR, SamFlag::READ_RERVERSE) {
                    Some(Strand::Plus)
                } else if check_flag(flag, SamFlag::FIRST_IN_PAIR + SamFlag::READ_RERVERSE, 0) {
                    Some(Strand::Minus)
                } else {
                    None
                }
            }
            LibType::ffFirstStrand => {
                if check_flag(
                    flag,
                    SamFlag::PAIRED
                        + SamFlag::FIRST_IN_PAIR
                        + SamFlag::READ_RERVERSE
                        + SamFlag::MATE_REVERSE,
                    0,
                ) || check_flag(
                    flag,
                    SamFlag::PAIRED
                        + SamFlag::SECOND_IN_PAIR
                        + SamFlag::READ_RERVERSE
                        + SamFlag::MATE_REVERSE,
                    0,
                ) {
                    Some(Strand::Plus)
                } else if check_flag(
                    flag,
                    SamFlag::PAIRED + SamFlag::FIRST_IN_PAIR,
                    SamFlag::READ_RERVERSE + SamFlag::MATE_REVERSE,
                ) || check_flag(
                    flag,
                    SamFlag::PAIRED + SamFlag::SECOND_IN_PAIR,
                    SamFlag::READ_RERVERSE + SamFlag::MATE_REVERSE,
                ) {
                    Some(Strand::Minus)
                } else {
                    None
                }
            }
            LibType::ffSecondStrand => {
                if check_flag(
                    flag,
                    SamFlag::PAIRED + SamFlag::FIRST_IN_PAIR,
                    SamFlag::READ_RERVERSE + SamFlag::MATE_REVERSE,
                ) || check_flag(
                    flag,
                    SamFlag::PAIRED + SamFlag::SECOND_IN_PAIR,
                    SamFlag::READ_RERVERSE + SamFlag::MATE_REVERSE,
                ) {
                    Some(Strand::Plus)
                } else if check_flag(
                    flag,
                    SamFlag::PAIRED
                        + SamFlag::FIRST_IN_PAIR
                        + SamFlag::READ_RERVERSE
                        + SamFlag::MATE_REVERSE,
                    0,
                ) || check_flag(
                    flag,
                    SamFlag::PAIRED
                        + SamFlag::SECOND_IN_PAIR
                        + SamFlag::READ_RERVERSE
                        + SamFlag::MATE_REVERSE,
                    0,
                ) {
                    Some(Strand::Minus)
                } else {
                    None
                }
            }
            LibType::rfFirstStrand => {
                if check_flag(
                    flag,
                    SamFlag::PAIRED + SamFlag::FIRST_IN_PAIR + SamFlag::MATE_REVERSE,
                    SamFlag::READ_RERVERSE,
                ) || check_flag(
                    flag,
                    SamFlag::PAIRED + SamFlag::SECOND_IN_PAIR + SamFlag::READ_RERVERSE,
                    SamFlag::MATE_REVERSE,
                ) {
                    Some(Strand::Plus)
                } else if check_flag(
                    flag,
                    SamFlag::PAIRED + SamFlag::FIRST_IN_PAIR + SamFlag::READ_RERVERSE,
                    SamFlag::MATE_REVERSE,
                ) || check_flag(
                    flag,
                    SamFlag::PAIRED + SamFlag::SECOND_IN_PAIR + SamFlag::MATE_REVERSE,
                    SamFlag::READ_RERVERSE,
                ) {
                    Some(Strand::Minus)
                } else {
                    None
                }
            }
            LibType::rfSecondStrand => {
                if check_flag(
                    flag,
                    SamFlag::PAIRED + SamFlag::FIRST_IN_PAIR + SamFlag::READ_RERVERSE,
                    SamFlag::MATE_REVERSE,
                ) || check_flag(
                    flag,
                    SamFlag::PAIRED + SamFlag::SECOND_IN_PAIR + SamFlag::MATE_REVERSE,
                    SamFlag::READ_RERVERSE,
                ) {
                    Some(Strand::Plus)
                } else if check_flag(
                    flag,
                    SamFlag::PAIRED + SamFlag::FIRST_IN_PAIR + SamFlag::MATE_REVERSE,
                    SamFlag::READ_RERVERSE,
                ) || check_flag(
                    flag,
                    SamFlag::PAIRED + SamFlag::SECOND_IN_PAIR + SamFlag::READ_RERVERSE,
                    SamFlag::MATE_REVERSE,
                ) {
                    Some(Strand::Minus)
                } else {
                    None
                }
            }
            LibType::rFirstStrand => {
                if check_flag(flag, SamFlag::FIRST_IN_PAIR + SamFlag::READ_RERVERSE, 0) {
                    Some(Strand::Plus)
                } else if check_flag(flag, SamFlag::FIRST_IN_PAIR, SamFlag::READ_RERVERSE) {
                    Some(Strand::Minus)
                } else {
                    None
                }
            }
            LibType::rSecondStrand => {
                if check_flag(flag, SamFlag::FIRST_IN_PAIR, SamFlag::READ_RERVERSE) {
                    Some(Strand::Plus)
                } else if check_flag(flag, SamFlag::FIRST_IN_PAIR + SamFlag::READ_RERVERSE, 0) {
                    Some(Strand::Minus)
                } else {
                    None
                }
            }
            LibType::Invalid => None,
        }
    }
}

/// A flag marking the read as both first and second in its pair. No real
/// paired-end record carries both bits at once; the mutual exclusivity of
/// the rule tables holds away from such degenerate flags.
pub open spec fn both_mates_flagged(flag: u16) -> bool {
    flag & SamFlag::FIRST_IN_PAIR == SamFlag::FIRST_IN_PAIR
        && flag & SamFlag::SECOND_IN_PAIR == SamFlag::SECOND_IN_PAIR
}

/// Law: strand resolution is total and never ambiguous. For every protocol
/// and every 16-bit flag value it yields exactly one of `Some(Plus)`,
/// `Some(Minus)` and `None`; in particular it never wraps `Strand::NA`,
/// which is reserved for callers that want to tag undecided reads.
pub proof fn lemma_resolution_total(lib: LibType, flag: u16)
    ensures
        spec_get_strand(lib, flag) == Some(Strand::Plus) || spec_get_strand(lib, flag) == Some(
            Strand::Minus,
        ) || spec_get_strand(lib, flag) is None,
        spec_get_strand(lib, flag) != Some(Strand::NA),
{
}

/// Law: mutual exclusivity of the rule table. For every protocol, no flag
/// that marks the read as at most one of first-in-pair / second-in-pair
/// satisfies both the Plus-rule and the Minus-rule.
pub proof fn lemma_rules_mutually_exclusive(lib: LibType, flag: u16)
    requires
        !both_mates_flagged(flag),
    ensures
        !(plus_rule(lib, flag) && minus_rule(lib, flag)),
{
    // fr / rf layouts: within one mate the two rules demand opposite
    // reverse-complement bits, and across mates they demand opposite
    // first/second-in-pair marks.
    assert(!(((flag & 32u16 == 0 && flag & 81u16 == 81u16) || (flag & 16u16 == 0 && flag
        & 161u16 == 161u16)) && ((flag & 16u16 == 0 && flag & 97u16 == 97u16) || (flag & 32u16 == 0
        && flag & 145u16 == 145u16))) || (flag & 64u16 == 64u16 && flag & 128u16 == 128u16))
        by (bit_vector);
    // f / r layouts: one rule requires the reverse bit, the other forbids it.
    assert(!((flag & 0u16 == 0 && flag & 80u16 == 80u16) && (flag & 16u16 == 0 && flag & 64u16
        == 64u16))) by (bit_vector);
    // ff layouts: one rule requires both reverse bits, the other forbids both.
    assert(!(((flag & 0u16 == 0 && flag & 113u16 == 113u16) || (flag & 0u16 == 0 && flag & 177u16
        == 177u16)) && ((flag & 48u16 == 0 && flag & 65u16 == 65u16) || (flag & 48u16 == 0 && flag
        & 129u16 == 129u16)))) by (bit_vector);
}

/// Strand resolution with the Minus-rule tried before the Plus-rule; used
/// only to state that the order of the two checks does not matter.
pub open spec fn spec_get_strand_minus_first(lib: LibType, flag: u16) -> Option<Strand> {
    if minus_rule(lib, flag) {
        Some(Strand::Minus)
    } else if plus_rule(lib, flag) {
        Some(Strand::Plus)
    } else {
        None
    }
}

/// Law: order independence. Because the Plus- and Minus-rules are mutually
/// exclusive, trying the Minus-rule first yields the same resolution.
pub proof fn lemma_order_independent(lib: LibType, flag: u16)
    requires
        !both_mates_flagged(flag),
    ensures
        spec_get_strand_minus_first(lib, flag) == spec_get_strand(lib, flag),
{
    lemma_rules_mutually_exclusive(lib, flag);
}

} // verus!
