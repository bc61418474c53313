use vstd::prelude::*;

verus! {

/// Namespace for the individual bits of an alignment-record flag.
/// Each constant names one bit, so that rule tables read as prose
/// (`SamFlag::PAIRED + SamFlag::FIRST_IN_PAIR`) instead of raw masks.
#[non_exhaustive]
pub struct SamFlag;

impl SamFlag {
    pub const PAIRED: u16 = 1;
    pub const PROPERLY_PAIRED: u16 = 2;
    pub const READ_UNMAPPED: u16 = 4;
    pub const MATE_UNMAPPED: u16 = 8;
    pub const READ_RERVERSE: u16 = 16;
    pub const MATE_REVERSE: u16 = 32;
    pub const FIRST_IN_PAIR: u16 = 64;
    pub const SECOND_IN_PAIR: u16 = 128;
    pub const NOT_PRIMARY_ALN: u16 = 256;
    pub const FAIL_QC: u16 = 512;
    pub const DUPLICATE: u16 = 1024;
    pub const SUPPLEMENTARY: u16 = 2048;
}

/// A flag matches a (required, forbidden) mask pair when every required bit
/// is set in the flag and no forbidden bit is.
pub open spec fn spec_check_flag(flag: u16, required: u16, forbidden: u16) -> bool {
    flag & forbidden == 0 && flag & required == required
}

/// Binary flag check: every bit of `in_` is set in `flag`, and no bit of
/// `not_in` is. The sole primitive from which every protocol rule is built.
pub fn check_flag(flag: u16, in_: u16, not_in: u16) -> (r: bool)
    ensures
        r == spec_check_flag(flag, in_, not_in),
{
    if (flag & not_in) != 0 {
        return false;
    }
    if (flag & in_) != in_ {
        return false;
    }
    true
}

} // verus!
