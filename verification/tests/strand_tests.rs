use strand_specifier_lib::check_flag;
use strand_specifier_lib::LibType;
use strand_specifier_lib::ParseLibType;
use strand_specifier_lib::ParseStrand;
use strand_specifier_lib::SamFlag;
use strand_specifier_lib::Strand;

#[test]
fn it_works() {
    let flag = 147;
    assert_eq!(Some(Strand::Minus), LibType::frFirstStrand.get_strand(flag))
}

#[test]
fn it_works2() {
    let flag = 99;
    assert_eq!(Some(Strand::Minus), LibType::frFirstStrand.get_strand(flag))
}

#[test]
fn check_flag_required_and_forbidden() {
    // 147 = PAIRED + PROPERLY_PAIRED + READ_RERVERSE + SECOND_IN_PAIR
    assert!(check_flag(147, SamFlag::PAIRED + SamFlag::SECOND_IN_PAIR, 0));
    assert!(!check_flag(147, SamFlag::FIRST_IN_PAIR, 0));
    assert!(!check_flag(147, SamFlag::PAIRED, SamFlag::READ_RERVERSE));
    assert!(check_flag(147, 0, SamFlag::MATE_REVERSE));
    // every flag matches the empty pair of masks
    assert!(check_flag(0, 0, 0));
    assert!(check_flag(65535, 0, 0));
    assert!(!check_flag(0, SamFlag::PAIRED, 0));
}

#[test]
fn strand_text_round_trip() {
    assert_eq!(Strand::from_text(Strand::Plus.to_text()), Ok(Strand::Plus));
    assert_eq!(Strand::from_text(Strand::Minus.to_text()), Ok(Strand::Minus));
    assert_eq!(Strand::from_text(Strand::NA.to_text()), Ok(Strand::NA));
}

#[test]
fn strand_to_text_is_canonical() {
    assert_eq!(Strand::Plus.to_text(), "+");
    assert_eq!(Strand::Minus.to_text(), "-");
    assert_eq!(Strand::NA.to_text(), ".");
}

#[test]
fn strand_from_text_rejects_other_text() {
    assert_eq!(Strand::from_text("x"), Err(ParseStrand));
    assert_eq!(Strand::from_text(""), Err(ParseStrand));
    assert_eq!(Strand::from_text("++"), Err(ParseStrand));
    // a dot is Unknown, never a silent Plus
    assert_eq!(Strand::from_text("."), Ok(Strand::NA));
}

#[test]
fn parse_libtype_accepts_canonical_names() {
    assert_eq!(LibType::from_str("frFirstStrand"), Ok(LibType::frFirstStrand));
    assert_eq!(LibType::from_str("frSecondStrand"), Ok(LibType::frSecondStrand));
    assert_eq!(LibType::from_str("fFirstStrand"), Ok(LibType::fFirstStrand));
    assert_eq!(LibType::from_str("fSecondStrand"), Ok(LibType::fSecondStrand));
    assert_eq!(LibType::from_str("ffFirstStrand"), Ok(LibType::ffFirstStrand));
    assert_eq!(LibType::from_str("ffSecondStrand"), Ok(LibType::ffSecondStrand));
    assert_eq!(LibType::from_str("rfFirstStrand"), Ok(LibType::rfFirstStrand));
    assert_eq!(LibType::from_str("rfSecondStrand"), Ok(LibType::rfSecondStrand));
    assert_eq!(LibType::from_str("rFirstStrand"), Ok(LibType::rFirstStrand));
    assert_eq!(LibType::from_str("rSecondStrand"), Ok(LibType::rSecondStrand));
}

#[test]
fn parse_libtype_rejects_other_names() {
    assert_eq!(LibType::from_str("bogus"), Err(ParseLibType));
    assert_eq!(LibType::from_str("xyFirstStrand"), Err(ParseLibType));
    assert_eq!(LibType::from_str(""), Err(ParseLibType));
    assert_eq!(LibType::from_str("FRFIRSTSTRAND"), Err(ParseLibType));
    assert_eq!(LibType::from_str("Invalid"), Err(ParseLibType));
}

#[test]
fn f_first_strand_scenario() {
    // FIRST_IN_PAIR and READ_RERVERSE set, nothing else
    let flag = SamFlag::FIRST_IN_PAIR + SamFlag::READ_RERVERSE;
    assert_eq!(Some(Strand::Plus), LibType::fFirstStrand.get_strand(flag));
    assert_eq!(Some(Strand::Minus), LibType::fSecondStrand.get_strand(flag));
}

#[test]
fn paired_scenarios_all_layouts() {
    // 99 = PAIRED + PROPERLY_PAIRED + MATE_REVERSE + FIRST_IN_PAIR:
    // read 1 forward, its mate reverse-complemented.
    assert_eq!(Some(Strand::Minus), LibType::frFirstStrand.get_strand(99));
    assert_eq!(Some(Strand::Plus), LibType::frSecondStrand.get_strand(99));
    assert_eq!(Some(Strand::Plus), LibType::rfFirstStrand.get_strand(99));
    assert_eq!(Some(Strand::Minus), LibType::rfSecondStrand.get_strand(99));
    // 147 = PAIRED + PROPERLY_PAIRED + READ_RERVERSE + SECOND_IN_PAIR:
    // read 2 reverse-complemented, its mate forward.
    assert_eq!(Some(Strand::Minus), LibType::frFirstStrand.get_strand(147));
    assert_eq!(Some(Strand::Plus), LibType::frSecondStrand.get_strand(147));
    assert_eq!(Some(Strand::Plus), LibType::rfFirstStrand.get_strand(147));
    assert_eq!(Some(Strand::Minus), LibType::rfSecondStrand.get_strand(147));
    // both mates reverse-complemented, first in pair
    let both_rev = SamFlag::PAIRED
        + SamFlag::FIRST_IN_PAIR
        + SamFlag::READ_RERVERSE
        + SamFlag::MATE_REVERSE;
    assert_eq!(Some(Strand::Plus), LibType::ffFirstStrand.get_strand(both_rev));
    assert_eq!(Some(Strand::Minus), LibType::ffSecondStrand.get_strand(both_rev));
    // both mates forward, second in pair
    let both_fwd = SamFlag::PAIRED + SamFlag::SECOND_IN_PAIR;
    assert_eq!(Some(Strand::Minus), LibType::ffFirstStrand.get_strand(both_fwd));
    assert_eq!(Some(Strand::Plus), LibType::ffSecondStrand.get_strand(both_fwd));
}

#[test]
fn unpaired_layouts_have_distinct_rules() {
    let rev = SamFlag::FIRST_IN_PAIR + SamFlag::READ_RERVERSE;
    let fwd = SamFlag::FIRST_IN_PAIR;
    assert_eq!(Some(Strand::Plus), LibType::rFirstStrand.get_strand(rev));
    assert_eq!(Some(Strand::Minus), LibType::rFirstStrand.get_strand(fwd));
    assert_eq!(Some(Strand::Minus), LibType::rSecondStrand.get_strand(rev));
    assert_eq!(Some(Strand::Plus), LibType::rSecondStrand.get_strand(fwd));
}

#[test]
fn unresolved_flags_give_no_strand() {
    // no first/second-in-pair information at all
    assert_eq!(None, LibType::frFirstStrand.get_strand(0));
    assert_eq!(None, LibType::fFirstStrand.get_strand(0));
    // paired layouts cannot place an unpaired read
    assert_eq!(None, LibType::frFirstStrand.get_strand(SamFlag::FIRST_IN_PAIR));
    // the invalid marker resolves nothing
    assert_eq!(None, LibType::Invalid.get_strand(147));
    assert_eq!(None, LibType::Invalid.get_strand(99));
}

#[test]
fn resolution_is_exhaustive_and_unambiguous() {
    // over the whole 16-bit flag space and every protocol, the result is
    // one of Some(Plus), Some(Minus), None — never Some(NA)
    let libs = [
        LibType::frFirstStrand,
        LibType::frSecondStrand,
        LibType::fFirstStrand,
        LibType::fSecondStrand,
        LibType::ffFirstStrand,
        LibType::ffSecondStrand,
        LibType::rfFirstStrand,
        LibType::rfSecondStrand,
        LibType::rFirstStrand,
        LibType::rSecondStrand,
        LibType::Invalid,
    ];
    for lib in libs {
        for flag in 0..=u16::MAX {
            let r = lib.get_strand(flag);
            assert!(r == Some(Strand::Plus) || r == Some(Strand::Minus) || r == None);
        }
    }
}
