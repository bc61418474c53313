use vstd::prelude::*;

verus! {

/// The inferred originating strand of a read: sense (`Plus`), antisense
/// (`Minus`), or undeterminable from the flag under the chosen protocol
/// (`NA`).
#[derive(Clone, Debug, Copy, Eq, Hash, PartialEq)]
pub enum Strand {
    Plus,
    Minus,
    NA,
}

/// Error returned when a piece of text is not one of the three canonical
/// strand encodings `"+"`, `"-"`, `"."`.
#[derive(Clone, Debug, Copy, Eq, PartialEq)]
pub struct ParseStrand;

/// Canonical single-character text of each strand value.
pub open spec fn spec_to_text(s: Strand) -> Seq<char> {
    match s {
        Strand::Plus => "+"@,
        Strand::Minus => "-"@,
        Strand::NA => "."@,
    }
}

/// The strand a piece of text denotes: exactly `"+"`, `"-"` and `"."` are
/// accepted; everything else is a parse error, never a silent default.
pub open spec fn spec_from_text(t: Seq<char>) -> Result<Strand, ParseStrand> {
    if t == "+"@ {
        Ok(Strand::Plus)
    } else if t == "-"@ {
        Ok(Strand::Minus)
    } else if t == "."@ {
        Ok(Strand::NA)
    } else {
        Err(ParseStrand)
    }
}

/// Relies on `str`'s `==` (`PartialEq` for `str`): true exactly when the two
/// strings hold the same sequence of characters.
#[verifier::external_body]
pub(crate) fn str_eq(a: &str, b: &str) -> (r: bool)
    ensures
        r == (a@ == b@),
{
    a == b
}

impl Strand {
    /// Canonical text of this strand value: `"+"`, `"-"` or `"."`.
    /// Total and one-to-one over the three variants.
    pub fn to_text(&self) -> (r: &'static str)
        ensures
            r@ == spec_to_text(*self),
    {
        match self {
            Strand::Plus => "+",
            Strand::Minus => "-",
            Strand::NA => ".",
        }
    }

    /// Parse a strand from its canonical text. Accepts exactly `"+"`, `"-"`
    /// and `"."`; any other input is reported as an error, never defaulted.
    pub fn from_text(s: &str) -> (r: Result<Strand, ParseStrand>)
        ensures
            r == spec_from_text(s@),
    {
        if str_eq(s, "+") {
            Ok(Strand::Plus)
        } else if str_eq(s, "-") {
            Ok(Strand::Minus)
        } else if str_eq(s, ".") {
            Ok(Strand::NA)
        } else {
            Err(ParseStrand)
        }
    }
}

/// Law: text round-trip. Parsing the canonical text of a strand yields that
/// same strand again, for all three strand values.
pub proof fn lemma_strand_text_round_trip(s: Strand)
    ensures
        spec_from_text(spec_to_text(s)) == Ok::<Strand, ParseStrand>(s),
{
    reveal_strlit("+");
    reveal_strlit("-");
    reveal_strlit(".");
    assert("+"@[0] == '+' && "-"@[0] == '-' && "."@[0] == '.');
    assert("+"@ != "-"@);
    assert("+"@ != "."@);
    assert("-"@ != "."@);
}

} // verus!
