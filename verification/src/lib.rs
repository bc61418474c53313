//! Strand classification for stranded RNA-seq alignments.
//!
//! Given the 16-bit flag of an alignment record and the layout of the
//! sequencing library, the crate decides which transcriptional strand the
//! read came from: `Plus`, `Minus`, or undecidable (`None` / `Strand::NA`).

pub mod flags;
pub mod libtype;
pub mod strand;

pub use flags::SamFlag;
pub use flags::check_flag;
pub use libtype::LibType;
pub use libtype::ParseLibType;
pub use strand::ParseStrand;
pub use strand::Strand;
