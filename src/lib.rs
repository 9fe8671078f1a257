//! Generation of random, well-formed ISBN-10 / ISBN-13 identifiers.

pub mod checksum;
pub mod digits;
pub mod isbn;
pub mod lookup;
mod random;
