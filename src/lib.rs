//! Small text utilities in the spirit of `cat`, `head` and `uniq`: the
//! decisions and transformations of each tool, with their contracts.
//! Reading sources and writing output is left to the caller.

pub mod error;
pub mod source;
pub mod text;

pub mod catr;
pub mod headr;
pub mod uniqr;
