//! Alignment of content along the two layout axes: horizontal and vertical
//! alignments, their combination, inversion, folding and resolution to fixed
//! start/center/end positions for a given text direction.

pub mod layout;
pub mod eco;
pub mod fixed;
pub mod alignment;
pub mod error;
pub mod horizontal;
pub mod vertical;
pub mod specific;
pub mod laws;
pub mod identity;
