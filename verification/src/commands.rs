//! The subcommands that change or forward: `enable`, `disable`, and the
//! words that are handed on to the control program.

use vstd::prelude::*;

pub mod enable_disable;
pub mod external;

verus! {

/// The colour of a line that says how something went.
#[derive(Clone, Copy, Debug, PartialEq, Eq, Structural)]
pub enum LineColor {
    /// It went well.
    Green,
    /// It failed.
    Red,
}

} // verus!
