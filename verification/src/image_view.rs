//! Vocabulary of the image-viewing leaf widget. The widget's pixel work
//! (decoding, scaling, rotation) is leaf painting and lives with the
//! embedding application; the core only carries its display mode.

use vstd::prelude::*;

verus! {

/// How an image is fitted into its widget.
#[derive(Clone, Copy, Debug, PartialEq, Eq, Structural)]
pub enum DisplayType {
    /// Shown at its natural size.
    Actual,
    /// Scaled larger if necessary, never smaller.
    ScaleLarger,
    /// Scaled smaller if necessary, never larger.
    ScaleSmaller,
    /// Scaled larger or smaller as necessary.
    ScaleAlways,
}

} // verus!
