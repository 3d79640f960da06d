//! Enumerations attached to transcript results.

use vstd::prelude::*;

verus! {

/// Which neighbouring word a punctuation result attaches to.
#[derive(Clone, Copy, Debug, Eq, PartialEq, Structural, Ord, PartialOrd, Hash)]
pub enum AttachesTo {
    Next,
    Previous,
    NotAttached,
    Both,
}

impl Default for AttachesTo {
    fn default() -> (r: AttachesTo)
        ensures
            r == AttachesTo::Next,
    {
        AttachesTo::Next
    }
}

/// The kind of item a recognition result describes.
#[derive(Clone, Copy, Debug, Eq, PartialEq, Structural, Ord, PartialOrd, Hash)]
pub enum RHashType {
    Word,
    Punctuation,
    SpeakerChange,
}

impl Default for RHashType {
    fn default() -> (r: RHashType)
        ensures
            r == RHashType::Word,
    {
        RHashType::Word
    }
}

} // verus!
