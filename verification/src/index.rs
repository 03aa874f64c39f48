use vstd::prelude::*;

verus! {

/// How the segments of a ring or a line are indexed by the geometry engine.
///
/// `Default` defers to the engine's process-wide default (natural ordering
/// unless it was changed), `NoIndex` disables indexing, `Natural` indexes the
/// segments in their natural ring order and `YStripes` stripes the segments
/// along the y axis (rings only).
#[derive(Clone, Copy, Debug, PartialEq, Eq, Structural, Hash)]
pub enum IndexType {
    Default,
    NoIndex,
    Natural,
    YStripes,
}

impl Default for IndexType {
    fn default() -> (r: IndexType)
        ensures
            r == IndexType::Default,
    {
        IndexType::Default
    }
}

} // verus!
