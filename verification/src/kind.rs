//! The closed set of OS selection buffers, totally ordered.

use vstd::prelude::*;

verus! {

/// Which OS selection buffer a clip belongs to. The order
/// `Clipboard < Primary < Secondary` doubles as the tie-break when two
/// entries carry the same timestamp.
#[derive(Clone, Copy, Debug, PartialEq, Eq, Structural)]
pub enum ClipboardKind {
    Clipboard,
    Primary,
    Secondary,
}

impl ClipboardKind {
    /// Position of this kind in the total order.
    pub open spec fn rank_spec(self) -> int {
        match self {
            ClipboardKind::Clipboard => 0,
            ClipboardKind::Primary => 1,
            ClipboardKind::Secondary => 2,
        }
    }

    /// Executable counterpart of `rank_spec`.
    pub fn rank(self) -> (r: u8)
        ensures
            r as int == self.rank_spec(),
    {
        match self {
            ClipboardKind::Clipboard => 0,
            ClipboardKind::Primary => 1,
            ClipboardKind::Secondary => 2,
        }
    }
}

/// The order on kinds is total: ranks are distinct and determine equality.
pub proof fn lemma_kind_order_total(a: ClipboardKind, b: ClipboardKind)
    ensures
        a.rank_spec() == b.rank_spec() <==> a == b,
        0 <= a.rank_spec() <= 2,
{
}

} // verus!
