//! Aggregate kinds.

use vstd::prelude::*;

verus! {

#[derive(Debug, Clone, Copy, PartialEq, Eq, Hash)]
pub enum AggKind {
    Avg,
    Max,
    Min,
    Sum,
    Count,
}

impl AggKind {
    /// Whether `distinct` changes what the aggregate computes: it does for
    /// sums and counts.
    pub open spec fn spec_allow_distinct(&self) -> bool {
        matches!(self, AggKind::Sum | AggKind::Count)
    }

    pub open spec fn spec_name(&self) -> Seq<char> {
        match self {
            AggKind::Avg => "Avg"@,
            AggKind::Max => "Max"@,
            AggKind::Min => "Min"@,
            AggKind::Sum => "Sum"@,
            AggKind::Count => "Count"@,
        }
    }

    pub fn allow_distinct(&self) -> (r: bool)
        ensures
            r == self.spec_allow_distinct(),
    {
        matches!(self, AggKind::Sum | AggKind::Count)
    }

    /// The name of the aggregate as rendered expressions show it.
    pub fn to_string(&self) -> (r: String)
        ensures
            r@ == self.spec_name(),
    {
        match self {
            AggKind::Avg => String::from_str("Avg"),
            AggKind::Max => String::from_str("Max"),
            AggKind::Min => String::from_str("Min"),
            AggKind::Sum => String::from_str("Sum"),
            AggKind::Count => String::from_str("Count"),
        }
    }
}

} // verus!
