//! Layout: the space a parent offers a view, and the size the view takes.
use vstd::prelude::*;

use crate::primitives::Size;

verus! {

/// The space offered along one axis.
#[derive(Clone, Copy, Debug, PartialEq, Eq, Structural)]
pub enum ProposedDimension {
    /// Exactly this many points.
    Exact(u32),
    /// As little as the view needs.
    Compact,
    /// As much as the view wants.
    Infinite,
}

/// The resolved length along an axis for a view that takes as much of `offer`
/// as it can: an exact offer (at least `min`), the `ideal` length when asked to
/// be compact, and the largest length when the offer is infinite.
pub open spec fn resolve_most_flexible_spec(offer: ProposedDimension, min: u32, ideal: u32) -> u32 {
    match offer {
        ProposedDimension::Exact(n) => if n < min {
            min
        } else {
            n
        },
        ProposedDimension::Compact => ideal,
        ProposedDimension::Infinite => u32::MAX,
    }
}

impl ProposedDimension {
    /// The length taken by a view that takes as much of this offer as it can.
    pub fn resolve_most_flexible(self, min: u32, ideal: u32) -> (r: u32)
        ensures
            r == resolve_most_flexible_spec(self, min, ideal),
    {
        match self {
            ProposedDimension::Exact(n) => if n < min {
                min
            } else {
                n
            },
            ProposedDimension::Compact => ideal,
            ProposedDimension::Infinite => u32::MAX,
        }
    }
}

/// The space offered to a view.
#[derive(Clone, Copy, Debug, PartialEq, Eq, Structural)]
pub struct ProposedDimensions {
    pub width: ProposedDimension,
    pub height: ProposedDimension,
}

impl ProposedDimensions {
    /// The size taken by a view that takes as much of this offer as it can,
    /// along both axes.
    pub fn resolve_most_flexible(&self, min: u32, ideal: u32) -> (r: Size)
        ensures
            r == (Size {
                width: resolve_most_flexible_spec(self.width, min, ideal),
                height: resolve_most_flexible_spec(self.height, min, ideal),
            }),
    {
        Size {
            width: self.width.resolve_most_flexible(min, ideal),
            height: self.height.resolve_most_flexible(min, ideal),
        }
    }
}

/// The offer of exactly `size`.
pub open spec fn exact_offer(size: Size) -> ProposedDimensions {
    ProposedDimensions {
        width: ProposedDimension::Exact(size.width),
        height: ProposedDimension::Exact(size.height),
    }
}

impl From<Size> for ProposedDimensions {
    /// Offers exactly `size`.
    fn from(size: Size) -> (r: Self) {
        ProposedDimensions {
            width: ProposedDimension::Exact(size.width),
            height: ProposedDimension::Exact(size.height),
        }
    }
}

impl vstd::std_specs::convert::FromSpecImpl<Size> for ProposedDimensions {
    open spec fn obeys_from_spec() -> bool {
        true
    }

    open spec fn from_spec(size: Size) -> Self {
        exact_offer(size)
    }
}

/// The outcome of laying out a view: the layouts of its parts, and its size.
#[derive(Clone, Debug, PartialEq, Eq)]
pub struct ResolvedLayout<S> {
    pub sublayouts: S,
    pub resolved_size: Size,
}

/// What views may read while they are laid out and rendered.
#[derive(Clone, Copy, Debug, PartialEq, Eq, Structural)]
pub struct LayoutEnvironment {
    /// The time since the application started, in milliseconds.
    pub app_time_ms: u64,
}

} // verus!
