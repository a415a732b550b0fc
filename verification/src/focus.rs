//! Focus navigation primitives: directions, actions, default focus positions
//! and focus groups.
use vstd::prelude::*;
use vstd::std_specs::bits::u8_trailing_zeros;

verus! {

/// The direction to search when acquiring focus
#[derive(Clone, Copy, Debug, PartialEq, Eq, Structural)]
pub enum FocusDirection {
    /// Search forward (towards the end)
    Forward,
    /// Search backward (towards the beginning)
    Backward,
}

impl Default for FocusDirection {
    /// Forward is the default search direction.
    fn default() -> (r: Self)
        ensures
            r == FocusDirection::Forward,
    {
        FocusDirection::Forward
    }
}

/// A focus navigation request, delivered to a view tree.
#[derive(Clone, Copy, Debug, PartialEq, Eq, Structural)]
pub enum FocusAction {
    /// Move focus to the next element
    Next,
    /// Move focus to the previous element
    Previous,
    /// Obtain the selected container
    ///
    /// If the current container does not match the requested role mask,
    /// the direction will be used to obtain the nearest matching element.
    Focus(FocusDirection),
    /// Exit the selected container.
    ///
    /// Typically associated with the user pressing a "back" or "menu" button.
    Blur,
    /// Perform the focused element's primary action. If the currently focused element
    /// does not match the requested role set, this does nothing.
    Select,
}

/// A trait for focus tree types that can be initialized to either the first or last element.
///
/// This is roughly equivalent to `Default` but supports bidirectional navigation
pub trait DefaultFocus: Sized {
    /// Returns a focus tree initialized to the first element.
    fn default_first() -> Self;

    /// Returns a focus tree initialized to the last element.
    fn default_last() -> Self;
}

impl DefaultFocus for () {
    fn default_first() -> Self {
    }

    fn default_last() -> Self {
    }
}

/// The bit pattern of the common group, which matches every group.
pub const COMMON_GROUP_BITS: u8 = 0xff;

/// The bit patterns a focus group can hold: one of the eight single-bit
/// groups, or the common group with every bit set.
pub open spec fn valid_group_bits(b: u8) -> bool {
    ||| b == COMMON_GROUP_BITS
    ||| b == 1u8
    ||| b == 2u8
    ||| b == 4u8
    ||| b == 8u8
    ||| b == 16u8
    ||| b == 32u8
    ||| b == 64u8
    ||| b == 128u8
}

/// The bit pattern of the group with index `i` (0-7).
pub open spec fn group_bits(i: u8) -> u8 {
    (1u8 << i) as u8
}

/// Two groups match when they share at least one bit.
pub open spec fn groups_match(a: u8, b: u8) -> bool {
    a & b != 0
}

/// A group identifying a set of related elements.
#[derive(Clone, Copy, Debug, Eq)]
pub struct FocusGroup(u8);

impl View for FocusGroup {
    type V = u8;

    /// The group's bit pattern (always a valid one).
    closed spec fn view(&self) -> u8 {
        if valid_group_bits(self.0) {
            self.0
        } else {
            COMMON_GROUP_BITS
        }
    }
}

/// The group index of each single-bit pattern.
proof fn lemma_group_bits_index(i: u8)
    requires
        i < 8,
    ensures
        valid_group_bits(group_bits(i)),
        group_bits(i) != COMMON_GROUP_BITS,
        u8_trailing_zeros(group_bits(i)) == i,
{
    let x: u8 = (1u8 << i) as u8;
    assert(x != 0u8 && x != 0xffu8) by (bit_vector)
        requires
            x == 1u8 << i,
            i < 8,
    ;
    assert(x == 1u8 || x == 2u8 || x == 4u8 || x == 8u8 || x == 16u8 || x == 32u8 || x == 64u8
        || x == 128u8) by (bit_vector)
        requires
            x == 1u8 << i,
            i < 8,
    ;
    vstd::std_specs::bits::axiom_u8_trailing_zeros(x);
    let t = u8_trailing_zeros(x);
    assert((x >> i) & 1u8 == 1u8) by (bit_vector)
        requires
            x == 1u8 << i,
            i < 8,
    ;
    if (t as u8) < i {
        let tt = t as u8;
        assert((x >> tt) & 1u8 == 0u8) by (bit_vector)
            requires
                x == 1u8 << i,
                i < 8,
                tt < i,
        ;
    }
}

/// Every single-bit pattern is the pattern of some group index.
proof fn lemma_single_bit_has_index(b: u8)
    requires
        valid_group_bits(b),
        b != COMMON_GROUP_BITS,
    ensures
        exists|i: u8| i < 8 && #[trigger] group_bits(i) == b,
{
    assert(1u8 << 0u8 == 1u8 && 1u8 << 1u8 == 2u8 && 1u8 << 2u8 == 4u8 && 1u8 << 3u8 == 8u8
        && 1u8 << 4u8 == 16u8 && 1u8 << 5u8 == 32u8 && 1u8 << 6u8 == 64u8 && 1u8 << 7u8
        == 128u8) by (bit_vector);
    if b == 1 {
        assert(group_bits(0) == b);
    } else if b == 2 {
        assert(group_bits(1) == b);
    } else if b == 4 {
        assert(group_bits(2) == b);
    } else if b == 8 {
        assert(group_bits(3) == b);
    } else if b == 16 {
        assert(group_bits(4) == b);
    } else if b == 32 {
        assert(group_bits(5) == b);
    } else if b == 64 {
        assert(group_bits(6) == b);
    } else {
        assert(group_bits(7) == b);
    }
}

/// A group created from index `i` reports `i` back as its index: distinct
/// indices give distinct groups.
pub proof fn lemma_group_index_round_trip(i: u8, k: u8)
    requires
        i < 8,
        k < 8,
        group_bits(k) == group_bits(i),
    ensures
        k == i,
{
    lemma_group_bits_index(i);
    lemma_group_bits_index(k);
}

/// The common group equals every group, in either order.
pub proof fn lemma_common_group_matches_all(b: u8)
    requires
        valid_group_bits(b),
    ensures
        groups_match(COMMON_GROUP_BITS, b),
        groups_match(b, COMMON_GROUP_BITS),
{
    assert(valid_group_bits(b) ==> (0xffu8 & b != 0u8 && b & 0xffu8 != 0u8)) by (bit_vector);
}

/// Group equality is reflexive and symmetric.
pub proof fn lemma_group_match_reflexive_symmetric(a: u8, b: u8)
    requires
        valid_group_bits(a),
        valid_group_bits(b),
    ensures
        groups_match(a, a),
        groups_match(a, b) == groups_match(b, a),
{
    assert(valid_group_bits(a) ==> a & a != 0u8) by (bit_vector);
    assert(a & b == b & a) by (bit_vector);
}

/// Groups with different indices are not equal.
pub proof fn lemma_distinct_groups_differ(i: u8, j: u8)
    requires
        i < 8,
        j < 8,
        i != j,
    ensures
        !groups_match(group_bits(i), group_bits(j)),
{
    assert((1u8 << i) & (1u8 << j) == 0u8) by (bit_vector)
        requires
            i < 8,
            j < 8,
            i != j,
    ;
}

/// Every focus group holds a valid bit pattern: the common group's, or that
/// of one of the eight indexed groups.
pub proof fn lemma_group_valid(group: FocusGroup)
    ensures
        valid_group_bits(group@),
{
}

impl FocusGroup {
    #[verifier::type_invariant]
    closed spec fn inv(self) -> bool {
        valid_group_bits(self.0)
    }

    /// Creates a focus group with the specified group index (0-7)
    #[must_use]
    pub fn new(i: u8) -> (r: Option<Self>)
        ensures
            r is Some <==> i < 8,
            r matches Some(g) ==> g@ == group_bits(i) && valid_group_bits(g@) && g@ != COMMON_GROUP_BITS,
    {
        if i < 8 {
            proof {
                lemma_group_bits_index(i);
            }
            Some(Self(1u8 << i))
        } else {
            None
        }
    }

    /// Creates a focus group with the specified group index (0-7)
    #[must_use]
    pub fn new_unchecked(i: u8) -> (r: Self)
        requires
            i < 8,
        ensures
            r@ == group_bits(i),
            valid_group_bits(r@),
            r@ != COMMON_GROUP_BITS,
    {
        proof {
            lemma_group_bits_index(i);
        }
        Self(1u8 << i)
    }

    /// The common group, matching all other groups
    #[must_use]
    pub fn common_group() -> (r: Self)
        ensures
            r@ == COMMON_GROUP_BITS,
    {
        Self(COMMON_GROUP_BITS)
    }

    /// Returns true if this is the common group.
    #[must_use]
    pub fn is_common_group(self) -> (r: bool)
        ensures
            r == (self@ == COMMON_GROUP_BITS),
    {
        let common = Self::common_group();
        proof {
            use_type_invariant(&self);
            use_type_invariant(&common);
        }
        self.0 == common.0
    }

    /// Returns the underlying group index (0-7) for this focus group, or None if
    /// this is the common group.
    #[must_use]
    pub fn index(self) -> (r: Option<u8>)
        ensures
            r is None <==> self@ == COMMON_GROUP_BITS,
            r matches Some(i) ==> i < 8 && group_bits(i) == self@,
    {
        proof {
            use_type_invariant(self);
        }
        if self.is_common_group() {
            None
        } else {
            proof {
                lemma_single_bit_has_index(self.0);
                let i = choose|i: u8| i < 8 && #[trigger] group_bits(i) == self.0;
                lemma_group_bits_index(i);
            }
            Some(self.0.trailing_zeros() as u8)
        }
    }
}

impl Default for FocusGroup {
    /// The common group.
    fn default() -> (r: Self)
        ensures
            r@ == COMMON_GROUP_BITS,
    {
        Self::common_group()
    }
}

impl PartialEq for FocusGroup {
    /// Groups are equal when they share a bit, so the common group equals every group.
    fn eq(&self, other: &Self) -> (r: bool) {
        proof {
            use_type_invariant(self);
            use_type_invariant(other);
        }
        (self.0 & other.0) != 0
    }
}

impl vstd::std_specs::cmp::PartialEqSpecImpl for FocusGroup {
    open spec fn obeys_eq_spec() -> bool {
        true
    }

    open spec fn eq_spec(&self, other: &Self) -> bool {
        groups_match(self@, other@)
    }
}

} // verus!
