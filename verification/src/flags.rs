//! Bit flag types (`InloopFilterType`, `EventFlags`) and the
//! `DecodeFrameType` setting.
use vstd::prelude::*;

use crate::raw;

verus! {

/// In-loop filters to enable (a set of bit flags).
///
/// The flags combine with `|`.  Every value holds only the three filter
/// bits (deblocking, CDEF, loop restoration).
#[derive(Debug, Clone, Copy, PartialEq, Eq, Structural)]
pub struct InloopFilterType(u32);

impl View for InloopFilterType {
    type V = u32;

    /// The `Dav1dInloopFilterType` bits.
    closed spec fn view(&self) -> u32 {
        self.0
    }
}

impl InloopFilterType {
    /// Only the three filter bits may be set.
    #[verifier::type_invariant]
    closed spec fn only_filter_bits(self) -> bool {
        self.0 <= raw::INLOOPFILTER_ALL
    }

    /// No filter (0)
    #[allow(non_snake_case)]
    pub fn NONE() -> (r: Self)
        ensures
            r@ == raw::INLOOPFILTER_NONE,
    {
        InloopFilterType(raw::INLOOPFILTER_NONE)
    }

    /// Deblocking filter (1)
    #[allow(non_snake_case)]
    pub fn DEBLOCK() -> (r: Self)
        ensures
            r@ == raw::INLOOPFILTER_DEBLOCK,
    {
        InloopFilterType(raw::INLOOPFILTER_DEBLOCK)
    }

    /// CDEF filter (2)
    #[allow(non_snake_case)]
    pub fn CDEF() -> (r: Self)
        ensures
            r@ == raw::INLOOPFILTER_CDEF,
    {
        InloopFilterType(raw::INLOOPFILTER_CDEF)
    }

    /// Loop restoration filter (4)
    #[allow(non_snake_case)]
    pub fn RESTORATION() -> (r: Self)
        ensures
            r@ == raw::INLOOPFILTER_RESTORATION,
    {
        InloopFilterType(raw::INLOOPFILTER_RESTORATION)
    }

    /// All filters (7)
    #[allow(non_snake_case)]
    pub fn ALL() -> (r: Self)
        ensures
            r@ == raw::INLOOPFILTER_ALL,
    {
        InloopFilterType(raw::INLOOPFILTER_ALL)
    }

    /// The `Dav1dInloopFilterType` value for `Dav1dSettings`.
    pub fn to_raw(self) -> (r: u32)
        ensures
            r == self@,
            r <= raw::INLOOPFILTER_ALL,
    {
        proof {
            use_type_invariant(&self);
        }
        self.0
    }
}

impl core::ops::BitOr for InloopFilterType {
    type Output = Self;

    /// The union of two filter sets.
    fn bitor(self, rhs: Self) -> (r: Self)
        ensures
            r@ == self@ | rhs@,
            r@ <= raw::INLOOPFILTER_ALL,
    {
        proof {
            use_type_invariant(&self);
            use_type_invariant(&rhs);
        }
        let (a, b) = (self.0, rhs.0);
        assert(a <= 7 && b <= 7 ==> a | b <= 7) by (bit_vector);
        InloopFilterType(a | b)
    }
}

impl vstd::std_specs::ops::BitOrSpecImpl for InloopFilterType {
    open spec fn obeys_bitor_spec() -> bool {
        true
    }

    open spec fn bitor_req(self, rhs: Self) -> bool {
        true
    }

    closed spec fn bitor_spec(self, rhs: Self) -> Self {
        InloopFilterType(self.0 | rhs.0)
    }
}

/// An in-loop filter set is determined by its bits.
pub proof fn lemma_inloop_filter_view_injective(a: InloopFilterType, b: InloopFilterType)
    requires
        a@ == b@,
    ensures
        a == b,
{
}

/// `|` on filter sets is associative: `(a | b) | c == a | (b | c)`.
pub proof fn lemma_inloop_filter_bitor_associative(
    a: InloopFilterType,
    b: InloopFilterType,
    c: InloopFilterType,
)
    ensures
        (a@ | b@) | c@ == a@ | (b@ | c@),
{
    let (x, y, z) = (a@, b@, c@);
    assert((x | y) | z == x | (y | z)) by (bit_vector);
}

/// `|` on filter sets is commutative: `a | b == b | a`.
pub proof fn lemma_inloop_filter_bitor_commutative(a: InloopFilterType, b: InloopFilterType)
    ensures
        a@ | b@ == b@ | a@,
{
    let (x, y) = (a@, b@);
    assert(x | y == y | x) by (bit_vector);
}

/// `NONE` is the unit of `|`: `a | NONE == a`.
pub proof fn lemma_inloop_filter_bitor_identity(a: InloopFilterType)
    ensures
        a@ | raw::INLOOPFILTER_NONE == a@,
{
    let x = a@;
    assert(x | 0 == x) by (bit_vector);
}

/// `ALL` absorbs every filter set: `a | ALL == ALL`.
pub proof fn lemma_inloop_filter_bitor_absorbing(a: InloopFilterType)
    requires
        a@ <= raw::INLOOPFILTER_ALL,
    ensures
        a@ | raw::INLOOPFILTER_ALL == raw::INLOOPFILTER_ALL,
{
    let x = a@;
    assert(x <= 7 ==> x | 7 == 7) by (bit_vector);
}

/// Decoding event flags (a set of bit flags).
#[derive(Debug, Clone, Copy, PartialEq, Eq, Structural)]
pub struct EventFlags(u32);

impl View for EventFlags {
    type V = u32;

    /// The `Dav1dEventFlags` bits.
    closed spec fn view(&self) -> u32 {
        self.0
    }
}

impl EventFlags {
    /// A new sequence header was seen
    #[allow(non_snake_case)]
    pub fn NEW_SEQUENCE() -> (r: Self)
        ensures
            r@ == raw::EVENT_FLAG_NEW_SEQUENCE,
    {
        EventFlags(raw::EVENT_FLAG_NEW_SEQUENCE)
    }

    /// New operating parameter information was seen in the current sequence
    #[allow(non_snake_case)]
    pub fn NEW_OP_PARAMS_INFO() -> (r: Self)
        ensures
            r@ == raw::EVENT_FLAG_NEW_OP_PARAMS_INFO,
    {
        EventFlags(raw::EVENT_FLAG_NEW_OP_PARAMS_INFO)
    }

    /// The flags that `dav1d_get_event_flags` reported.
    pub fn from_raw(raw: u32) -> (r: Self)
        ensures
            r@ == raw,
    {
        EventFlags(raw)
    }

    /// Whether every bit of `flag` is set in `self`.
    pub fn contains(self, flag: Self) -> (r: bool)
        ensures
            r == (self@ & flag@ == flag@),
    {
        self.0 & flag.0 == flag.0
    }
}

/// Every flag set contains itself.
pub proof fn lemma_event_flags_contains_reflexive(f: EventFlags)
    ensures
        f@ & f@ == f@,
{
    let x = f@;
    assert(x & x == x) by (bit_vector);
}

/// Which frames the decoder decodes.
#[derive(Debug, Clone, Copy, PartialEq, Eq, Structural)]
pub enum DecodeFrameType {
    /// All frames
    All,
    /// Reference frames only
    Reference,
    /// Intra frames only (key frames included)
    Intra,
    /// Key frames only
    Key,
}

impl DecodeFrameType {
    /// The `Dav1dDecodeFrameType` code of each variant.
    pub open spec fn raw_code(self) -> u32 {
        match self {
            DecodeFrameType::All => raw::DECODEFRAMETYPE_ALL,
            DecodeFrameType::Reference => raw::DECODEFRAMETYPE_REFERENCE,
            DecodeFrameType::Intra => raw::DECODEFRAMETYPE_INTRA,
            DecodeFrameType::Key => raw::DECODEFRAMETYPE_KEY,
        }
    }

    /// The `Dav1dDecodeFrameType` value for `Dav1dSettings`.
    pub fn to_raw(self) -> (r: u32)
        ensures
            r == self.raw_code(),
    {
        match self {
            DecodeFrameType::All => raw::DECODEFRAMETYPE_ALL,
            DecodeFrameType::Reference => raw::DECODEFRAMETYPE_REFERENCE,
            DecodeFrameType::Intra => raw::DECODEFRAMETYPE_INTRA,
            DecodeFrameType::Key => raw::DECODEFRAMETYPE_KEY,
        }
    }
}

/// Distinct frame type selections are encoded by distinct dav1d codes.
pub proof fn lemma_decode_frame_type_code_injective(a: DecodeFrameType, b: DecodeFrameType)
    requires
        a.raw_code() == b.raw_code(),
    ensures
        a == b,
{
}

} // verus!
