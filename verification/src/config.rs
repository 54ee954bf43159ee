use vstd::prelude::*;

verus! {

/// Wraps `WKUserInterfaceDirectionPolicy` values.
#[derive(Debug, Clone, Copy, PartialEq, Eq, Structural)]
pub enum UserInterfaceDirectionPolicy {
    /// Mirrors the `Content` case used by `WKUserInterfaceDirectionPolicy`.
    Content,
    /// Mirrors the `System` case used by `WKUserInterfaceDirectionPolicy`.
    System,
}

impl UserInterfaceDirectionPolicy {
    /// The raw `WKUserInterfaceDirectionPolicy` value of a policy.
    pub open spec fn raw_value(self) -> i32 {
        match self {
            UserInterfaceDirectionPolicy::Content => 0,
            UserInterfaceDirectionPolicy::System => 1,
        }
    }

    /// The policy that a raw value decodes to: unknown values fall back to `Content`.
    pub open spec fn from_raw_value(raw: i32) -> Self {
        if raw == 1 {
            UserInterfaceDirectionPolicy::System
        } else {
            UserInterfaceDirectionPolicy::Content
        }
    }

    /// Returns the corresponding value from `WKUserInterfaceDirectionPolicy`.
    #[must_use]
    pub fn as_raw(self) -> (raw: i32)
        ensures
            raw == self.raw_value(),
    {
        match self {
            UserInterfaceDirectionPolicy::Content => 0,
            UserInterfaceDirectionPolicy::System => 1,
        }
    }

    /// Creates a value for `WKUserInterfaceDirectionPolicy`.
    #[must_use]
    pub fn from_raw(raw: i32) -> (policy: Self)
        ensures
            policy == Self::from_raw_value(raw),
    {
        match raw {
            1 => UserInterfaceDirectionPolicy::System,
            _ => UserInterfaceDirectionPolicy::Content,
        }
    }
}


/// Wraps `WKAudiovisualMediaTypes`: a set of media-type flags held as bits.
#[derive(Debug, Clone, Copy, PartialEq, Eq, Structural)]
pub struct AudiovisualMediaTypes(u64);

impl View for AudiovisualMediaTypes {
    type V = u64;

    closed spec fn view(&self) -> u64 {
        self.0
    }
}

impl AudiovisualMediaTypes {
    /// Mirrors the `NONE` constant used by `WKAudiovisualMediaTypes`: no flag set.
    #[must_use]
    pub fn none() -> (types: Self)
        ensures
            types@ == 0,
    {
        AudiovisualMediaTypes(0)
    }

    /// Mirrors the `AUDIO` constant used by `WKAudiovisualMediaTypes`: bit 0.
    #[must_use]
    pub fn audio() -> (types: Self)
        ensures
            types@ == 1,
    {
        AudiovisualMediaTypes(1)
    }

    /// Mirrors the `VIDEO` constant used by `WKAudiovisualMediaTypes`: bit 1.
    #[must_use]
    pub fn video() -> (types: Self)
        ensures
            types@ == 2,
    {
        AudiovisualMediaTypes(2)
    }

    /// Mirrors the `ALL` constant used by `WKAudiovisualMediaTypes`: every bit set.
    #[must_use]
    pub fn all() -> (types: Self)
        ensures
            types@ == u64::MAX,
    {
        AudiovisualMediaTypes(u64::MAX)
    }

    /// Creates a value for `WKAudiovisualMediaTypes`.
    #[must_use]
    pub fn from_bits(bits: u64) -> (types: Self)
        ensures
            types@ == bits,
    {
        AudiovisualMediaTypes(bits)
    }

    /// Returns the corresponding value from `WKAudiovisualMediaTypes`.
    #[must_use]
    pub fn bits(self) -> (bits: u64)
        ensures
            bits == self@,
    {
        self.0
    }

    /// Returns whether this `WKAudiovisualMediaTypes` value contains the provided flags.
    #[must_use]
    pub fn contains(self, other: Self) -> (found: bool)
        ensures
            found == (self@ & other@ == other@),
    {
        (self.0 & other.0) == other.0
    }
}

impl Default for AudiovisualMediaTypes {
    fn default() -> (types: Self)
        ensures
            types@ == 0,
    {
        AudiovisualMediaTypes(0)
    }
}

impl core::ops::BitOr for AudiovisualMediaTypes {
    type Output = Self;

    fn bitor(self, rhs: Self) -> (union: Self)
        ensures
            union@ == self@ | rhs@,
    {
        AudiovisualMediaTypes(self.0 | rhs.0)
    }
}

impl vstd::std_specs::ops::BitOrSpecImpl for AudiovisualMediaTypes {
    open spec fn obeys_bitor_spec() -> bool {
        true
    }

    open spec fn bitor_req(self, rhs: Self) -> bool {
        true
    }

    closed spec fn bitor_spec(self, rhs: Self) -> Self {
        AudiovisualMediaTypes(self.0 | rhs.0)
    }
}

impl core::ops::BitOrAssign for AudiovisualMediaTypes {
    fn bitor_assign(&mut self, rhs: Self)
        ensures
            final(self)@ == old(self)@ | rhs@,
    {
        self.0 = self.0 | rhs.0;
    }
}

/// WebKit's `WKUserInterfaceDirectionPolicy` numbering: `Content` is 0 and `System` 1;
/// any other raw value decodes to `Content`, and the two policies have different raw values.
pub proof fn lemma_direction_policy_values(a: UserInterfaceDirectionPolicy, b: UserInterfaceDirectionPolicy, raw: i32)
    ensures
        UserInterfaceDirectionPolicy::Content.raw_value() == 0,
        UserInterfaceDirectionPolicy::System.raw_value() == 1,
        UserInterfaceDirectionPolicy::from_raw_value(0i32) == UserInterfaceDirectionPolicy::Content,
        UserInterfaceDirectionPolicy::from_raw_value(1i32) == UserInterfaceDirectionPolicy::System,
        (raw != 0 && raw != 1) ==> UserInterfaceDirectionPolicy::from_raw_value(raw) == UserInterfaceDirectionPolicy::Content,
        a.raw_value() == b.raw_value() ==> a == b,
{
}

/// A policy's raw value decodes back to the policy.
pub proof fn lemma_direction_policy_round_trip(policy: UserInterfaceDirectionPolicy)
    ensures
        UserInterfaceDirectionPolicy::from_raw_value(policy.raw_value()) == policy,
{
}

/// A flag set is its bits: two sets with the same bits are the same set, so
/// `from_bits(a.bits())` gives `a` back and `from_bits(0)`, `none()` and `default()`
/// give the same set.
pub proof fn lemma_media_types_same_bits(a: AudiovisualMediaTypes, b: AudiovisualMediaTypes)
    ensures
        a@ == b@ <==> a == b,
{
}

/// Flag-set laws: a union contains each operand, every set contains itself and the
/// empty set, the full set contains every set, containment is transitive, and union
/// does not depend on the order of its operands.
pub proof fn lemma_media_types_flags(
    a: AudiovisualMediaTypes,
    b: AudiovisualMediaTypes,
    c: AudiovisualMediaTypes,
)
    ensures
        (a@ | b@) & a@ == a@,
        (a@ | b@) & b@ == b@,
        a@ & a@ == a@,
        a@ & 0 == 0u64,
        u64::MAX & a@ == a@,
        (a@ & b@ == b@ && b@ & c@ == c@) ==> a@ & c@ == c@,
        a@ | b@ == b@ | a@,
{
    let (x, y, z) = (a@, b@, c@);
    assert((x | y) & x == x && (x | y) & y == y && x & x == x && x & 0 == 0u64 && u64::MAX & x
        == x && ((x & y == y && y & z == z) ==> x & z == z) && x | y == y | x) by (bit_vector);
}

} // verus!
