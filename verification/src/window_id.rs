use vstd::prelude::*;

verus! {

/// The platform-native window identifier in its normalized form.
///
/// The snapshot platform addresses a window by a 32-bit window number
/// within the current user session; the handle platform addresses it by a
/// pointer-sized opaque handle whose significant bits fit in 32 bits.  The
/// library keeps the shared 32-bit projection, so identifiers behave the
/// same way in sets and maps on either platform.
pub type PlatformWindowId = u32;

/// A unique identifier for a window.
/// It is used to track windows across different platforms.
///
/// Equality and hashing are defined on the normalized 32-bit form returned
/// by [`WindowId::as_u32`], never on a wider native representation, so two
/// identifiers denote the same window exactly when their `as_u32` values
/// agree.
#[derive(Clone, Copy, Debug, PartialEq, Eq, Hash, Structural)]
pub struct WindowId(pub PlatformWindowId);

impl WindowId {
    /// Creates an identifier from a platform-native window identifier.
    pub fn new(id: PlatformWindowId) -> (r: Self)
        ensures
            r == (WindowId(id)),
    {
        WindowId(id)
    }

    /// Returns the underlying platform-specific window identifier.
    pub fn inner(&self) -> (r: &PlatformWindowId)
        ensures
            *r == self.0,
    {
        &self.0
    }

    /// Converts the [`WindowId`] to a `u32`.
    ///
    /// This is the platform-independent normalized numeric form: the window
    /// number on the snapshot platform, the low 32 bits of the native handle
    /// on the handle platform.
    pub fn as_u32(&self) -> (r: u32)
        ensures
            r == self.0,
    {
        self.0
    }
}

impl From<u32> for WindowId {
    /// Constructs an identifier from a caller-supplied 32-bit value.
    ///
    /// On the handle platform the value is later reinterpreted as a native
    /// handle; nothing validates here that a window with this identity
    /// exists.
    fn from(id: u32) -> (r: Self) {
        WindowId(id)
    }
}

impl vstd::std_specs::convert::FromSpecImpl<u32> for WindowId {
    open spec fn obeys_from_spec() -> bool {
        true
    }

    open spec fn from_spec(id: u32) -> WindowId {
        WindowId(id)
    }
}

/// Two identifiers are equal exactly when their normalized `as_u32` forms
/// are equal, so set and map membership is platform-uniform.
pub proof fn lemma_window_id_equality(a: WindowId, b: WindowId)
    ensures
        (a.0 == b.0) <==> (a == b),
{
}

/// Constructing a [`WindowId`] from a `u32` value and reading it back
/// through `as_u32` yields the value unchanged.
pub proof fn lemma_window_id_round_trip(v: u32)
    ensures
        <WindowId as vstd::std_specs::convert::FromSpec<u32>>::from_spec(v).0 == v,
{
}

} // verus!
