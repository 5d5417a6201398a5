//! Bitmap handles and the paint-source model.

use vstd::prelude::*;

use crate::color::PittoreColor;

verus! {

/// An opaque bitmap reference.
///
/// A handle is composed of a namespace, which identifies the backend or
/// resource family that issued it, and a backend-local id, assigned
/// monotonically per render target starting at 0. The handle carries no
/// entitlement, only an index: passing a handle that a target never issued
/// to a fill is a caller error that the pass recovers from locally.
#[derive(Clone, Copy, Debug, PartialEq, Eq, PartialOrd, Ord, Hash, Structural)]
pub struct PittoreBitmap {
    namespace: u64,
    id: u64,
}

impl PittoreBitmap {
    /// The namespace the handle was issued under.
    pub closed spec fn spec_namespace(self) -> u64 {
        self.namespace
    }

    /// The backend-local id of the handle.
    pub closed spec fn spec_id(self) -> u64 {
        self.id
    }

    /// Builds a handle from a namespace and an id.
    pub fn new(namespace: u64, id: u64) -> (r: Self)
        ensures
            r.spec_namespace() == namespace,
            r.spec_id() == id,
    {
        PittoreBitmap { namespace, id }
    }

    /// Returns the namespace the handle was issued under.
    pub fn namespace(&self) -> (r: u64)
        ensures
            r == self.spec_namespace(),
    {
        self.namespace
    }

    /// Returns the backend-local id of the handle.
    pub fn id(&self) -> (r: u64)
        ensures
            r == self.spec_id(),
    {
        self.id
    }
}

/// What paints a shape: a cached bitmap or a solid color.
#[derive(Clone, Copy, Debug, PartialEq, Eq, Structural)]
pub enum PittoreMaterial {
    /// Paint with the cached bitmap the handle names.
    Bitmap(PittoreBitmap),
    /// Paint with a solid color.
    Color(PittoreColor),
}

impl From<PittoreBitmap> for PittoreMaterial {
    fn from(value: PittoreBitmap) -> (r: Self) {
        PittoreMaterial::Bitmap(value)
    }
}

impl vstd::std_specs::convert::FromSpecImpl<PittoreBitmap> for PittoreMaterial {
    open spec fn obeys_from_spec() -> bool {
        true
    }

    open spec fn from_spec(v: PittoreBitmap) -> Self {
        PittoreMaterial::Bitmap(v)
    }
}

impl From<PittoreColor> for PittoreMaterial {
    fn from(value: PittoreColor) -> (r: Self) {
        PittoreMaterial::Color(value)
    }
}

impl vstd::std_specs::convert::FromSpecImpl<PittoreColor> for PittoreMaterial {
    open spec fn obeys_from_spec() -> bool {
        true
    }

    open spec fn from_spec(v: PittoreColor) -> Self {
        PittoreMaterial::Color(v)
    }
}

} // verus!
