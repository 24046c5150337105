use vstd::prelude::*;

verus! {

/// An opaque caller or account reference: a wallet, an agent, or the
/// registry authority. The host maps whatever account keys it
/// authenticates onto these tags; the registry only ever compares them
/// for equality.
#[derive(Clone, Copy, PartialEq, Eq, Structural, Debug, Hash)]
pub struct Identity {
    pub id: u64,
}

/// The unset identity: the value a freshly created record slot carries
/// before any wallet has been written into it.
pub open spec fn unset_identity() -> Identity {
    Identity { id: 0 }
}

impl Default for Identity {
    /// The default identity is the unset marker.
    fn default() -> (r: Identity)
        ensures
            r == unset_identity(),
    {
        Identity { id: 0 }
    }
}

} // verus!
