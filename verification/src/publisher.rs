//! The publishing backend as the companion sees it.

use vstd::prelude::*;
use crate::domain_spec::DomainSpec;

verus! {

/// A host and the domains to be routed to it: the unit that is handed to
/// the registry.
#[derive(Clone, Debug)]
pub struct Publication {
    pub host: String,
    pub specs: Vec<DomainSpec>,
}

/// Why the registry did not take a publication.
#[derive(Clone, Debug)]
pub struct PublishingError {
    /// The backend's own account of the failure.
    pub cause: String,
}

impl PublishingError {
    /// A copy of the failure.
    pub fn duplicate(&self) -> (copy: PublishingError)
        ensures
            copy == *self,
    {
        PublishingError { cause: self.cause.clone() }
    }
}

/// A registry that routing entries are written to. Nothing is asked of an
/// implementation: whatever it returns, the companion deals with it.
pub trait Publish {
    /// Registers `publication`, replacing what the registry held for its host.
    fn publish(&mut self, publication: &Publication) -> Result<(), PublishingError>;
}

/// `answer` is what the backend can answer when it is handed
/// `publication` through the call `handed`. The call holds the backend as
/// it is before and as it is left.
pub open spec fn publish_answers<P: Publish>(
    handed: &mut P,
    publication: Publication,
    answer: Result<(), PublishingError>,
) -> bool {
    call_ensures(P::publish, (handed, &publication), answer)
}

} // verus!
