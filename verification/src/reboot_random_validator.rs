//! An experiment that reboots one randomly chosen validator.
//!
//! Running the experiment — issuing the reboot over ssh and polling until
//! the instance is back — is I/O outside the library; here the experiment
//! is its decision: which instance is affected.

use vstd::prelude::*;

use crate::cluster::Cluster;
use crate::cluster::Instance;

verus! {

/// The experiment: one cluster member, chosen at construction, to be
/// rebooted.
pub struct RebootRandomValidator {
    instance: Instance,
}

impl RebootRandomValidator {
    /// The chosen instance.
    pub closed spec fn spec_instance(&self) -> Instance {
        self.instance
    }

    /// Picks a random member of the cluster as the reboot target.
    pub fn new(cluster: &Cluster) -> (r: Self)
        requires
            cluster.spec_instances().len() > 0,
        ensures
            exists|j: int|
                0 <= j < cluster.spec_instances().len() && r.spec_instance()
                    == #[trigger] cluster.spec_instances()[j],
    {
        Self { instance: cluster.random_instance() }
    }

    /// The validators the experiment touches: exactly the chosen one, by
    /// its short peer hash.
    pub fn affected_validators(&self) -> (r: Vec<String>)
        ensures
            r@.len() == 1,
            r@[0]@ == self.spec_instance().spec_short_hash(),
    {
        let mut v: Vec<String> = Vec::new();
        v.push(self.instance.short_hash().clone());
        v
    }
}

} // verus!
