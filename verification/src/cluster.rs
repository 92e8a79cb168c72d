//! A cluster of validator instances, as test experiments see it.
//!
//! Discovering the instances — reading an inventory or querying a cloud
//! API — and acting on one over ssh are I/O outside the library; here a
//! cluster is the discovered list, guaranteed non-empty by its builder,
//! from which experiments pick a random member.

use vstd::prelude::*;

verus! {

/// One validator instance: its short peer hash and its address.
pub struct Instance {
    short_hash: String,
    ip: String,
}

impl Instance {
    /// The instance's short peer hash.
    pub closed spec fn spec_short_hash(&self) -> Seq<char> {
        self.short_hash@
    }

    /// The instance's network address.
    pub closed spec fn spec_ip(&self) -> Seq<char> {
        self.ip@
    }

    /// An instance from its short hash and address.
    pub fn new(short_hash: String, ip: String) -> (r: Instance)
        ensures
            r.spec_short_hash() == short_hash@,
            r.spec_ip() == ip@,
    {
        Instance { short_hash, ip }
    }

    /// The instance's short peer hash.
    pub fn short_hash(&self) -> (r: &String)
        ensures
            r@ == self.spec_short_hash(),
    {
        &self.short_hash
    }
}

impl Clone for Instance {
    fn clone(&self) -> (r: Self)
        ensures
            r == *self,
    {
        Instance { short_hash: self.short_hash.clone(), ip: self.ip.clone() }
    }
}

/// The discovered validator instances; meaningful only when non-empty.
pub struct Cluster {
    instances: Vec<Instance>,
}

/// Relies on `rand::random_range`: an index below `n`, chosen from a
/// thread-local generator.  Nothing is promised about which one.
#[verifier::external_body]
fn random_index(n: usize) -> (r: usize)
    requires
        n > 0,
    ensures
        r < n,
{
    rand::random_range(0..n)
}

impl Cluster {
    /// The instances of the cluster.
    pub closed spec fn spec_instances(&self) -> Seq<Instance> {
        self.instances@
    }

    /// A cluster over an already-discovered list of instances.
    pub fn new(instances: Vec<Instance>) -> (r: Cluster)
        ensures
            r.spec_instances() == instances@,
    {
        Cluster { instances }
    }

    /// The instances of the cluster.
    pub fn instances(&self) -> (r: &Vec<Instance>)
        ensures
            r@ == self.spec_instances(),
    {
        &self.instances
    }

    /// A randomly chosen member of the cluster.
    pub fn random_instance(&self) -> (r: Instance)
        requires
            self.spec_instances().len() > 0,
        ensures
            exists|j: int|
                0 <= j < self.spec_instances().len() && r == #[trigger] self.spec_instances()[j],
    {
        let i = random_index(self.instances.len());
        self.instances[i].clone()
    }
}

} // verus!
