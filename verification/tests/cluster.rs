use libra_wallet::cluster::{Cluster, Instance};
use libra_wallet::reboot_random_validator::RebootRandomValidator;

#[test]
fn random_instance_is_a_member() {
    let cluster = Cluster::new(vec![
        Instance::new("aaaa1111".to_string(), "10.0.0.1".to_string()),
        Instance::new("bbbb2222".to_string(), "10.0.0.2".to_string()),
        Instance::new("cccc3333".to_string(), "10.0.0.3".to_string()),
    ]);
    let hashes: Vec<String> =
        cluster.instances().iter().map(|i| i.short_hash().clone()).collect();
    for _ in 0..16 {
        let picked = cluster.random_instance();
        assert!(hashes.contains(picked.short_hash()));
    }
}

#[test]
fn single_instance_cluster_always_picks_it() {
    let cluster = Cluster::new(vec![Instance::new("solo".to_string(), "127.0.0.1".to_string())]);
    assert_eq!(cluster.random_instance().short_hash(), "solo");
}

#[test]
fn reboot_experiment_affects_exactly_its_target() {
    let cluster = Cluster::new(vec![Instance::new("only".to_string(), "10.0.0.9".to_string())]);
    let experiment = RebootRandomValidator::new(&cluster);
    assert_eq!(experiment.affected_validators(), vec!["only".to_string()]);
}
