use bb_bridge::srs::srs_points_for_circuit;
use bb_bridge::utils::compute_subgroup_size;
use bb_bridge::utils::get_honk_verification_key;

#[test]
fn test_compute_subgroup_size() {
    let mut subgroup_size = compute_subgroup_size(22);
    assert_eq!(subgroup_size, 32);

    subgroup_size = compute_subgroup_size(50);
    assert_eq!(subgroup_size, 64);

    subgroup_size = compute_subgroup_size(100);
    assert_eq!(subgroup_size, 128);

    subgroup_size = compute_subgroup_size(1000);
    assert_eq!(subgroup_size, 1024);

    subgroup_size = compute_subgroup_size(10000);
    assert_eq!(subgroup_size, 16384);

    subgroup_size = compute_subgroup_size(100000);
    assert_eq!(subgroup_size, 131072);

    subgroup_size = compute_subgroup_size(200000);
    assert_eq!(subgroup_size, 262144);

    subgroup_size = compute_subgroup_size(500000);
    assert_eq!(subgroup_size, 524288);

    subgroup_size = compute_subgroup_size(1000000);
    assert_eq!(subgroup_size, 1048576);
}

#[test]
fn subgroup_size_at_the_edges() {
    assert_eq!(compute_subgroup_size(1), 1);
    assert_eq!(compute_subgroup_size(2), 2);
    assert_eq!(compute_subgroup_size(3), 4);
    assert_eq!(compute_subgroup_size(1 << 20), 1 << 20);
    assert_eq!(compute_subgroup_size((1 << 20) + 1), 1 << 21);
    assert_eq!(compute_subgroup_size(0x8000_0000), 0x8000_0000);
    assert_eq!(compute_subgroup_size(0x4000_0001), 0x8000_0000);
}

#[test]
fn verification_key_retrieval_is_refused() {
    assert!(get_honk_verification_key("", false).is_err());
    assert!(get_honk_verification_key("anything", true).is_err());
}

#[test]
fn points_needed_is_subgroup_plus_one() {
    assert_eq!(srs_points_for_circuit(1000), 1025);
    assert_eq!(srs_points_for_circuit(1), 2);
    assert_eq!(srs_points_for_circuit(22), 33);
}
