use starknet_simulation::weights::{Weight, WeightInfo};

#[test]
fn infinite_loop_weight_adds_eight_reads() {
    let weights = WeightInfo { db_read: 25_000_000 };
    assert_eq!(
        weights.infinite_loop(),
        Weight { ref_time: 4_599_155_000_000 + 8 * 25_000_000, proof_size: 41949044 }
    );
}

#[test]
fn infinite_loop_weight_without_read_cost() {
    let weights = WeightInfo { db_read: 0 };
    assert_eq!(
        weights.infinite_loop(),
        Weight { ref_time: 4_599_155_000_000, proof_size: 41949044 }
    );
}

#[test]
fn infinite_loop_weight_saturates() {
    let weights = WeightInfo { db_read: u64::MAX };
    assert_eq!(weights.infinite_loop(), Weight { ref_time: u64::MAX, proof_size: 41949044 });
    let weights = WeightInfo { db_read: u64::MAX / 8 };
    assert_eq!(weights.infinite_loop(), Weight { ref_time: u64::MAX, proof_size: 41949044 });
}
