use substrate_verified::preimage::weights::{RuntimeDbWeight, SubstrateWeight, Weight, WeightInfo};

fn rocks_db() -> SubstrateWeight {
    SubstrateWeight { db_weight: RuntimeDbWeight { read: 25_000_000, write: 100_000_000 } }
}

fn free() -> SubstrateWeight {
    SubstrateWeight { db_weight: RuntimeDbWeight { read: 0, write: 0 } }
}

#[test]
fn weight_parts() {
    assert_eq!(Weight::from_parts(7, 9), Weight { ref_time: 7, proof_size: 9 });
}

#[test]
fn weights_add_part_by_part() {
    assert_eq!(
        Weight::from_parts(7, 9).saturating_add(Weight::from_parts(10, 100)),
        Weight::from_parts(17, 109)
    );
    assert_eq!(
        Weight::from_parts(u64::MAX - 1, 9).saturating_add(Weight::from_parts(5, u64::MAX)),
        Weight::from_parts(u64::MAX, u64::MAX)
    );
    assert_eq!(
        Weight::from_parts(u64::MAX - 1, 0).saturating_add(Weight::from_parts(1, 0)),
        Weight::from_parts(u64::MAX, 0)
    );
}

#[test]
fn weights_multiply_part_by_part() {
    assert_eq!(Weight::from_parts(7, 9).saturating_mul(3), Weight::from_parts(21, 27));
    assert_eq!(Weight::from_parts(7, 9).saturating_mul(0), Weight::from_parts(0, 0));
    assert_eq!(
        Weight::from_parts(1 << 40, 2).saturating_mul(1 << 40),
        Weight::from_parts(u64::MAX, 1 << 41)
    );
}

#[test]
fn reads_and_writes_take_time_only() {
    let db = RuntimeDbWeight { read: 25, write: 100 };
    assert_eq!(db.reads(3), Weight::from_parts(75, 0));
    assert_eq!(db.writes(2), Weight::from_parts(200, 0));
    assert_eq!(db.reads(0), Weight::from_parts(0, 0));
    assert_eq!(db.writes(u64::MAX), Weight::from_parts(u64::MAX, 0));
}

#[test]
fn note_preimage_grows_with_the_preimage() {
    assert_eq!(rocks_db().note_preimage(0), Weight::from_parts(248_381_775, 3556));
    assert_eq!(rocks_db().note_preimage(100), Weight::from_parts(248_548_775, 3556));
    assert_eq!(rocks_db().note_preimage(4_194_304), Weight::from_parts(7_252_869_455, 3556));
    assert_eq!(free().note_preimage(1), Weight::from_parts(23_383_445, 3556));
}

#[test]
fn note_requested_preimage_grows_with_the_preimage() {
    assert_eq!(rocks_db().note_requested_preimage(0), Weight::from_parts(243_393_879, 3556));
    assert_eq!(rocks_db().note_requested_preimage(10), Weight::from_parts(243_410_569, 3556));
    assert_eq!(free().note_requested_preimage(2), Weight::from_parts(18_397_217, 3556));
}

#[test]
fn note_no_deposit_preimage_grows_with_the_preimage() {
    assert_eq!(rocks_db().note_no_deposit_preimage(0), Weight::from_parts(247_031_627, 3556));
    assert_eq!(rocks_db().note_no_deposit_preimage(1000), Weight::from_parts(248_703_627, 3556));
    assert_eq!(free().note_no_deposit_preimage(u32::MAX), Weight::from_parts(7_181_207_348_867, 3556));
}

#[test]
fn calls_with_one_read_and_two_writes() {
    assert_eq!(rocks_db().unnote_preimage(), Weight::from_parts(265_247_000, 3556));
    assert_eq!(rocks_db().unnote_no_deposit_preimage(), Weight::from_parts(246_572_000, 3556));
    assert_eq!(rocks_db().unrequest_preimage(), Weight::from_parts(243_946_000, 3556));
    assert_eq!(free().unnote_preimage(), Weight::from_parts(40_247_000, 3556));
    assert_eq!(free().unnote_no_deposit_preimage(), Weight::from_parts(21_572_000, 3556));
    assert_eq!(free().unrequest_preimage(), Weight::from_parts(18_946_000, 3556));
}

#[test]
fn calls_with_one_read_and_one_write() {
    assert_eq!(rocks_db().request_preimage(), Weight::from_parts(143_899_000, 3556));
    assert_eq!(rocks_db().request_no_deposit_preimage(), Weight::from_parts(136_667_000, 3556));
    assert_eq!(rocks_db().request_unnoted_preimage(), Weight::from_parts(139_652_000, 3556));
    assert_eq!(rocks_db().request_requested_preimage(), Weight::from_parts(133_969_000, 3556));
    assert_eq!(rocks_db().unrequest_unnoted_preimage(), Weight::from_parts(133_272_000, 3556));
    assert_eq!(
        rocks_db().unrequest_multi_referenced_preimage(),
        Weight::from_parts(133_504_000, 3556)
    );
}

#[test]
fn a_weight_never_overflows() {
    let dear = SubstrateWeight { db_weight: RuntimeDbWeight { read: u64::MAX, write: 1 } };
    assert_eq!(dear.note_preimage(5), Weight::from_parts(u64::MAX, 3556));
    let dear = SubstrateWeight { db_weight: RuntimeDbWeight { read: 1, write: u64::MAX / 2 + 1 } };
    assert_eq!(dear.unnote_preimage(), Weight::from_parts(u64::MAX, 3556));
    assert_eq!(dear.request_preimage(), Weight::from_parts(u64::MAX / 2 + 1 + 18_899_001, 3556));
}
