use perps::ids::{new_v4_id, uuid_text};

#[test]
fn uuid_text_matches_uuid_display() {
    for v in [
        0u128,
        u128::MAX,
        0x67e5_5044_10b1_426f_9247_bb68_0e5f_e0c8,
        0x0123_4567_89ab_cdef_fedc_ba98_7654_3210,
    ] {
        assert_eq!(uuid_text(v), uuid::Uuid::from_u128(v).to_string());
    }
    assert_eq!(
        uuid_text(0x67e5_5044_10b1_426f_9247_bb68_0e5f_e0c8),
        "67e55044-10b1-426f-9247-bb680e5fe0c8"
    );
}

#[test]
fn random_ids_have_version_four() {
    for _ in 0..16 {
        let id = new_v4_id();
        assert_eq!((id >> 76) & 0xf, 4);
        assert_eq!((id >> 62) & 0x3, 2);
        assert_eq!(uuid::Uuid::from_u128(id).get_version_num(), 4);
    }
}
