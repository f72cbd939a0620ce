use dmnd_client::shared::utils::{sv1_rolling, Configure, HexU32Be, UserId};

#[test]
fn user_ids_are_written_in_decimal() {
    assert_eq!(UserId(0).to_string(), "0");
    assert_eq!(UserId(-42).to_string(), "-42");
    assert_eq!(UserId(1234567890).to_string(), "1234567890");
    assert_eq!(UserId(i64::MIN).to_string(), i64::MIN.to_string());
    assert_eq!(UserId(i64::MAX).to_string(), i64::MAX.to_string());
}

#[test]
fn version_rolling_is_granted_within_the_mask() {
    let ask = |mask: Option<u32>, count: Option<u32>| {
        sv1_rolling(&Configure {
            version_rolling_mask: mask.map(HexU32Be),
            version_rolling_min_bit_count: count.map(HexU32Be),
        })
    };
    assert_eq!(ask(None, None), (HexU32Be(0), HexU32Be(0)));
    assert_eq!(ask(Some(0xffffffff), Some(2)), (HexU32Be(0x1FFFE000), HexU32Be(2)));
    assert_eq!(ask(Some(0x00002001), None), (HexU32Be(0x00002000), HexU32Be(0)));
}
