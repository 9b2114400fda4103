use lib::raw::{
    count_from_raw, count_u32_from_raw, count_u32_or_zero, flag_from_raw, index_from_raw,
    int16_from_raw, int16_to_raw, non_empty,
};

#[test]
fn index_from_raw_rejects_negative() {
    assert_eq!(index_from_raw(0), Some(0));
    assert_eq!(index_from_raw(41), Some(41));
    assert_eq!(index_from_raw(-1), None);
    assert_eq!(index_from_raw(i32::MIN), None);
    assert_eq!(index_from_raw(i32::MAX), Some(i32::MAX as usize));
}

#[test]
fn count_from_raw_clamps_negative_to_zero() {
    assert_eq!(count_from_raw(7), 7);
    assert_eq!(count_from_raw(0), 0);
    assert_eq!(count_from_raw(-5), 0);
    assert_eq!(count_u32_or_zero(9), 9);
    assert_eq!(count_u32_or_zero(-1), 0);
}

#[test]
fn count_u32_from_raw_is_none_when_negative() {
    assert_eq!(count_u32_from_raw(3), Some(3));
    assert_eq!(count_u32_from_raw(-1), None);
}

#[test]
fn flag_from_raw_only_one_is_true() {
    assert!(flag_from_raw(1));
    assert!(!flag_from_raw(0));
    assert!(!flag_from_raw(2));
    assert!(!flag_from_raw(-1));
}

#[test]
fn int16_from_raw_keeps_low_bits() {
    assert_eq!(int16_from_raw(-7), -7);
    assert_eq!(int16_from_raw(32767), 32767);
    assert_eq!(int16_from_raw(70000), 4464);
    assert_eq!(int16_from_raw(32768), -32768);
    assert_eq!(int16_to_raw(Some(-3)), -3);
    assert_eq!(int16_to_raw(None), 0);
}

#[test]
fn non_empty_filters_empty_names() {
    assert_eq!(non_empty(String::new()), None);
    assert_eq!(non_empty("Fade".to_string()), Some("Fade".to_string()));
}
