use media_recommendation_engine::clock::{clamp_nanos, nanos_since_epoch};
use media_recommendation_engine::errorext::{ConvertErr, HandleErr, Ignore};
use media_recommendation_engine::hashing::hash_samples;
use media_recommendation_engine::parsing::{ParseBetween, ParseUntil};
use media_recommendation_engine::random::{fold_into_range, pseudo_random, pseudo_random_range};
use media_recommendation_engine::text::Pattern;

#[test]
fn sha256_of_sampled_bytes() {
    let expected: Vec<u8> = vec![
        0xba, 0x78, 0x16, 0xbf, 0x8f, 0x01, 0xcf, 0xea, 0x41, 0x41, 0x40, 0xde, 0x5d, 0xae, 0x22,
        0x23, 0xb0, 0x03, 0x61, 0xa3, 0x96, 0x17, 0x7a, 0x9c, 0xb4, 0x10, 0xff, 0x61, 0xf2, 0x00,
        0x15, 0xad,
    ];
    assert_eq!(hash_samples(&vec![b"abc".to_vec()]), expected);
    assert_eq!(hash_samples(&vec![b"a".to_vec(), b"bc".to_vec()]), expected);
    assert_ne!(hash_samples(&vec![b"abd".to_vec()]), expected);
}

#[test]
fn results_become_options() {
    let ok: Result<u8, String> = Ok(3);
    let err: Result<u8, String> = Err("x".to_string());
    assert_eq!(ok.clone().log_err(), Some(3));
    assert_eq!(err.clone().log_err(), None);
    assert_eq!(err.clone().log_warn_with_msg("m"), None);
    assert_eq!(ok.clone().log_warn(), Some(3));
    assert_eq!(ok.log_err_with_msg("m"), Some(3));
    5u8.ignore();
}

#[test]
fn errors_convert_with_from() {
    let r: Result<u8, u8> = Err(7);
    let c: Result<u8, u32> = r.convert_err();
    assert_eq!(c, Err(7u32));
    let r: Result<u8, u8> = Ok(1);
    assert_eq!(r.convert_err::<u64>(), Ok(1));
}

#[test]
fn numbers_between_delimiters() {
    let non_digit = Pattern::NonDigit;
    assert_eq!("12)rest".parse_until(&Pattern::Char(')'), u64::MAX), Some(12));
    assert_eq!("+7".parse_until(&Pattern::Char(')'), u64::MAX), Some(7));
    assert_eq!("abc".parse_until(&Pattern::Char(')'), u64::MAX), None);
    assert_eq!("300".parse_until(&Pattern::Char(')'), 255), None);
    assert_eq!(" s02e05".parse_between(&Pattern::Char('e'), &non_digit, u64::MAX), Some(5));
    assert_eq!("season 4 - x".parse_between(&Pattern::Text("season ".chars().collect()), &non_digit, u64::MAX), Some(4));
    assert_eq!("no key".parse_between(&Pattern::Char('q'), &non_digit, u64::MAX), None);
}

#[test]
fn pseudo_random_numbers_stay_in_range() {
    assert!(pseudo_random() < 1_000_000_000);
    for _ in 0..20 {
        let r = pseudo_random_range(5, 9);
        assert!((5..9).contains(&r));
    }
    assert_eq!(fold_into_range(17, 10, 15), 12);
}

#[test]
fn nanoseconds_are_clamped_into_u64() {
    assert_eq!(clamp_nanos(5), 5);
    assert_eq!(clamp_nanos(u64::MAX as u128), u64::MAX);
    assert_eq!(clamp_nanos(u64::MAX as u128 + 1), u64::MAX);
    assert_eq!(clamp_nanos(u128::MAX), u64::MAX);
    assert!(nanos_since_epoch() > 0);
}
