use download_supervisor::ident::{
    decimal_text, download_id_for, fresh_download_id, generate_download_id, unix_millis, LAST_BASE,
};
use download_supervisor::registry::JobRegistry;

#[test]
fn zero_is_one_digit() {
    assert_eq!(decimal_text(0), "0");
}

#[test]
fn single_digits() {
    assert_eq!(decimal_text(7), "7");
    assert_eq!(decimal_text(9), "9");
}

#[test]
fn digits_come_in_reading_order() {
    assert_eq!(decimal_text(10), "10");
    assert_eq!(decimal_text(407), "407");
    assert_eq!(decimal_text(1234567890), "1234567890");
}

#[test]
fn the_largest_number() {
    assert_eq!(decimal_text(u128::MAX), "340282366920938463463374607431768211455");
    assert_eq!(decimal_text(u128::MAX), u128::MAX.to_string());
}

#[test]
fn decimal_agrees_with_the_standard_library() {
    let mut value: u128 = 1;
    let mut round = 0;
    while round < 38 {
        assert_eq!(decimal_text(value), value.to_string());
        assert_eq!(decimal_text(value - 1), (value - 1).to_string());
        value *= 10;
        round += 1;
    }
}

#[test]
fn identifier_for_given_milliseconds() {
    assert_eq!(download_id_for(0), "download_0");
    assert_eq!(download_id_for(1700000000000), "download_1700000000000");
}

#[test]
fn different_milliseconds_give_different_identifiers() {
    assert_ne!(download_id_for(1700000000000), download_id_for(1700000000001));
    assert_ne!(download_id_for(1), download_id_for(10));
}

#[test]
fn generated_identifier_is_the_prefix_and_a_number() {
    let id = generate_download_id().expect("the clock stands after the epoch");
    let digits = id.strip_prefix("download_").expect("the prefix");
    assert!(!digits.is_empty());
    assert!(digits.chars().all(|c| c.is_ascii_digit()));
    assert!(digits == "0" || !digits.starts_with('0'));
}

#[test]
fn generated_identifier_tells_the_time_of_the_launch() {
    let id = generate_download_id().expect("the clock stands after the epoch");
    let millis: u128 = id["download_".len()..].parse().expect("a number");
    // 2020-01-01 in milliseconds since the epoch: the clock of any machine
    // that runs this stands later.
    assert!(millis > 1_577_836_800_000);
    let later = generate_download_id().expect("the clock stands after the epoch");
    let later_millis: u128 = later["download_".len()..].parse().expect("a number");
    assert!(later_millis + 60_000 > millis);
}

#[test]
fn the_clock_stands_after_the_epoch() {
    let millis = unix_millis().expect("the clock stands after the epoch");
    assert!(millis > 1_577_836_800_000);
    assert!(millis < LAST_BASE);
}

#[test]
fn fresh_identifier_is_that_of_the_millisecond_where_it_is_free() {
    let mut registry: JobRegistry<u32> = JobRegistry::new();
    assert_eq!(fresh_download_id(&registry, 1700000000000), "download_1700000000000");
    assert!(registry.register(String::from("download_1699999999999"), 1).is_ok());
    assert!(registry.register(String::from("download_1700000000001"), 2).is_ok());
    assert_eq!(fresh_download_id(&registry, 1700000000000), "download_1700000000000");
}

#[test]
fn fresh_identifier_steps_over_live_jobs() {
    let mut registry: JobRegistry<u32> = JobRegistry::new();
    assert!(registry.register(String::from("download_500"), 1).is_ok());
    assert_eq!(fresh_download_id(&registry, 500), "download_501");
    assert!(registry.register(String::from("download_501"), 2).is_ok());
    assert!(registry.register(String::from("download_502"), 3).is_ok());
    assert!(registry.register(String::from("download_504"), 4).is_ok());
    assert_eq!(fresh_download_id(&registry, 500), "download_503");
    assert_eq!(fresh_download_id(&registry, 504), "download_505");
    assert_eq!(fresh_download_id(&registry, 499), "download_499");
}

#[test]
fn two_launches_in_one_millisecond_get_different_identifiers() {
    let mut registry: JobRegistry<u32> = JobRegistry::new();
    let first = fresh_download_id(&registry, 1700000000000);
    assert!(registry.register(first.clone(), 1).is_ok());
    let second = fresh_download_id(&registry, 1700000000000);
    assert!(registry.register(second.clone(), 2).is_ok());
    let third = fresh_download_id(&registry, 1700000000000);
    assert_ne!(first, second);
    assert_ne!(first, third);
    assert_ne!(second, third);
    assert_eq!(first, "download_1700000000000");
    assert_eq!(second, "download_1700000000001");
    assert_eq!(third, "download_1700000000002");
}

#[test]
fn an_identifier_is_free_again_once_its_job_is_over() {
    let mut registry: JobRegistry<u32> = JobRegistry::new();
    assert!(registry.register(String::from("download_7"), 1).is_ok());
    assert_eq!(fresh_download_id(&registry, 7), "download_8");
    assert_eq!(registry.take(&String::from("download_7")), Some(1));
    assert_eq!(fresh_download_id(&registry, 7), "download_7");
}

#[test]
fn the_search_sets_out_no_later_than_the_last_base() {
    let mut registry: JobRegistry<u32> = JobRegistry::new();
    assert_eq!(LAST_BASE, u128::MAX - u64::MAX as u128);
    assert_eq!(fresh_download_id(&registry, LAST_BASE), download_id_for(LAST_BASE));
    assert_eq!(fresh_download_id(&registry, u128::MAX), download_id_for(LAST_BASE));
    assert!(registry.register(download_id_for(LAST_BASE), 1).is_ok());
    assert_eq!(fresh_download_id(&registry, u128::MAX), download_id_for(LAST_BASE + 1));
}
