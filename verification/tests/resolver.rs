use snowflake_id_worker::coordinate::{ConfigurationError, Coordinate};
use snowflake_id_worker::decimal::{chars_of, parse_byte, parse_byte_from};
use snowflake_id_worker::generator::Generator;
use snowflake_id_worker::resolver::{
    is_from_hostname, resolve_coordinate, resolve_worker_id, suffix_start, FROM_HOSTNAME,
};

fn generator_or_panic(worker_id: &str, data_center_id: &str, hostname: &str, epoch: Option<u64>) -> Generator {
    match Generator::from_settings(worker_id, data_center_id, hostname, epoch) {
        Ok(generator) => generator,
        Err(e) => panic!("{}", e.message()),
    }
}

#[test]
fn test_env_parsing_default_values() {
    let mut generator = generator_or_panic("0", "0", "localhost", None);
    let id = generator.generate_one().unwrap();
    assert!(id > 0);
}

#[test]
fn test_env_parsing_worker_id() {
    let mut generator = generator_or_panic("15", "0", "localhost", None);
    let id = generator.generate_one().unwrap();
    assert!(id > 0);
    assert_eq!(generator.coordinate().worker_id(), 15);
    assert_eq!(generator.coordinate().datacenter_id(), 0);
}

#[test]
fn test_env_parsing_data_center_id() {
    let mut generator = generator_or_panic("0", "10", "localhost", None);
    let id = generator.generate_one().unwrap();
    assert!(id > 0);
    assert_eq!(generator.coordinate().worker_id(), 0);
    assert_eq!(generator.coordinate().datacenter_id(), 10);
}

#[test]
fn test_env_parsing_epoch() {
    let mut generator = generator_or_panic("5", "3", "localhost", Some(1420070400000));
    let id = generator.generate_one().unwrap();
    assert!(id > 0);
    assert_eq!(generator.epoch_ms(), 1420070400000);
}

#[test]
fn test_env_parsing_max_values() {
    let mut generator = generator_or_panic("31", "31", "localhost", None);
    let id = generator.generate_one().unwrap();
    assert!(id > 0);
    assert_eq!(generator.coordinate().worker_id(), 31);
    assert_eq!(generator.coordinate().datacenter_id(), 31);
}

#[test]
fn test_env_parsing_hostnames() {
    let valid_hostnames = vec![
        ("app-15", 15),
        ("service-worker-10", 10),
        ("my-pod-name-7", 7),
        ("test-0", 0),
        ("meow-meow-31", 31),
    ];

    for (hostname, worker) in valid_hostnames {
        let mut generator = generator_or_panic("FROM_HOSTNAME", "0", hostname, None);
        let id = generator.generate_one().unwrap();
        assert!(id > 0, "Failed for hostname: {hostname}");
        assert_eq!(generator.coordinate().worker_id(), worker, "Failed for hostname: {hostname}");
    }
}

#[test]
#[should_panic(expected = "cannot split WORKER_ID from hostname")]
fn test_env_parsing_hostname_no_dash() {
    generator_or_panic("FROM_HOSTNAME", "0", "nodasheshere", None);
}

#[test]
#[should_panic(expected = "cannot parse WORKER_ID from hostname")]
fn test_env_parsing_hostname_invalid_suffix() {
    generator_or_panic("FROM_HOSTNAME", "0", "hostname-invalid", None);
}

#[test]
#[should_panic(expected = "cannot parse WORKER_ID from hostname")]
fn test_env_parsing_hostname_empty_suffix() {
    generator_or_panic("FROM_HOSTNAME", "0", "hostname-", None);
}

#[test]
#[should_panic(expected = "cannot parse WORKER_ID as a valid u8")]
fn test_env_parsing_invalid_worker_id() {
    generator_or_panic("invalid", "0", "localhost", None);
}

#[test]
#[should_panic(expected = "DATA_CENTER_ID must be less than")]
fn test_env_parsing_data_center_id_too_large() {
    generator_or_panic("0", "32", "localhost", None);
}

#[test]
#[should_panic(expected = "WORKER_ID must be less than")]
fn test_env_parsing_worker_id_too_large() {
    generator_or_panic("32", "0", "localhost", None);
}

#[test]
#[should_panic(expected = "WORKER_ID must be less than")]
fn test_env_parsing_hostname_worker_id_too_large() {
    generator_or_panic("FROM_HOSTNAME", "0", "hostname-32", None);
}

#[test]
fn host_identity_gives_the_worker_id() {
    assert_eq!(resolve_worker_id("FROM_HOSTNAME", "service-7"), Ok(7));
    assert_eq!(resolve_worker_id("FROM_HOSTNAME", "nodash"), Err(ConfigurationError::HostnameWithoutDash));
}

#[test]
fn sentinel_is_matched_whatever_the_case() {
    assert_eq!(FROM_HOSTNAME, "FROM_HOSTNAME");
    assert!(is_from_hostname("FROM_HOSTNAME"));
    assert!(is_from_hostname("from_hostname"));
    assert!(is_from_hostname("From_HostName"));
    assert!(!is_from_hostname("FROM-HOSTNAME"));
    assert!(!is_from_hostname("FROM_HOSTNAME "));
    assert!(!is_from_hostname("FROM_HOSTNAM"));
    assert!(!is_from_hostname(""));
    assert!(!is_from_hostname("FROM\u{7f}HOSTNAME"));
    assert!(!is_from_hostname("FROM_HOSTN\u{212a}ME"));
    assert_eq!(resolve_worker_id("from_hostname", "pod-3"), Ok(3));
}

#[test]
fn suffix_starts_after_the_last_dash() {
    assert_eq!(suffix_start(&chars_of("service-7")), Some(8));
    assert_eq!(suffix_start(&chars_of("a-b-c")), Some(4));
    assert_eq!(suffix_start(&chars_of("-")), Some(1));
    assert_eq!(suffix_start(&chars_of("trailing-")), Some(9));
    assert_eq!(suffix_start(&chars_of("nodash")), None);
    assert_eq!(suffix_start(&chars_of("")), None);
    assert_eq!(suffix_start(&chars_of("h\u{e9}te-4")), Some(5));
}

#[test]
fn chars_of_gives_every_character_in_order() {
    assert_eq!(chars_of(""), Vec::<char>::new());
    assert_eq!(chars_of("pod-7"), vec!['p', 'o', 'd', '-', '7']);
    assert_eq!(chars_of("h\u{e9}\u{1F600}-"), vec!['h', '\u{e9}', '\u{1F600}', '-']);
}

#[test]
fn worker_id_is_taken_after_the_last_dash_only() {
    assert_eq!(resolve_worker_id("FROM_HOSTNAME", "7-service"), Err(ConfigurationError::HostnameSuffixNotNumeric));
    assert_eq!(resolve_worker_id("FROM_HOSTNAME", "a-1-b-2"), Ok(2));
    assert_eq!(resolve_worker_id("FROM_HOSTNAME", "pod--5"), Ok(5));
    assert_eq!(resolve_worker_id("FROM_HOSTNAME", "pod-255"), Ok(255));
    assert_eq!(resolve_worker_id("FROM_HOSTNAME", "pod-256"), Err(ConfigurationError::HostnameSuffixNotNumeric));
    assert_eq!(resolve_worker_id("FROM_HOSTNAME", "pod-007"), Ok(7));
    assert_eq!(resolve_worker_id("FROM_HOSTNAME", "pod-+7"), Ok(7));
    assert_eq!(resolve_worker_id("FROM_HOSTNAME", "pod-7 "), Err(ConfigurationError::HostnameSuffixNotNumeric));
    assert_eq!(resolve_worker_id("FROM_HOSTNAME", "h\u{e9}te-4"), Ok(4));
}

#[test]
fn explicit_worker_id_ignores_the_host_name() {
    assert_eq!(resolve_worker_id("12", "pod-3"), Ok(12));
    assert_eq!(resolve_worker_id("12", "nodash"), Ok(12));
    assert_eq!(resolve_worker_id("200", "pod-3"), Ok(200));
    assert_eq!(resolve_worker_id("", "pod-3"), Err(ConfigurationError::WorkerIdNotNumeric));
    assert_eq!(resolve_worker_id("-1", "pod-3"), Err(ConfigurationError::WorkerIdNotNumeric));
    assert_eq!(resolve_worker_id("256", "pod-3"), Err(ConfigurationError::WorkerIdNotNumeric));
}

#[test]
fn parse_byte_agrees_with_the_standard_library() {
    let samples = [
        "", "0", "7", "31", "32", "255", "256", "999", "0255", "000000000000000000000031", "+", "+0",
        "+31", "++1", "-0", "-1", "1-", " 1", "1 ", "1_0", "0x1f", "1e1", "3.0", "\u{663}", "12a", "a12",
        "4294967327", "18446744073709551647",
    ];
    for text in samples {
        assert_eq!(parse_byte(text), text.parse::<u8>().ok(), "for {text:?}");
    }
}

#[test]
fn parse_byte_from_reads_the_tail() {
    assert_eq!(parse_byte_from(&chars_of("abc42"), 3), Some(42));
    assert_eq!(parse_byte_from(&chars_of("abc42"), 4), Some(2));
    assert_eq!(parse_byte_from(&chars_of("abc42"), 5), None);
    assert_eq!(parse_byte_from(&chars_of("abc42"), 6), None);
    assert_eq!(parse_byte_from(&chars_of("abc42"), usize::MAX), None);
    assert_eq!(parse_byte_from(&chars_of("abc42"), 2), None);
    assert_eq!(parse_byte_from(&chars_of("abc+42"), 3), Some(42));
    assert_eq!(parse_byte_from(&chars_of("\u{e9}\u{e9}9"), 2), Some(9));
}

#[test]
fn coordinate_holds_ids_up_to_thirty_one() {
    let coordinate = Coordinate::new(31, 0).unwrap();
    assert_eq!(coordinate.datacenter_id(), 31);
    assert_eq!(coordinate.worker_id(), 0);
    assert_eq!(Coordinate::new(0, 31).map(|c| c.worker_id()), Ok(31));
    assert_eq!(Coordinate::new(32, 0), Err(ConfigurationError::DataCenterIdTooLarge));
    assert_eq!(Coordinate::new(0, 32), Err(ConfigurationError::WorkerIdTooLarge));
    assert_eq!(Coordinate::new(32, 32), Err(ConfigurationError::DataCenterIdTooLarge));
    assert_eq!(Coordinate::new(255, 255), Err(ConfigurationError::DataCenterIdTooLarge));
}

#[test]
fn coordinate_errors_come_in_a_fixed_order() {
    let resolved = resolve_coordinate("3", "2", "localhost").unwrap();
    assert_eq!((resolved.datacenter_id(), resolved.worker_id()), (2, 3));
    assert_eq!(resolve_coordinate("x", "y", "nodash"), Err(ConfigurationError::DataCenterIdNotNumeric));
    assert_eq!(resolve_coordinate("x", "99", "nodash"), Err(ConfigurationError::WorkerIdNotNumeric));
    assert_eq!(
        resolve_coordinate("FROM_HOSTNAME", "99", "nodash"),
        Err(ConfigurationError::HostnameWithoutDash)
    );
    assert_eq!(
        resolve_coordinate("FROM_HOSTNAME", "99", "pod-x"),
        Err(ConfigurationError::HostnameSuffixNotNumeric)
    );
    assert_eq!(resolve_coordinate("99", "99", "pod-1"), Err(ConfigurationError::DataCenterIdTooLarge));
    assert_eq!(resolve_coordinate("99", "31", "pod-1"), Err(ConfigurationError::WorkerIdTooLarge));
    assert_eq!(resolve_coordinate("FROM_HOSTNAME", "31", "pod-32"), Err(ConfigurationError::WorkerIdTooLarge));
}

#[test]
fn every_configuration_error_has_its_message() {
    assert_eq!(
        ConfigurationError::DataCenterIdNotNumeric.message(),
        "cannot parse DATA_CENTER_ID as a valid u8"
    );
    assert_eq!(
        ConfigurationError::HostnameWithoutDash.message(),
        "cannot split WORKER_ID from hostname (WORKER_ID is being parsed from hostname)"
    );
    assert_eq!(
        ConfigurationError::HostnameSuffixNotNumeric.message(),
        "cannot parse WORKER_ID from hostname (WORKER_ID is being parsed from hostname)"
    );
    assert_eq!(ConfigurationError::WorkerIdNotNumeric.message(), "cannot parse WORKER_ID as a valid u8");
    assert_eq!(ConfigurationError::DataCenterIdTooLarge.message(), "DATA_CENTER_ID must be less than 32");
    assert_eq!(ConfigurationError::WorkerIdTooLarge.message(), "WORKER_ID must be less than 32");
    assert_eq!(
        ConfigurationError::EpochInFuture.message(),
        "EPOCH must not be later than the current time"
    );
    assert_eq!(
        ConfigurationError::EpochTooOld.message(),
        "EPOCH must be less than 2199023255552 ms before the current time"
    );
}
