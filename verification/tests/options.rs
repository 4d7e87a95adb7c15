use rsmemtest::options::{format_error_message, parse_memory_bytes};

#[test]
fn memory_size_in_mebibytes() {
    assert_eq!(parse_memory_bytes(&"16".to_string()), Some(16 * 1024 * 1024));
    assert_eq!(parse_memory_bytes(&"0".to_string()), Some(0));
    assert_eq!(parse_memory_bytes(&"007".to_string()), Some(7 * 1024 * 1024));
    assert_eq!(parse_memory_bytes(&"+2".to_string()), Some(2 * 1024 * 1024));
}

#[test]
fn memory_size_matches_std_parse() {
    for text in ["1", "+1", "4096", "", "+", "++1", "-1", "1 ", " 1", "1_0", "0x10", "12a"] {
        let expected = text.parse::<usize>().ok().and_then(|n| n.checked_mul(1024 * 1024));
        assert_eq!(parse_memory_bytes(&text.to_string()), expected);
    }
}

#[test]
fn memory_size_rejects_what_is_no_number() {
    assert_eq!(parse_memory_bytes(&"".to_string()), None);
    assert_eq!(parse_memory_bytes(&"+".to_string()), None);
    assert_eq!(parse_memory_bytes(&"12a".to_string()), None);
    assert_eq!(parse_memory_bytes(&"-1".to_string()), None);
    assert_eq!(parse_memory_bytes(&"1.5".to_string()), None);
}

#[test]
fn memory_size_at_the_machine_limit() {
    let most = usize::MAX / (1024 * 1024);
    assert_eq!(parse_memory_bytes(&most.to_string()), Some(most * 1024 * 1024));
    assert_eq!(parse_memory_bytes(&(most + 1).to_string()), None);
    assert_eq!(parse_memory_bytes(&usize::MAX.to_string()), None);
    assert_eq!(parse_memory_bytes(&"99999999999999999999999999999999".to_string()), None);
}

#[test]
fn error_counter_text() {
    assert_eq!(format_error_message(0), "Errors: 000000    ");
    assert_eq!(format_error_message(42), "Errors: 000042    ");
    assert_eq!(format_error_message(999999), "Errors: 999999    ");
    assert_eq!(format_error_message(1234567), "Errors: 1234567    ");
}
