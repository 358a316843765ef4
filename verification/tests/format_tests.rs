use space_radio::controls::{control_label, ControlBank, CONTROL_COUNT};
use space_radio::decimal::decimal_string;
use space_radio::dispatch::address_pattern;
use space_radio::endpoint::{EndpointConfig, DEFAULT_PORT};

#[test]
fn decimal_of_single_digits() {
    let expected = ["0", "1", "2", "3", "4", "5", "6", "7", "8", "9"];
    for (n, digits) in expected.iter().enumerate() {
        assert_eq!(decimal_string(n as u64), *digits);
    }
}

#[test]
fn decimal_of_longer_numbers() {
    assert_eq!(decimal_string(10), "10");
    assert_eq!(decimal_string(47), "47");
    assert_eq!(decimal_string(100), "100");
    assert_eq!(decimal_string(9009), "9009");
    assert_eq!(decimal_string(65535), "65535");
    assert_eq!(decimal_string(1_000_000_007), "1000000007");
}

#[test]
fn decimal_of_the_largest_number() {
    assert_eq!(decimal_string(u64::MAX), "18446744073709551615");
}

#[test]
fn decimal_agrees_with_std_formatting() {
    let mut n: u64 = 1;
    for _ in 0..40 {
        assert_eq!(decimal_string(n), format!("{}", n));
        assert_eq!(decimal_string(n - 1), format!("{}", n - 1));
        n = n.wrapping_mul(3).wrapping_add(7);
    }
}

#[test]
fn address_pattern_is_slash_and_index() {
    assert_eq!(address_pattern(0), "/0");
    assert_eq!(address_pattern(3), "/3");
    assert_eq!(address_pattern(47), "/47");
    assert_eq!(address_pattern(63), "/63");
    assert_eq!(address_pattern(1234), "/1234");
}

#[test]
fn labels_count_from_one() {
    assert_eq!(control_label(0), "Ch. 1");
    assert_eq!(control_label(8), "Ch. 9");
    assert_eq!(control_label(9), "Ch. 10");
    assert_eq!(control_label(63), "Ch. 64");
}

#[test]
fn bank_has_sixty_four_labelled_controls_at_zero() {
    assert_eq!(CONTROL_COUNT, 64);
    let bank = ControlBank::new();
    for index in 0..CONTROL_COUNT {
        assert_eq!(bank.value(index), Some(0));
        assert_eq!(bank.label(index), Some(&format!("Ch. {}", index + 1)));
    }
    assert_eq!(bank.value(CONTROL_COUNT), None);
    assert_eq!(bank.label(CONTROL_COUNT), None);
    assert_eq!(bank.value(usize::MAX), None);
}

#[test]
fn bank_write_changes_one_control() {
    let mut bank = ControlBank::new();
    assert!(bank.set_value(10, 0.5f32.to_bits()));
    for index in 0..CONTROL_COUNT {
        let expected = if index == 10 { 0.5f32.to_bits() } else { 0 };
        assert_eq!(bank.value(index), Some(expected));
        assert_eq!(bank.label(index), Some(&format!("Ch. {}", index + 1)));
    }
}

#[test]
fn bank_write_outside_the_bank_changes_nothing() {
    let mut bank = ControlBank::new();
    assert!(!bank.set_value(64, 1));
    assert!(!bank.set_value(usize::MAX, 1));
    for index in 0..CONTROL_COUNT {
        assert_eq!(bank.value(index), Some(0));
    }
}

#[test]
fn default_endpoint_is_localhost_9009() {
    let endpoint = EndpointConfig::default();
    assert_eq!(endpoint.address(), "127.0.0.1");
    assert_eq!(endpoint.port(), 9009);
    assert_eq!(DEFAULT_PORT, 9009);
    assert_eq!(endpoint.destination(), "127.0.0.1:9009");
}

#[test]
fn destination_is_address_colon_port() {
    let endpoint = EndpointConfig::new(String::from("10.0.0.5"), 8000);
    assert_eq!(endpoint.destination(), "10.0.0.5:8000");
    assert_eq!(EndpointConfig::new(String::from("host"), 0).destination(), "host:0");
    assert_eq!(EndpointConfig::new(String::from("host"), 65535).destination(), "host:65535");
    assert_eq!(EndpointConfig::new(String::new(), 7).destination(), ":7");
}

#[test]
fn endpoint_setters_change_one_field() {
    let mut endpoint = EndpointConfig::default();
    endpoint.set_port(8000);
    assert_eq!(endpoint.address(), "127.0.0.1");
    assert_eq!(endpoint.port(), 8000);
    assert_eq!(endpoint.destination(), "127.0.0.1:8000");
    endpoint.set_address(String::from("10.0.0.5"));
    assert_eq!(endpoint.address(), "10.0.0.5");
    assert_eq!(endpoint.port(), 8000);
    assert_eq!(endpoint.destination(), "10.0.0.5:8000");
}
