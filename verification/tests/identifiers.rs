use growtopia_login::identifiers::{
    generate_random_hex, generate_random_mac_address, generate_random_user_agent, generate_rid,
    hex_of, mac_address_of, padded_hex_of, upper_hex_digit, user_agent_at,
};

fn is_upper_hex(c: char) -> bool {
    c.is_ascii_digit() || ('A'..='F').contains(&c)
}

#[test]
fn test_generate_random_mac_address() {
    let mac = generate_random_mac_address();
    assert_eq!(mac.split(':').count(), 6);
}

#[test]
fn test_generate_rid() {
    let rid = generate_rid();
    assert_eq!(rid.len(), 32);
}

#[test]
fn test_generate_random_hex() {
    let hex = generate_random_hex(10);
    assert_eq!(hex.len(), 10);
}

#[test]
fn mac_address_groups_are_two_hex_digits() {
    for _ in 0..200 {
        let mac = generate_random_mac_address();
        assert_eq!(mac.len(), 17);
        let groups: Vec<&str> = mac.split(':').collect();
        assert_eq!(groups.len(), 6);
        for group in groups {
            assert_eq!(group.len(), 2);
            assert!(group.chars().all(is_upper_hex));
        }
    }
}

#[test]
fn rid_is_thirty_two_hex_digits() {
    for _ in 0..200 {
        let rid = generate_rid();
        assert_eq!(rid.chars().count(), 32);
        assert!(rid.chars().all(is_upper_hex));
    }
}

#[test]
fn random_hex_has_the_length_asked_for() {
    for length in [0usize, 1, 2, 7, 10, 64, 1000] {
        let hex = generate_random_hex(length);
        assert_eq!(hex.len(), length);
        assert!(hex.chars().all(is_upper_hex));
    }
}

#[test]
fn random_values_vary() {
    let first = generate_random_hex(64);
    let mut differs = false;
    for _ in 0..20 {
        if generate_random_hex(64) != first {
            differs = true;
        }
    }
    assert!(differs);
}

#[test]
fn mac_address_of_six_octets() {
    assert_eq!(mac_address_of(&[0, 255, 16, 1, 171, 9]), "00:FF:10:01:AB:09");
}

#[test]
fn mac_address_of_short_inputs() {
    assert_eq!(mac_address_of(&[]), "");
    assert_eq!(mac_address_of(&[10]), "0A");
    assert_eq!(mac_address_of(&[10, 11]), "0A:0B");
}

#[test]
fn padded_hex_of_octets() {
    assert_eq!(padded_hex_of(&[]), "");
    assert_eq!(padded_hex_of(&[0, 1, 15, 16, 254, 255]), "00010F10FEFF");
    assert_eq!(padded_hex_of(&[0xDE, 0xAD, 0xBE, 0xEF]), format!("{:02X}{:02X}{:02X}{:02X}", 0xDE, 0xAD, 0xBE, 0xEF));
}

#[test]
fn hex_of_values_is_unpadded() {
    assert_eq!(hex_of(&[]), "");
    assert_eq!(hex_of(&[0, 10, 15]), "0AF");
    assert_eq!(hex_of(&[16, 255]), "10FF");
    for value in 0..=255u8 {
        assert_eq!(hex_of(&[value]), format!("{:X}", value));
        assert_eq!(padded_hex_of(&[value]), format!("{:02X}", value));
    }
}

#[test]
fn upper_hex_digits_in_order() {
    let digits: String = (0..16u8).map(upper_hex_digit).collect();
    assert_eq!(digits, "0123456789ABCDEF");
}

#[test]
fn user_agents_are_the_five_listed() {
    assert_eq!(
        user_agent_at(0),
        "Mozilla/5.0 (Windows NT 10.0; Win64; x64) AppleWebKit/537.36 (KHTML, like Gecko) Chrome/91.0.4472.124 Safari/537.36"
    );
    assert_eq!(
        user_agent_at(4),
        "Mozilla/5.0 (Windows NT 10.0; Win64; x64) AppleWebKit/537.36 (KHTML, like Gecko) Chrome/95.0.4638.54 Safari/537.36"
    );
    let listed: Vec<&str> = (0..5).map(user_agent_at).collect();
    for i in 0..5 {
        for j in 0..i {
            assert_ne!(listed[i], listed[j]);
        }
    }
    for _ in 0..50 {
        let agent = generate_random_user_agent();
        assert!(listed.contains(&agent.as_str()));
    }
}
