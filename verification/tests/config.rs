use gopher::gopher::config::{
    config_text_len, default_buffer_size, default_mask, NetworkConfig, NetworkInterfaceConfig,
    RouteConfig,
};

#[test]
fn default_mask_is_24() {
    assert_eq!(default_mask(), 24);
}

#[test]
fn default_buffer_size_is_one_mebibyte() {
    assert_eq!(default_buffer_size(), 1_048_576);
}

#[test]
fn config_types_hold_what_they_are_given() {
    let config = NetworkConfig {
        buffer_size: default_buffer_size(),
        interfaces: vec![NetworkInterfaceConfig {
            name: String::from("eth0"),
            ipv4: String::from("10.0.2.15"),
            mask: default_mask(),
            gateway: Some(String::from("10.0.2.2")),
        }],
        routes: vec![RouteConfig {
            dest: String::from("0.0.0.0"),
            mask: 0,
            via: String::from("10.0.2.2"),
        }],
    };
    let copy = config.clone();
    assert_eq!(copy.buffer_size, 1_048_576);
    assert_eq!(copy.interfaces.len(), 1);
    assert_eq!(copy.interfaces[0].name, "eth0");
    assert_eq!(copy.interfaces[0].mask, 24);
    assert_eq!(copy.routes[0].via, "10.0.2.2");
    assert!(format!("{:?}", copy).contains("eth0"));
}

#[test]
fn text_ends_at_the_first_zero_byte() {
    assert_eq!(config_text_len(b"{}\0\0\0\0"), Some(2));
    assert_eq!(config_text_len(b"{\"a\":1}\0{\"b\":2}"), Some(7));
    assert_eq!(config_text_len(b"\0{}"), Some(0));
}

#[test]
fn text_without_zero_byte_is_all_of_the_data() {
    assert_eq!(config_text_len(b"{}"), Some(2));
    assert_eq!(config_text_len(b""), Some(0));
    assert_eq!(config_text_len("{\"n\":\"\u{e9}\"}".as_bytes()), Some(10));
}

#[test]
fn data_that_is_not_utf8_has_no_text() {
    assert_eq!(config_text_len(&[b'{', 0xff, b'}']), None);
    assert_eq!(config_text_len(&[0xc3]), None);
}

#[test]
fn bytes_behind_the_text_count_too() {
    assert_eq!(config_text_len(&[b'{', b'}', 0, 0xff]), None);
}
