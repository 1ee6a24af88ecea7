use nova::text::{
    chars_of, mac_address_as_string, parse_bool, parse_index_list, parse_u32, parse_u8,
    parse_usize, push_decimal,
};

fn chars(s: &str) -> Vec<char> {
    chars_of(s)
}

#[test]
fn mac_addresses_are_lower_case_hex() {
    assert_eq!(mac_address_as_string([0x00, 0x20, 0xe3, 0x10, 0x00, 0x01]), "00:20:e3:10:00:01");
    assert_eq!(mac_address_as_string([0xff, 0xab, 0x09, 0x10, 0xc0, 0x7f]), "ff:ab:09:10:c0:7f");
}

#[test]
fn decimals_have_no_leading_zeros() {
    let mut s = String::from("n=");
    push_decimal(&mut s, 0);
    assert_eq!(s, "n=0");
    let mut s = String::new();
    push_decimal(&mut s, 1209);
    assert_eq!(s, "1209");
}

#[test]
fn numbers_parse_as_rust_parses_them() {
    assert_eq!(parse_u32(&chars("42")), Some(42));
    assert_eq!(parse_u32(&chars("+7")), Some(7));
    assert_eq!(parse_u32(&chars("4294967295")), Some(u32::MAX));
    assert_eq!(parse_u32(&chars("4294967296")), None);
    assert_eq!(parse_u32(&chars("")), None);
    assert_eq!(parse_u32(&chars("+")), None);
    assert_eq!(parse_u32(&chars("-1")), None);
    assert_eq!(parse_u32(&chars(" 1")), None);
    assert_eq!(parse_u32(&chars("1x")), None);
    assert_eq!(parse_u8(&chars("255")), Some(255));
    assert_eq!(parse_u8(&chars("256")), None);
    assert_eq!(parse_usize(&chars("0012")), Some(12));
    for text in ["0", "9", "+12", "255", "256", "99999999999", "-3", "a", "+-1"] {
        assert_eq!(parse_u8(&chars(text)), text.parse::<u8>().ok());
        assert_eq!(parse_u32(&chars(text)), text.parse::<u32>().ok());
        assert_eq!(parse_usize(&chars(text)), text.parse::<usize>().ok());
    }
}

#[test]
fn flags_parse_as_rust_parses_them() {
    assert_eq!(parse_bool(&chars("true")), Some(true));
    assert_eq!(parse_bool(&chars("false")), Some(false));
    assert_eq!(parse_bool(&chars("True")), None);
    assert_eq!(parse_bool(&chars("1")), None);
}

#[test]
fn index_lists_skip_what_does_not_parse() {
    assert_eq!(parse_index_list("3,2,3,99"), vec![3, 2, 3, 99]);
    assert_eq!(parse_index_list("1,,x,2"), vec![1, 2]);
    assert_eq!(parse_index_list(""), Vec::<u32>::new());
    assert_eq!(parse_index_list(",5,"), vec![5]);
    for text in ["0,1,2", "a,1", "1,-2,+3", "4294967296,1"] {
        let expected: Vec<u32> = text.split(',').filter_map(|s| s.parse().ok()).collect();
        assert_eq!(parse_index_list(text), expected);
    }
}
