use address_reporter::describe_code_address;

#[test]
fn zero_pair_accepted() {
    let line = describe_code_address(0, 0);
    assert_eq!(line, "describe_code_address(0x0, 0x0)");
}

#[test]
fn null_image_and_small_pc() {
    let line = describe_code_address(0x0, 0x1000);
    assert_eq!(line, "describe_code_address(0x0, 0x1000)");
    assert!(line.contains("0x0"));
    assert!(line.contains("0x1000"));
}

#[test]
fn wide_hex_values() {
    let line = describe_code_address(0xDEADBEEF, 0xC0FFEE);
    assert_eq!(line, "describe_code_address(0xdeadbeef, 0xc0ffee)");
    assert!(line.contains("0xdeadbeef"));
    assert!(line.contains("0xc0ffee"));
}

#[test]
fn addresses_appear_in_the_order_given() {
    let line = describe_code_address(0xABC, 0xDEF);
    let image_at = line.find("0xabc").unwrap();
    let pc_at = line.find("0xdef").unwrap();
    assert!(image_at < pc_at);
}

#[test]
fn repeated_calls_give_identical_lines() {
    let first = describe_code_address(0x40_0000, 0x40_1234);
    let second = describe_code_address(0x40_0000, 0x40_1234);
    assert_eq!(first, second);
    assert_eq!(first, "describe_code_address(0x400000, 0x401234)");
}

#[test]
fn digit_boundaries() {
    assert_eq!(describe_code_address(0xf, 0x10), "describe_code_address(0xf, 0x10)");
    assert_eq!(describe_code_address(9, 10), "describe_code_address(0x9, 0xa)");
    assert_eq!(describe_code_address(16, 255), "describe_code_address(0x10, 0xff)");
}

#[test]
fn largest_address() {
    let line = describe_code_address(usize::MAX, 1);
    let expected = format!("describe_code_address({:#x}, 0x1)", usize::MAX);
    assert_eq!(line, expected);
}
