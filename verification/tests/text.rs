use appendix::text::not_found_message;

#[test]
fn message_names_the_offset_in_decimal() {
    assert_eq!(not_found_message(0), "Offset 0 not found");
    assert_eq!(not_found_message(9), "Offset 9 not found");
    assert_eq!(not_found_message(10), "Offset 10 not found");
    assert_eq!(not_found_message(1234567890), "Offset 1234567890 not found");
}

#[test]
fn message_agrees_with_the_standard_formatting() {
    let mut offset: usize = 0;
    for step in 0..2000usize {
        assert_eq!(not_found_message(offset), format!("Offset {} not found", offset));
        offset = offset.wrapping_mul(31).wrapping_add(step * 7 + 1);
    }
    for offset in [99usize, 100, 101, 999, 1000, usize::MAX - 1, usize::MAX] {
        assert_eq!(not_found_message(offset), format!("Offset {} not found", offset));
    }
}
