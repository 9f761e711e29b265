use rodio_experiments::const_source::route_channels::helpful_compile_time_error::{
    assert_channel_counts, channel_count_mismatch, write_number,
};

#[test]
fn write_number_writes_decimal_digits() {
    let mut buffer = [b'x'; 7];
    assert_eq!(5, write_number(&mut buffer, 65535));
    assert_eq!(b"65535xx", &buffer);

    let mut buffer = [b'x'; 3];
    assert_eq!(1, write_number(&mut buffer, 7));
    assert_eq!(b"7xx", &buffer);

    let mut buffer = [0u8; 3];
    assert_eq!(3, write_number(&mut buffer, 120));
    assert_eq!(b"120", &buffer);
}

#[test]
fn mismatch_message_names_the_counts() {
    let message = channel_count_mismatch::<5, 2, 12>();
    assert_eq!(
        "Wrong output channel count (5). Output must be the sum of the inputs (2, 12)",
        String::from_utf8(message).unwrap()
    );
}

#[test]
fn matching_counts_pass() {
    assert_channel_counts::<3, 1, 2>();
}
