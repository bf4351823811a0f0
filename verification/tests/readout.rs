use retrocalc::readout::{scientific, trim_fraction, trim_pasted};

#[test]
fn fixed_renderings_lose_their_tail_of_zeros() {
    assert_eq!(trim_fraction("0.300000000000000"), "0.3");
    assert_eq!(trim_fraction("42.000000000000"), "42");
    assert_eq!(trim_fraction("1.050"), "1.05");
    // No point: zeros are part of the integer and stay.
    assert_eq!(trim_fraction("100"), "100");
    assert_eq!(trim_fraction("-2.50"), "-2.5");
}

#[test]
fn scientific_renderings_get_a_signed_exponent() {
    assert_eq!(scientific("1.00000000000000e16"), "1e+16");
    assert_eq!(scientific("1.50000000000000e20"), "1.5e+20");
    assert_eq!(scientific("1.23400000000000e-7"), "1.234e-7");
    assert_eq!(scientific("-9.87650000000000e300"), "-9.8765e+300");
    // Without an exponent the text is left alone.
    assert_eq!(scientific("12.50"), "12.50");
}

#[test]
fn pasted_text_is_trimmed_of_white_space() {
    assert_eq!(trim_pasted("  42.5 "), "42.5");
    assert_eq!(trim_pasted("\t\n7\r\n"), "7");
    assert_eq!(trim_pasted("\u{a0}3\u{3000}"), "3");
    assert_eq!(trim_pasted("   "), "");
    assert_eq!(trim_pasted("1 2"), "1 2");
    assert_eq!(trim_pasted(""), "");
}
