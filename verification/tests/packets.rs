use razer_rs::{pack, Breath, Brightness, Colour, Error, Off, Spectrum, Static, LOGO, SCROLLWHEEL};

fn xor_from_2(bytes: &[u8], end: usize) -> u8 {
    let mut acc: u8 = 0;
    for i in 2..end {
        acc ^= bytes[i];
    }
    acc
}

#[test]
fn off() {
    let ref_msg: Vec<u8> = vec![
        0x00, 0x3f, 0x00, 0x00, 0x00, 0x06, 0x0f, 0x02, 0x01, 0x01, 0x00, 0x00, 0x00, 0x01, 0x00,
        0x00, 0x00, 0x00, 0x00, 0x00, 0x00, 0x00, 0x00, 0x00, 0x00, 0x00, 0x00, 0x00, 0x00, 0x00,
        0x00, 0x00, 0x00, 0x00, 0x00, 0x00, 0x00, 0x00, 0x00, 0x00, 0x00, 0x00, 0x00, 0x00, 0x00,
        0x00, 0x00, 0x00, 0x00, 0x00, 0x00, 0x00, 0x00, 0x00, 0x00, 0x00, 0x00, 0x00, 0x00, 0x00,
        0x00, 0x00, 0x00, 0x00, 0x00, 0x00, 0x00, 0x00, 0x00, 0x00, 0x00, 0x00, 0x00, 0x00, 0x00,
        0x00, 0x00, 0x00, 0x00, 0x00, 0x00, 0x00, 0x00, 0x00, 0x00, 0x00, 0x00, 0x00, 0x0a, 0x00,
    ];

    let msg = Off::new(SCROLLWHEEL);
    assert_eq!(ref_msg, pack(msg).unwrap());
}

#[test]
fn every_variant_packs_to_ninety_bytes() {
    let colour = Colour::parse("#102030").unwrap();
    assert_eq!(pack(Off::new(SCROLLWHEEL)).unwrap().len(), 90);
    assert_eq!(pack(Static::new(LOGO, colour.clone())).unwrap().len(), 90);
    assert_eq!(pack(Breath::new(SCROLLWHEEL, None)).unwrap().len(), 90);
    assert_eq!(pack(Breath::new(LOGO, Some(colour))).unwrap().len(), 90);
    assert_eq!(pack(Spectrum::new(LOGO)).unwrap().len(), 90);
    assert_eq!(pack(Brightness::new(SCROLLWHEEL)).unwrap().len(), 90);
}

#[test]
fn checksum_byte_is_xor_of_packet_interior() {
    let colour = Colour::parse("#C0FFEE").unwrap();
    let packets = vec![
        pack(Off::new(LOGO)).unwrap(),
        pack(Static::new(SCROLLWHEEL, colour.clone())).unwrap(),
        pack(Breath::new(LOGO, None)).unwrap(),
        pack(Breath::new(SCROLLWHEEL, Some(colour))).unwrap(),
        pack(Spectrum::new(SCROLLWHEEL)).unwrap(),
        pack(Brightness::new(LOGO)).unwrap(),
    ];
    for p in packets {
        assert_eq!(p[88], xor_from_2(&p, 88));
        assert_eq!(p[89], 0x00);
    }
}

#[test]
fn parse_reads_hex_digit_pairs() {
    let c = Colour::parse("#FF00AA").unwrap();
    assert_eq!(c.red(), 255);
    assert_eq!(c.green(), 0);
    assert_eq!(c.blue(), 170);
}

#[test]
fn parse_accepts_lower_case_and_ignores_trailing_text() {
    let c = Colour::parse("#ff00aa and anything after").unwrap();
    assert_eq!(c.red(), 255);
    assert_eq!(c.green(), 0);
    assert_eq!(c.blue(), 170);
}

#[test]
fn parse_rejects_non_hex_text() {
    assert_eq!(Colour::parse("not-a-color").unwrap_err(), Error::InvalidHexDigit);
}

#[test]
fn parse_rejects_short_text() {
    assert_eq!(Colour::parse("#AB").unwrap_err(), Error::TooShort);
    assert_eq!(Colour::parse("").unwrap_err(), Error::TooShort);
}

#[test]
fn breath_without_colour_has_body_length_six() {
    let p = pack(Breath::new(SCROLLWHEEL, None)).unwrap();
    assert_eq!(p[5], 0x06);
    assert_eq!(p[10], 0x02);
    assert_eq!(p[11], 0x00);
    assert_eq!(&p[14..17], &[0x00, 0x00, 0x00]);
}

#[test]
fn breath_with_colour_has_body_length_nine_and_colour_appended() {
    let colour = Colour::parse("#112233").unwrap();
    let p = pack(Breath::new(LOGO, Some(colour))).unwrap();
    assert_eq!(p[5], 0x09);
    assert_eq!(p[9], LOGO);
    assert_eq!(p[10], 0x02);
    assert_eq!(p[11], 0x01);
    assert_eq!(&p[14..17], &[0x11, 0x22, 0x33]);
}

#[test]
fn static_packet_layout() {
    let colour = Colour::parse("#0A0B0C").unwrap();
    let p = pack(Static::new(LOGO, colour)).unwrap();
    assert_eq!(
        &p[..17],
        &[0x00, 0x3f, 0x00, 0x00, 0x00, 0x09, 0x0f, 0x02, 0x01, 0x04, 0x01, 0x00, 0x00, 0x01,
            0x0a, 0x0b, 0x0c]
    );
    for i in 17..88 {
        assert_eq!(p[i], 0x00);
    }
}

#[test]
fn spectrum_packet_layout() {
    let p = pack(Spectrum::new(SCROLLWHEEL)).unwrap();
    assert_eq!(
        &p[..14],
        &[0x00, 0x3f, 0x00, 0x00, 0x00, 0x06, 0x0f, 0x02, 0x01, 0x01, 0x03, 0x00, 0x00, 0x00]
    );
}

#[test]
fn brightness_packet_layout() {
    let p = pack(Brightness::new(SCROLLWHEEL)).unwrap();
    assert_eq!(
        &p[..10],
        &[0x00, 0x3f, 0x00, 0x00, 0x00, 0x03, 0x0f, 0x04, 0x01, 0x01]
    );
}

#[test]
fn packing_the_same_message_twice_gives_identical_bytes() {
    let a = pack(Spectrum::new(LOGO)).unwrap();
    let b = pack(Spectrum::new(LOGO)).unwrap();
    assert_eq!(a, b);
    let c1 = Colour::parse("#123456").unwrap();
    let c2 = Colour::parse("#123456").unwrap();
    let p1 = pack(Static::new(SCROLLWHEEL, c1)).unwrap();
    let p2 = pack(Static::new(SCROLLWHEEL, c2)).unwrap();
    assert_eq!(p1, p2);
}
