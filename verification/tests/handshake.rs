use smartpad_launcher::controller::BackendPort;
use smartpad_launcher::decimal::to_decimal;
use smartpad_launcher::handshake::{char_is_space, parse_port, HandshakeError};

#[test]
fn every_port_is_read_back_from_its_line() {
    for port in 0..=u16::MAX {
        let line = format!("{}\n", port);
        assert_eq!(parse_port(&line), Ok(port), "line {:?}", line);
    }
}

#[test]
fn every_port_is_written_as_std_writes_it() {
    for port in 0..=u16::MAX {
        assert_eq!(to_decimal(port), port.to_string());
    }
}

#[test]
fn numerals_at_the_edges() {
    assert_eq!(to_decimal(0), "0");
    assert_eq!(to_decimal(9), "9");
    assert_eq!(to_decimal(10), "10");
    assert_eq!(to_decimal(54231), "54231");
    assert_eq!(to_decimal(65535), "65535");
}

#[test]
fn line_terminators_are_ignored() {
    assert_eq!(parse_port("54231\n"), Ok(54231));
    assert_eq!(parse_port("54231\r\n"), Ok(54231));
    assert_eq!(parse_port("54231"), Ok(54231));
    assert_eq!(parse_port("  \t54231 \n"), Ok(54231));
    assert_eq!(parse_port("\u{a0}8080\u{2028}"), Ok(8080));
}

#[test]
fn sign_and_leading_zeros() {
    assert_eq!(parse_port("+80\n"), Ok(80));
    assert_eq!(parse_port("00080\n"), Ok(80));
    assert_eq!(parse_port("0\n"), Ok(0));
    assert_eq!(parse_port("000000000000000000000000065535\n"), Ok(65535));
    assert_eq!(parse_port("+\n"), Err(HandshakeError::NotNumeric));
    assert_eq!(parse_port("++80\n"), Err(HandshakeError::NotNumeric));
    assert_eq!(parse_port("-80\n"), Err(HandshakeError::NotNumeric));
    assert_eq!(parse_port("-0\n"), Err(HandshakeError::NotNumeric));
}

#[test]
fn empty_lines_are_rejected() {
    assert_eq!(parse_port(""), Err(HandshakeError::Empty));
    assert_eq!(parse_port("\n"), Err(HandshakeError::Empty));
    assert_eq!(parse_port(" \r\n"), Err(HandshakeError::Empty));
}

#[test]
fn non_numeric_lines_are_rejected() {
    assert_eq!(parse_port("port\n"), Err(HandshakeError::NotNumeric));
    assert_eq!(parse_port("8080x\n"), Err(HandshakeError::NotNumeric));
    assert_eq!(parse_port("x8080\n"), Err(HandshakeError::NotNumeric));
    assert_eq!(parse_port("80 80\n"), Err(HandshakeError::NotNumeric));
    assert_eq!(parse_port("8_080\n"), Err(HandshakeError::NotNumeric));
    assert_eq!(parse_port("80.0\n"), Err(HandshakeError::NotNumeric));
    assert_eq!(parse_port("0x50\n"), Err(HandshakeError::NotNumeric));
    assert_eq!(parse_port("\u{663}\n"), Err(HandshakeError::NotNumeric));
    assert_eq!(parse_port("99999999x\n"), Err(HandshakeError::NotNumeric));
    assert_eq!(parse_port("Listening on 8080\n"), Err(HandshakeError::NotNumeric));
}

#[test]
fn out_of_range_lines_are_rejected() {
    assert_eq!(parse_port("65536\n"), Err(HandshakeError::OutOfRange));
    assert_eq!(parse_port("65540\n"), Err(HandshakeError::OutOfRange));
    assert_eq!(parse_port("70000\n"), Err(HandshakeError::OutOfRange));
    assert_eq!(parse_port("655350\n"), Err(HandshakeError::OutOfRange));
    assert_eq!(parse_port("4294967296\n"), Err(HandshakeError::OutOfRange));
    assert_eq!(parse_port("42949672960000000000000000000\n"), Err(HandshakeError::OutOfRange));
    assert_eq!(parse_port("+65536\n"), Err(HandshakeError::OutOfRange));
}

#[test]
fn lines_are_accepted_as_std_accepts_them() {
    let lines = [
        "", "\n", "0", "1\n", "+1\n", "-1\n", "65535\n", "65536\n", "0065535\r\n", " 12 ", "1 2",
        "12a", "a12", "+", "-", "+-1", "1+", "１２", "٣", "\u{85}77\u{3000}", "\u{1680}1\u{205f}",
        "\u{200b}1", "\u{feff}1", "99999", "100000", "18446744073709551616", "1e3", "0b1", "١٢٣",
        "\u{2000}5\u{200a}", "\u{202f}5\u{2029}", "\u{b}5\u{c}", "\u{1c}5", "5\u{1f}", "\u{180e}5",
    ];
    for line in lines {
        let expected: Option<u16> = line.trim().parse().ok();
        assert_eq!(parse_port(line).ok(), expected, "line {:?}", line);
    }
}

#[test]
fn white_space_is_what_std_calls_white_space() {
    for code in 0..=0x10ffff_u32 {
        if let Some(c) = char::from_u32(code) {
            assert_eq!(char_is_space(c), c.is_whitespace(), "U+{:04X}", code);
        }
    }
}

#[test]
fn the_handshake_gives_the_backend_port() {
    let port = BackendPort::from_handshake("54231\n").unwrap();
    assert_eq!(port.get(), 54231);
    let port = BackendPort::from_handshake("0\n").unwrap();
    assert_eq!(port.get(), 0);
    let port = BackendPort::from_handshake("65535\n").unwrap();
    assert_eq!(port.get(), 65535);
}

#[test]
fn a_failed_handshake_gives_no_port() {
    assert_eq!(BackendPort::from_handshake(""), Err(HandshakeError::Empty));
    assert_eq!(BackendPort::from_handshake("Traceback\n"), Err(HandshakeError::NotNumeric));
    assert_eq!(BackendPort::from_handshake("65536\n"), Err(HandshakeError::OutOfRange));
}
