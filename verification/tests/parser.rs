use beacon_scanner::parser::{assemble_packet, is_packet_header, strip_trailing_space};

#[test]
fn strips_one_trailing_space() {
    assert_eq!(strip_trailing_space(b"abc  "), b"abc ");
    assert_eq!(strip_trailing_space(b"abc\n"), b"abc\n");
}

#[test]
fn header_needs_prefix_and_marker() {
    let line = b"> 04 3E 2B 02 01 00 01 1A FF 4C 00";
    assert!(is_packet_header(line));
    let no_marker = b"> 04 3E 2B 02 01 00 01 1A FE 4C 00";
    assert!(!is_packet_header(no_marker));
    let other = b"< 01 0C 20 02 00 00";
    assert!(!is_packet_header(other));
    // the marker is looked for from byte 16 on only
    let early = b"> 04 3E 1A FF 00 00 00 00 00";
    assert!(!is_packet_header(early));
}

#[test]
fn packet_joins_trimmed_lines() {
    let p = assemble_packet(b"> 04 3E 2B \n", "  AA BB\n", "AA BB\n  CC\t");
    assert_eq!(p, "> 04 3E 2B AA BB AA BB\n  CC");
}
