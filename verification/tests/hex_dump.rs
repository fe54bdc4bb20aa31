use sniffer::hex::map_hex_dump;

fn parse_hex_column(line: &str) -> Vec<u8> {
    let hex_part = &line[..47];
    hex_part
        .trim_end()
        .split(' ')
        .map(|pair| u8::from_str_radix(pair, 16).unwrap())
        .collect()
}

#[test]
fn dump_of_empty_payload_is_empty() {
    assert_eq!(map_hex_dump(&[]), String::new());
}

#[test]
fn dump_renders_one_exact_line() {
    let out = map_hex_dump(b"AB");
    assert_eq!(out, format!("{:<47} | {}", "41 42", "AB"));
}

#[test]
fn dump_hex_digits_are_lowercase() {
    let out = map_hex_dump(&[0xAB, 0xCD, 0xEF]);
    assert_eq!(out, format!("{:<47} | {}", "ab cd ef", "..."));
}

#[test]
fn dump_has_one_line_per_started_chunk() {
    assert_eq!(map_hex_dump(&[0u8; 16]).lines().count(), 1);
    assert_eq!(map_hex_dump(&[0u8; 17]).lines().count(), 2);
    assert_eq!(map_hex_dump(&[0u8; 32]).lines().count(), 2);
    assert_eq!(map_hex_dump(&[0u8; 33]).lines().count(), 3);
    assert_eq!(map_hex_dump(&[0u8; 1]).lines().count(), 1);
}

#[test]
fn dump_full_chunk_line_has_no_padding_gap() {
    let out = map_hex_dump(&[0x41u8; 16]);
    let hex = "41 ".repeat(15) + "41";
    assert_eq!(out, format!("{} | {}", hex, "A".repeat(16)));
}

#[test]
fn dump_nonprintable_bytes_render_as_dots() {
    let out = map_hex_dump(&[0x00, 0x1f, 0x20, 0x21, 0x61, 0x7e, 0x7f, 0xff]);
    let ascii: String = out.split(" | ").nth(1).unwrap().to_string();
    assert_eq!(ascii, "...!a~..");
}

#[test]
fn dump_hex_column_reparses_to_payload() {
    let payload: Vec<u8> = (0u8..=255u8).collect();
    let out = map_hex_dump(&payload);
    let mut reparsed: Vec<u8> = Vec::new();
    for line in out.lines() {
        reparsed.extend(parse_hex_column(line));
    }
    assert_eq!(reparsed, payload);
}
