use patchconv::model::{derive_identifier, Patch, Replacement};
use patchconv::pipeline::{convert, render, Mode};
use patchconv::render::{generate_bocfel_compiletime, generate_bocfel_runtime};

fn rep(addr: u32, before: &[u8], after: &[u8]) -> Replacement {
    Replacement { addr, before: before.to_vec(), after: after.to_vec() }
}

fn patch(title: &str, serial: &str, release: u16, checksum: u16, reps: Vec<Replacement>) -> Patch {
    Patch::new(title.to_string(), serial.to_string(), release, checksum, reps).unwrap()
}

fn demo() -> Patch {
    patch("Demo", "012345", 1, 0x10, vec![rep(0x100, &[0x01, 0x02], &[0x03, 0x04])])
}

fn text(lines: &[String]) -> String {
    let mut s = String::new();
    for line in lines {
        s.push_str(line);
        s.push('\n');
    }
    s
}

#[test]
fn identifier_ignores_checksum_for_serial_starting_with_eight() {
    assert_eq!(derive_identifier(5, "812345", 0xAB), "5-812345");
}

#[test]
fn identifier_appends_hex_checksum_otherwise() {
    assert_eq!(derive_identifier(5, "012345", 0xAB), "5-012345-ab");
}

#[test]
fn identifier_zero_checksum_renders_zero() {
    assert_eq!(derive_identifier(0, "000000", 0), "0-000000-0");
    assert_eq!(derive_identifier(65535, "ABCDEF", 0xffff), "65535-ABCDEF-ffff");
}

#[test]
fn runtime_single_patch_exact_output() {
    let lines = generate_bocfel_runtime(&[demo()]);
    assert_eq!(text(&lines), "# Demo\n[1-012345-10]\n0x100 2 [01 02] [03 04]\n\n");
    assert_eq!(lines.len(), 4);
    assert_eq!(lines[3], "");
}

#[test]
fn compiletime_single_patch_exact_output() {
    let lines = generate_bocfel_compiletime(&[demo()]);
    let expected = vec![
        "{",
        "    \"Demo\", \"012345\", 1, 0x10,",
        "    {",
        "        {",
        "            0x100, 2,",
        "            {0x01, 0x02},",
        "            {0x03, 0x04},",
        "        },",
        "    },",
        "},",
    ];
    assert_eq!(lines, expected);
    assert!(lines.contains(&"    \"Demo\", \"012345\", 1, 0x10,".to_string()));
    assert!(lines.contains(&"            {0x01, 0x02},".to_string()));
    assert!(lines.contains(&"            {0x03, 0x04},".to_string()));
}

#[test]
fn rendering_twice_is_identical() {
    let batch = vec![demo(), patch("Other", "812345", 7, 0xbeef, vec![rep(0, &[], &[])])];
    assert_eq!(generate_bocfel_runtime(&batch), generate_bocfel_runtime(&batch));
    assert_eq!(generate_bocfel_compiletime(&batch), generate_bocfel_compiletime(&batch));
}

#[test]
fn empty_replacements_still_render_patch() {
    let p = patch("Empty", "812345", 3, 0x1, vec![]);
    let runtime = generate_bocfel_runtime(&[p]);
    assert_eq!(runtime, vec!["# Empty", "[3-812345]", ""]);
    let p = patch("Empty", "812345", 3, 0x1, vec![]);
    let table = generate_bocfel_compiletime(&[p]);
    assert_eq!(table, vec!["{", "    \"Empty\", \"812345\", 3, 0x1,", "    {", "    },", "},"]);
}

#[test]
fn empty_batch_renders_nothing() {
    assert!(generate_bocfel_runtime(&[]).is_empty());
    assert!(generate_bocfel_compiletime(&[]).is_empty());
}

#[test]
fn order_of_patches_and_replacements_is_kept() {
    let a = patch("A", "111111", 1, 0xa, vec![rep(0x1, &[0xff], &[0x00]), rep(0x2, &[0x10], &[0x20])]);
    let b = patch("B", "222222", 2, 0xb, vec![rep(0x3, &[0xab], &[0xcd])]);
    let lines = generate_bocfel_runtime(&[a, b]);
    assert_eq!(
        lines,
        vec![
            "# A",
            "[1-111111-a]",
            "0x1 1 [ff] [00]",
            "0x2 1 [10] [20]",
            "",
            "# B",
            "[2-222222-b]",
            "0x3 1 [ab] [cd]",
            "",
        ]
    );
    let a = patch("A", "111111", 1, 0xa, vec![rep(0x2, &[0x10], &[0x20]), rep(0x1, &[0xff], &[0x00])]);
    let b = patch("B", "222222", 2, 0xb, vec![rep(0x3, &[0xab], &[0xcd])]);
    let swapped = generate_bocfel_runtime(&[b, a]);
    assert_eq!(
        swapped,
        vec![
            "# B",
            "[2-222222-b]",
            "0x3 1 [ab] [cd]",
            "",
            "# A",
            "[1-111111-a]",
            "0x2 1 [10] [20]",
            "0x1 1 [ff] [00]",
            "",
        ]
    );
}

#[test]
fn runtime_formats_large_address_and_count() {
    let bytes: Vec<u8> = (0u8..12).collect();
    let p = patch("Big", "ZZZZZZ", 300, 0xfff, vec![rep(0xdeadbeef, &bytes, &bytes)]);
    let lines = generate_bocfel_runtime(&[p]);
    assert_eq!(
        lines[2],
        "0xdeadbeef 12 [00 01 02 03 04 05 06 07 08 09 0a 0b] [00 01 02 03 04 05 06 07 08 09 0a 0b]"
    );
}

#[test]
fn render_selects_renderer_by_mode() {
    let batch = vec![demo()];
    assert_eq!(render(Mode::BocfelRuntime, &batch), generate_bocfel_runtime(&batch));
    assert_eq!(render(Mode::BocfelCompiletime, &batch), generate_bocfel_compiletime(&batch));
}

#[test]
fn convert_renders_valid_batch() {
    let batch = vec![demo()];
    let lines = convert(Mode::BocfelRuntime, &batch).unwrap();
    assert_eq!(text(&lines), "# Demo\n[1-012345-10]\n0x100 2 [01 02] [03 04]\n\n");
}

#[test]
fn convert_refuses_mismatched_batch() {
    let batch = vec![demo(), patch("Bad", "012345", 1, 1, vec![rep(0x42, &[1, 2], &[3])])];
    let err = convert(Mode::BocfelCompiletime, &batch).unwrap_err();
    assert_eq!(err.addr, 0x42);
    assert_eq!(err.title, "Bad");
}
