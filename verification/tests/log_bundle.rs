use github_tui::logs::{
    decode_logs, extract_logs_from_zip, lay_out, name_le, sort_by_name, BundleError, LogEntry,
};
use std::io::Write;
use zip::write::SimpleFileOptions;
use zip::CompressionMethod;

fn bundle(entries: &[(&str, &[u8])]) -> Vec<u8> {
    let mut writer = zip::ZipWriter::new(std::io::Cursor::new(Vec::new()));
    let options = SimpleFileOptions::default().compression_method(CompressionMethod::Stored);
    for (name, body) in entries {
        writer.start_file(*name, options).unwrap();
        writer.write_all(body).unwrap();
    }
    writer.finish().unwrap().into_inner()
}

fn entry(name: &str, text: Option<&str>) -> LogEntry {
    LogEntry { name: name.to_string(), text: text.map(|t| t.to_string()) }
}

fn chars(s: &str) -> Vec<char> {
    s.chars().collect()
}

#[test]
fn bundle_is_laid_out_in_the_order_of_names() {
    let data = bundle(&[("2_test.txt", b"tests ok\n"), ("1_build.txt", b"built\n")]);
    assert_eq!(
        extract_logs_from_zip(&data),
        Ok("\n=== 1_build.txt ===\nbuilt\n\n=== 2_test.txt ===\ntests ok\n".to_string())
    );
}

#[test]
fn entry_that_is_no_text_keeps_its_header() {
    let data = bundle(&[("b.bin", &[0xff, 0xfe, 0x00]), ("a.txt", b"fine")]);
    assert_eq!(
        extract_logs_from_zip(&data),
        Ok("\n=== a.txt ===\nfine\n=== b.bin ===\n".to_string())
    );
}

#[test]
fn bytes_that_are_no_bundle_are_refused() {
    assert_eq!(extract_logs_from_zip(b"just text"), Err(BundleError::NotABundle));
    assert_eq!(extract_logs_from_zip(b""), Err(BundleError::NotABundle));
}

#[test]
fn bundle_without_entries_is_empty() {
    let data = bundle(&[]);
    assert_eq!(extract_logs_from_zip(&data), Err(BundleError::Empty));
    assert_eq!(decode_logs(&data), String::from_utf8_lossy(&data).to_string());
}

#[test]
fn decode_takes_plain_bytes_as_text() {
    assert_eq!(decode_logs(b"plain log\nline 2"), "plain log\nline 2");
    assert_eq!(decode_logs("héllo".as_bytes()), "héllo");
    assert_eq!(decode_logs(&[b'a', 0xff, b'b']), "a\u{fffd}b");
    let data = bundle(&[("only.txt", b"x")]);
    assert_eq!(decode_logs(&data), "\n=== only.txt ===\nx");
}

#[test]
fn lay_out_sorts_and_heads_each_entry() {
    let out = lay_out(vec![entry("b", Some("2")), entry("a", Some("1")), entry("c", None)]);
    assert_eq!(out, Some("\n=== a ===\n1\n=== b ===\n2\n=== c ===\n".to_string()));
    assert_eq!(lay_out(Vec::new()), None);
}

#[test]
fn sort_by_name_is_the_order_of_strings() {
    let names = ["b", "a", "ab", "", "B", "é", "a", "10", "9", "z/1", "z"];
    let entries: Vec<LogEntry> =
        names.iter().enumerate().map(|(i, n)| entry(n, Some(&i.to_string()))).collect();
    let mut want = entries.clone();
    want.sort_by(|x, y| x.name.cmp(&y.name));
    assert_eq!(sort_by_name(entries), want);
}

#[test]
fn name_le_is_the_order_of_strings() {
    let names = ["", "a", "ab", "b", "B", "é", "z", "zz", "日本"];
    for a in names {
        for b in names {
            assert_eq!(name_le(&chars(a), &chars(b)), a <= b, "{:?} <= {:?}", a, b);
        }
    }
}
