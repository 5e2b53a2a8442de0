use leak_tracer::call::RawFilename;
use leak_tracer::text::bounded_text;
use leak_tracer::Call;

#[test]
fn short_text_is_kept_whole() {
    let cs: Vec<char> = "main.rs".chars().collect();
    assert_eq!(bounded_text(&cs).as_str(), "main.rs");
}

#[test]
fn long_text_is_cut_short() {
    let cs: Vec<char> = std::iter::repeat('a').take(700).collect();
    let t = bounded_text(&cs);
    assert_eq!(t.len(), 500);
    assert!(t.as_str().chars().all(|c| c == 'a'));
}

#[test]
fn wide_chars_stop_at_capacity() {
    let cs: Vec<char> = std::iter::repeat('\u{1F600}').take(200).collect();
    let t = bounded_text(&cs);
    assert_eq!(t.as_str().chars().count(), 125);
}

#[test]
fn parts_with_everything_present() {
    let c = Call::from_parts(
        Some(b"alloc_fn".as_slice()),
        Some(RawFilename::Bytes(b"src/lib.rs".as_slice())),
        Some(12),
        Some(5),
        Some(0xdead),
    );
    assert_eq!(c.name.unwrap().as_str(), "alloc_fn");
    assert_eq!(c.filename.unwrap().as_str(), "src/lib.rs");
    assert_eq!(c.line, Some(12));
    assert_eq!(c.col, Some(5));
    assert_eq!(c.addr, 0xdead);
}

#[test]
fn parts_with_nothing_resolved() {
    let c = Call::from_parts(None, None, None, Some(3), None);
    assert!(c.name.is_none());
    assert!(c.filename.is_none());
    assert_eq!(c.line, None);
    assert_eq!(c.col, Some(3));
    assert_eq!(c.addr, 0);
}

#[test]
fn malformed_utf8_is_decoded_lossily() {
    let bytes = [b'a', 0xff, b'b'];
    let c = Call::from_parts(Some(bytes.as_slice()), None, None, None, Some(1));
    assert_eq!(c.name.unwrap().as_str(), "a\u{FFFD}b");
}

#[test]
fn wide_filename_is_decoded() {
    let units: Vec<u16> = "C:\\src\\x.rs".encode_utf16().collect();
    let c = Call::from_parts(None, Some(RawFilename::Wide(&units)), Some(1), None, Some(1));
    assert_eq!(c.filename.unwrap().as_str(), "C:\\src\\x.rs");
}

#[test]
fn unpaired_surrogate_is_replaced() {
    let units: Vec<u16> = vec![0x0061, 0xD800, 0x0062];
    let c = Call::from_parts(None, Some(RawFilename::Wide(&units)), None, None, Some(1));
    assert_eq!(c.filename.unwrap().as_str(), "a\u{FFFD}b");
}

#[test]
fn long_multibyte_text_takes_longest_fitting_prefix() {
    // 499 one-byte characters leave one byte: a two-byte character no longer fits.
    let mut cs: Vec<char> = std::iter::repeat('x').take(499).collect();
    cs.push('\u{e9}');
    cs.push('y');
    let t = bounded_text(&cs);
    assert_eq!(t.len(), 499);
    assert_eq!(t.as_str().chars().count(), 499);
}

#[test]
fn exact_capacity_is_kept_whole() {
    let cs: Vec<char> = std::iter::repeat('z').take(500).collect();
    assert_eq!(bounded_text(&cs).len(), 500);
}
