use context_switch::audio::{chunk_8192, from_le_bytes, to_le_bytes, AudioFormat, AudioFrame};
use context_switch::base64_codec::{decode_base64, encode_base64};
use context_switch::error::Error;
use context_switch::language::Languages;
use context_switch::table::Table;
use context_switch::text::{
    contains, contains_ignore_ascii_case, decimal_text, ends_with, eq_ignore_ascii_case, join, lines,
    split, starts_with, strip_suffix, trim, trim_end, trim_end_matches,
};

#[test]
fn prefixes_and_suffixes() {
    assert!(starts_with("models/x", "models/"));
    assert!(!starts_with("model", "models/"));
    assert!(ends_with("en-US-JennyNeural", "Neural"));
    assert!(!ends_with("Neural", "xNeural"));
    assert_eq!(strip_suffix("a/v1/listen", "/v1/listen"), Some("a".to_string()));
    assert_eq!(strip_suffix("a/v3/listen", "/v1/listen"), None);
}

#[test]
fn searching_text() {
    assert!(contains("wss://h/v3/listen?x", "/listen"));
    assert!(contains("abc", ""));
    assert!(!contains("ab", "abc"));
    assert!(contains_ignore_ascii_case("ABORTED: Max Duration", "max duration"));
    assert!(!contains_ignore_ascii_case("max", "max duration"));
    assert!(eq_ignore_ascii_case("puck", "Puck"));
    assert!(!eq_ignore_ascii_case("\u{e4}", "\u{c4}"));
}

#[test]
fn trimming_text() {
    assert_eq!(trim(" \t a b \u{a0}\n"), "a b");
    assert_eq!(trim_end("  a \r\n"), "  a");
    assert_eq!(trim_end_matches("a///", '/'), "a");
    assert_eq!(trim("\u{2003}"), "");
}

#[test]
fn splitting_text() {
    assert_eq!(split("a,b,,c", ','), vec!["a", "b", "", "c"]);
    assert_eq!(split("", ','), vec![""]);
    assert_eq!(lines("a\r\nb\n"), vec!["a", "b"]);
    assert_eq!(lines("a\n\nb\r"), vec!["a", "", "b\r"]);
    assert!(lines("").is_empty());
    assert_eq!(join(&vec!["a".to_string(), "b".to_string()], ": "), "a: b");
}

#[test]
fn numbers_in_decimal() {
    assert_eq!(decimal_text(0), "0");
    assert_eq!(decimal_text(90210), "90210");
    assert_eq!(decimal_text(u64::MAX), "18446744073709551615");
}

#[test]
fn errors_have_contexts() {
    let error = Error::new("root").context("middle").context("outer");
    assert_eq!(error.chain, vec!["outer", "middle", "root"]);
    assert_eq!(error.message(), "outer: middle: root");
}

#[test]
fn tables_replace_and_forget() {
    let mut table: Table<String, u64> = Table::new();
    assert_eq!(table.insert("a".to_string(), 1), None);
    assert_eq!(table.insert("b".to_string(), 2), None);
    assert_eq!(table.insert("a".to_string(), 3), Some(1));
    assert_eq!(table.get(&"a".to_string()), Some(&3));
    assert_eq!(table.len(), 2);
    assert_eq!(table.remove(&"a".to_string()), Some(3));
    assert_eq!(table.remove(&"a".to_string()), None);
    assert!(!table.contains(&"a".to_string()));
    assert!(table.contains(&"b".to_string()));
}

#[test]
fn samples_and_bytes() {
    let samples: Vec<i16> = vec![0, 1, -1, i16::MIN, i16::MAX, 256];
    let bytes = to_le_bytes(&samples);
    assert_eq!(bytes, vec![0, 0, 1, 0, 255, 255, 0, 128, 255, 127, 0, 1]);
    assert_eq!(from_le_bytes(&bytes), samples);
    assert_eq!(from_le_bytes(&vec![1, 0, 7]), vec![1]);
}

#[test]
fn durations_of_frames() {
    let frame = AudioFrame { format: AudioFormat::new(1, 16000), samples: vec![0; 320] };
    assert_eq!(frame.duration(), 20_000_000);
    let stereo = AudioFrame { format: AudioFormat::new(2, 48000), samples: vec![0; 1] };
    assert_eq!(stereo.duration(), 10_416);
}

#[test]
fn chunks_of_bytes() {
    let bytes: Vec<u8> = (0..20000u32).map(|i| (i % 251) as u8).collect();
    let chunks = chunk_8192(bytes.clone());
    assert_eq!(chunks.iter().map(|c| c.len()).collect::<Vec<usize>>(), vec![8192, 8192, 3616]);
    assert_eq!(chunks.concat(), bytes);
    assert!(chunk_8192(Vec::new()).is_empty());
    assert_eq!(chunk_8192(vec![1; 8192]).len(), 1);
}

#[test]
fn base64_texts() {
    assert_eq!(encode_base64(&vec![]), "");
    assert_eq!(encode_base64(&vec![0x66]), "Zg==");
    assert_eq!(encode_base64(&vec![0x66, 0x6f]), "Zm8=");
    assert_eq!(encode_base64(&vec![0x66, 0x6f, 0x6f]), "Zm9v");
    assert_eq!(encode_base64(&vec![0xfb, 0xff, 0xbf, 0x00]), "+/+/AA==");
    assert_eq!(decode_base64("Zm9v").unwrap(), vec![0x66, 0x6f, 0x6f]);
    assert_eq!(decode_base64("+/+/AA==").unwrap(), vec![0xfb, 0xff, 0xbf, 0x00]);
}

#[test]
fn base64_has_one_text_for_each_bytes() {
    // The unused bits are set, padding is missing, or padding is misplaced.
    assert!(decode_base64("Zh==").is_err());
    assert!(decode_base64("Zg").is_err());
    assert!(decode_base64("Zg=").is_err());
    assert!(decode_base64("Zg==Zg==").is_err());
    assert!(decode_base64("Z g=").is_err());
    assert_eq!(decode_base64("?").unwrap_err().chain.len(), 1);
}

#[test]
fn language_lists() {
    let languages = Languages::from_csv(" en-US , ,de-DE").unwrap();
    assert_eq!(languages.len(), 2);
    assert_eq!(languages.first(), "en-US");
    assert_eq!(languages.to_vec(), vec!["en-US", "de-DE"]);
    assert!(Languages::from_csv(" , ").is_none());
    assert_eq!(
        Languages::required_from_csv("").err().unwrap().chain,
        vec!["language must contain at least one locale code"]
    );
}
