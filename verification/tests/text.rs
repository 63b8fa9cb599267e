use garlemald_client::app::patcher_window::format_kb;
use garlemald_client::app::sizes::format_bytes;
use garlemald_client::path_text;
use garlemald_client::text;

#[test]
fn white_space_is_that_of_the_standard_library() {
    for code in 0u32..0x11_0000 {
        if let Some(c) = char::from_u32(code) {
            assert_eq!(text::white_space(c), c.is_whitespace(), "U+{code:04X}");
        }
    }
}

#[test]
fn trimming_agrees_with_the_standard_library() {
    for s in ["", " ", "a", " a ", "\t a b \n", "\u{3000}x\u{a0}", "\u{200b}x"] {
        assert_eq!(text::trim(s), s.trim());
    }
}

#[test]
fn texts_are_cut_as_the_standard_library_cuts_them() {
    for s in ["", "=", "a=b", "a=b=c", "ab", "=b", "a="] {
        assert_eq!(text::split_once(s, '='), s.split_once('='));
    }
    for s in ["", "a", "a/b", "a/b/", "/", "é/ü"] {
        assert_eq!(text::tail_after_last(s, '/'), s.rsplit('/').next().unwrap());
    }
    for s in ["", "host:80", "host/path?x", "#", "é?"] {
        assert_eq!(text::head_before(s, "/?#"), s.split(['/', '?', '#']).next().unwrap());
    }
    assert_eq!(text::strip_prefix("https://x", "https://"), Some("x"));
    assert_eq!(text::strip_prefix("http://x", "https://"), None);
    assert!(text::starts_with("magnet:?", "magnet:"));
    assert!(!text::starts_with("magne", "magnet:"));
    assert!(text::ends_with_char("a/", '/'));
    assert!(!text::ends_with_char("", '/'));
}

#[test]
fn texts_are_compared_as_the_standard_library_compares_them() {
    let all = ["", "a", "A", "ab", "b", "z", "é", "\u{ffff}", "\u{10000}", "Zip", "zIP"];
    for a in all {
        for b in all {
            assert_eq!(text::same(a, b), a == b);
            assert_eq!(text::text_precedes(a, b), a < b);
            assert_eq!(text::text_precedes(a, b), a.as_bytes() < b.as_bytes());
            assert_eq!(text::eq_ignore_ascii_case(a, b), a.eq_ignore_ascii_case(b));
        }
    }
}

#[test]
fn numbers_are_written_and_read_in_decimal() {
    for n in [0u64, 7, 10, 99, 100, 4294967295, u64::MAX] {
        assert_eq!(text::decimal_text(n), n.to_string());
    }
    for s in [
        "", "+", "-1", "0", "+0", "007", "30", " 30", "30 ", "4294967295", "4294967296",
        "99999999999999999999", "1a", "++1", "１",
    ] {
        assert_eq!(text::parse_u32(s), s.parse::<u32>().ok(), "{s:?}");
    }
}

#[test]
fn sizes_in_bytes_and_hex_digits_are_told() {
    assert_eq!(text::size_of_text("aé€😀"), 10);
    assert!(text::all_hex_digits("0189afAF"));
    assert!(text::all_hex_digits(""));
    assert!(!text::all_hex_digits("0g"));
}

#[test]
fn lists_are_joined() {
    let none: Vec<String> = Vec::new();
    assert_eq!(text::join(&none, ", "), "");
    assert_eq!(text::join(&vec!["a".to_string()], ", "), "a");
    assert_eq!(text::join(&vec!["a".to_string(), "b".to_string()], ", "), "a, b");
    assert_eq!(text::first_strings(&vec!["a".to_string(), "b".to_string()], 1), ["a"]);
}

const PATHS: [&str; 22] = [
    "", "/", "a", "/a", "a/", "a/b", "a//b", "/a/./b/", "./a", ".", "..", "a/..", "a/.", "./",
    "/.", "/..", ".hidden", "a/.hidden", "x.patch", "x.tar.gz", ".x.zip", "a.",
];

#[test]
fn names_and_extensions_agree_with_the_standard_library() {
    for p in PATHS {
        let path = std::path::Path::new(p);
        let name = path.file_name().map(|n| n.to_str().unwrap().to_string());
        assert_eq!(path_text::file_name(p), name, "{p:?}");
        let extension = path.extension().map(|n| n.to_str().unwrap().to_string());
        assert_eq!(path_text::extension(p), extension, "{p:?}");
        assert_eq!(
            path_text::is_hidden(p),
            name.is_some_and(|n| n.starts_with('.')),
            "{p:?}"
        );
        assert_eq!(path_text::starts_at_root(p), path.is_absolute(), "{p:?}");
    }
}

#[test]
fn paths_are_joined_and_compared_as_by_the_standard_library() {
    for a in PATHS {
        let path = std::path::Path::new(a);
        let parent = path_text::parent(a);
        assert_eq!(parent.as_deref().map(std::path::Path::new), path.parent(), "{a:?}");
        for b in PATHS {
            assert_eq!(path_text::join_path(a, b), path.join(b).to_str().unwrap());
            assert_eq!(path_text::is_same_path(a, b), path == std::path::Path::new(b));
        }
    }
}

#[test]
fn a_joined_name_is_the_name_of_the_path() {
    for base in ["", "/", "a", "a/", "/x//y"] {
        let path = path_text::join_path(base, "D2010.patch");
        assert_eq!(path_text::file_name(&path).as_deref(), Some("D2010.patch"));
    }
}

fn float_text(bytes: u64) -> String {
    const KB: f64 = 1024.0;
    const MB: f64 = 1024.0 * KB;
    const GB: f64 = 1024.0 * MB;
    let b = bytes as f64;
    if b >= GB {
        format!("{:.2} GB", b / GB)
    } else if b >= MB {
        format!("{:.2} MB", b / MB)
    } else {
        format!("{:.0} KB", b / KB)
    }
}

#[test]
fn sizes_are_written_as_floating_point_writes_them() {
    let mut probes: Vec<u64> = vec![0, 1, 511, 512, 513, 1535, 1536, 1537, 2560, u64::MAX];
    for shift in 0..64 {
        let power = 1u64 << shift;
        probes.extend([power, power - 1, power.wrapping_add(1), power + power / 2]);
    }
    for step in 1..2000u64 {
        probes.push(step * 1311);
        probes.push((1 << 20) + step * 5243 * 5);
        probes.push((1 << 30) + step * 5368709 + step * 12);
        probes.push((1 << 53) + step * 1023);
        probes.push((1 << 62) + step * 0x1_0000_0003);
    }
    // Values that lie exactly between two roundings.
    for eighth in 0..400u64 {
        probes.push((1 << 20) + eighth * ((1 << 20) / 8));
        probes.push((1 << 30) + eighth * ((1 << 30) / 8));
        probes.push(eighth * 512);
    }
    for bytes in probes {
        assert_eq!(format_bytes(bytes), float_text(bytes), "{bytes}");
        assert_eq!(format_kb(bytes), float_text(bytes), "{bytes}");
    }
    assert_eq!(format_bytes(6_120_000_000), "5.70 GB");
}
