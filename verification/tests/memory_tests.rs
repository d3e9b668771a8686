use minimalist_browser::memory::{
    find_line_end, find_rss_line, find_second_word, find_word, find_word_end, megabytes,
    parse_decimal, resident_mb_from_bytes, resident_mb_from_ps, resident_mb_from_status, slice_of,
};
use minimalist_browser::text::chars_of;

fn by_std(content: &str) -> Option<usize> {
    content.lines().find(|line| line.starts_with("VmRSS")).and_then(|line| {
        line.split_whitespace().nth(1).and_then(|s| s.parse::<usize>().ok()).map(|kb| kb / 1024)
    })
}

const STATUS: &str = "Name:\tbrowser\nUmask:\t0022\nState:\tS (sleeping)\nVmPeak:\t  250000 kB\nVmSize:\t  240000 kB\nVmRSS:\t   46080 kB\nRssAnon:\t   20000 kB\nThreads:\t8\n";

#[test]
fn status_of_a_process() {
    assert_eq!(resident_mb_from_status(STATUS), Some(45));
}

#[test]
fn status_rounds_down() {
    assert_eq!(resident_mb_from_status("VmRSS: 1023 kB"), Some(0));
    assert_eq!(resident_mb_from_status("VmRSS: 1024 kB"), Some(1));
    assert_eq!(resident_mb_from_status("VmRSS: 2047 kB"), Some(1));
    assert_eq!(resident_mb_from_status("VmRSS: 1048576 kB"), Some(1024));
}

#[test]
fn status_without_the_line() {
    assert_eq!(resident_mb_from_status(""), None);
    assert_eq!(resident_mb_from_status("\n"), None);
    assert_eq!(resident_mb_from_status("Name:\tx\nVmSize:\t1 kB\n"), None);
    assert_eq!(resident_mb_from_status(" VmRSS: 2048 kB\n"), None);
    assert_eq!(resident_mb_from_status("vmrss: 2048 kB\n"), None);
    assert_eq!(resident_mb_from_status("Name: VmRSS: 2048 kB\n"), None);
}

#[test]
fn status_with_a_broken_line() {
    assert_eq!(resident_mb_from_status("VmRSS:\n"), None);
    assert_eq!(resident_mb_from_status("VmRSS"), None);
    assert_eq!(resident_mb_from_status("VmRSS:2048 kB\n"), None);
    assert_eq!(resident_mb_from_status("VmRSS: 20x48 kB\n"), None);
    assert_eq!(resident_mb_from_status("VmRSS: -2048 kB\n"), None);
    assert_eq!(resident_mb_from_status("VmRSS: 99999999999999999999999 kB\n"), None);
}

#[test]
fn only_the_first_labelled_line_counts() {
    assert_eq!(resident_mb_from_status("VmRSS: 2048 kB\nVmRSS: 4096 kB\n"), Some(2));
    assert_eq!(resident_mb_from_status("VmRSS: x\nVmRSS: 4096 kB\n"), None);
    assert_eq!(resident_mb_from_status("a\nVmRSSx 3072\nVmRSS: 4096 kB\n"), Some(3));
}

#[test]
fn status_agrees_with_the_standard_reading() {
    let samples = [
        STATUS,
        "",
        "\n\n",
        "VmRSS:\t+2048 kB",
        "VmRSS: 2048",
        "VmRSS:\u{a0}4096\u{3000}kB",
        "VmRSS: 2048 kB\r\nNext: 1\r\n",
        "A\r\nVmRSS: 5000\r\n",
        "A\rVmRSS: 5000\n",
        "VmRSS 18446744073709551615",
        "VmRSS 18446744073709551616",
        "x\nVmRSS",
        "x\nVmRSS\n",
        "VmRS\nS: 1 kB",
        "VmRSS: 007 kB",
        "VmRSS: 1_000 kB",
        "VmRSS: 0x10 kB",
        "VmRSS: \u{661}\u{662} kB",
        "\nVmRSS: 1500 kB",
        "VmRSS:  \t 1500",
    ];
    for s in samples {
        assert_eq!(resident_mb_from_status(s), by_std(s), "{:?}", s);
    }
}

#[test]
fn ps_output() {
    assert_eq!(resident_mb_from_ps(" 46080\n"), Some(45));
    assert_eq!(resident_mb_from_ps("2048"), Some(2));
    assert_eq!(resident_mb_from_ps("0"), Some(0));
    assert_eq!(resident_mb_from_ps(""), None);
    assert_eq!(resident_mb_from_ps("   \n"), None);
    assert_eq!(resident_mb_from_ps("12 34"), None);
    assert_eq!(resident_mb_from_ps("RSS\n2048\n"), None);
}

#[test]
fn numbers_are_read_as_the_standard_library_reads_them() {
    let samples = [
        "", "+", "-", "0", "00", "+0", "-0", "7", "+7", "++7", "+-7", "007", "12345", "12a", "a12",
        " 12", "12 ", "1 2", "1.5", "1e3", "1_000", "0x10", "\u{661}", "\u{ff11}",
        "4294967295", "4294967296", "18446744073709551615", "18446744073709551616",
        "18446744073709551620", "99999999999999999999", "000000000000000000000000000001",
        "+18446744073709551615",
    ];
    for s in samples {
        assert_eq!(parse_decimal(&chars_of(s)), s.parse::<usize>().ok(), "{:?}", s);
    }
}

#[test]
fn numbers() {
    assert_eq!(parse_decimal(&chars_of("46080")), Some(46080));
    assert_eq!(parse_decimal(&chars_of("+5")), Some(5));
    assert_eq!(parse_decimal(&chars_of("")), None);
    assert_eq!(parse_decimal(&chars_of("+")), None);
    assert_eq!(parse_decimal(&chars_of("-5")), None);
}

#[test]
fn second_words() {
    let samples = [
        "", " ", "a", " a ", "a b", "  a   b  ", "a\tb\tc", "VmRSS:\t   46080 kB", "a\u{a0}b",
        "a\u{2003}\u{2003}bcd e", "\n\na\n\nb\n", "a\u{200b}b c",
    ];
    for s in samples {
        let got = find_second_word(&chars_of(s)).map(|w| w.into_iter().collect::<String>());
        let want = s.split_whitespace().nth(1).map(|w| w.to_string());
        assert_eq!(got, want, "{:?}", s);
    }
    assert_eq!(find_second_word(&chars_of("one two three")), Some(vec!['t', 'w', 'o']));
}

#[test]
fn words_and_gaps() {
    let s = chars_of("  ab  cd");
    assert_eq!(find_word(&s, 0), 2);
    assert_eq!(find_word(&s, 2), 2);
    assert_eq!(find_word_end(&s, 2), 4);
    assert_eq!(find_word(&s, 4), 6);
    assert_eq!(find_word_end(&s, 6), 8);
    assert_eq!(find_word(&s, 8), 8);
    assert_eq!(find_word_end(&s, 8), 8);
}

#[test]
fn lines() {
    let s = chars_of("ab\ncd\n\nef");
    assert_eq!(find_line_end(&s, 0), 2);
    assert_eq!(find_line_end(&s, 1), 2);
    assert_eq!(find_line_end(&s, 2), 2);
    assert_eq!(find_line_end(&s, 3), 5);
    assert_eq!(find_line_end(&s, 6), 6);
    assert_eq!(find_line_end(&s, 7), 9);
    assert_eq!(find_line_end(&s, 9), 9);
}

#[test]
fn labelled_line() {
    let line = find_rss_line(&chars_of("a\nVmRSS: 1 kB\nb")).unwrap();
    assert_eq!(line.into_iter().collect::<String>(), "VmRSS: 1 kB");
    assert!(find_rss_line(&chars_of("a\nb")).is_none());
    let last = find_rss_line(&chars_of("a\nVmRSS")).unwrap();
    assert_eq!(last.into_iter().collect::<String>(), "VmRSS");
}

#[test]
fn slices() {
    let s = chars_of("hello");
    assert_eq!(slice_of(&s, 1, 4), vec!['e', 'l', 'l']);
    assert_eq!(slice_of(&s, 0, 5), s);
    assert_eq!(slice_of(&s, 3, 3), Vec::<char>::new());
}

#[test]
fn kilobytes_to_megabytes() {
    assert_eq!(megabytes(0), 0);
    assert_eq!(megabytes(1023), 0);
    assert_eq!(megabytes(1024), 1);
    assert_eq!(megabytes(46080), 45);
    assert_eq!(megabytes(usize::MAX), usize::MAX / 1024);
}

#[test]
fn bytes_to_megabytes() {
    assert_eq!(resident_mb_from_bytes(0), 0);
    assert_eq!(resident_mb_from_bytes(1_048_575), 0);
    assert_eq!(resident_mb_from_bytes(1_048_576), 1);
    assert_eq!(resident_mb_from_bytes(47_185_920), 45);
    assert_eq!(resident_mb_from_bytes(usize::MAX), usize::MAX / 1_048_576);
    assert_eq!(resident_mb_from_bytes(3_000_000), megabytes(megabytes(3_000_000)));
}
