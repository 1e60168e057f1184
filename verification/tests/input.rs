use todo_tracker::answer::Answer;
use todo_tracker::number::{decimal_text, parse_index};
use todo_tracker::report::{Channel, Prompt, Report};
use todo_tracker::bytes::{bytes_equal, bytes_less};
use todo_tracker::encoding::{same_text, text_less};
use todo_tracker::entry::TodoEntry;

fn entry(name: &str, description: &str) -> TodoEntry {
    TodoEntry::new(name.to_string(), description.to_string())
}

#[test]
fn numbers_are_written_in_decimal() {
    assert_eq!(decimal_text(0), "0");
    assert_eq!(decimal_text(7), "7");
    assert_eq!(decimal_text(9), "9");
    assert_eq!(decimal_text(10), "10");
    assert_eq!(decimal_text(42), "42");
    assert_eq!(decimal_text(100), "100");
    assert_eq!(decimal_text(1234567890), "1234567890");
    assert_eq!(decimal_text(usize::MAX), usize::MAX.to_string());
}

#[test]
fn what_is_written_is_read_back() {
    for n in [0usize, 1, 9, 10, 11, 99, 100, 101, 65535, 4294967295, usize::MAX - 1, usize::MAX] {
        assert_eq!(parse_index(&decimal_text(n)), Some(n));
    }
}

#[test]
fn an_index_is_digits_with_or_without_a_plus() {
    assert_eq!(parse_index("0"), Some(0));
    assert_eq!(parse_index("5"), Some(5));
    assert_eq!(parse_index("12"), Some(12));
    assert_eq!(parse_index("+12"), Some(12));
    assert_eq!(parse_index("+0"), Some(0));
    assert_eq!(parse_index("007"), Some(7));
    assert_eq!(parse_index("0000000000000000000000000000000000001"), Some(1));
}

#[test]
fn anything_else_is_no_index() {
    for text in [
        "", "+", "-", "-1", "-0", "++1", "+-1", "1+", "1 ", " 1", "1\n", "1_000", "1.0", "1e3",
        "0x10", "a", "one", "١٢", "1é", "é1", "\u{ff11}",
    ] {
        assert_eq!(parse_index(text), None, "{:?}", text);
        assert_eq!(parse_index(text), text.parse::<usize>().ok(), "{:?}", text);
    }
}

#[test]
fn an_index_has_to_fit() {
    let max = usize::MAX.to_string();
    assert_eq!(parse_index(&max), Some(usize::MAX));
    assert_eq!(parse_index(&format!("+{}", max)), Some(usize::MAX));
    assert_eq!(parse_index(&format!("{}0", max)), None);
    assert_eq!(parse_index(&format!("1{}", max)), None);
    assert_eq!(parse_index("18446744073709551616"), "18446744073709551616".parse::<usize>().ok());
    assert_eq!(parse_index("99999999999999999999999999"), None);
}

#[test]
fn indices_are_read_as_the_platform_reads_them() {
    for text in ["3", "+3", "03", "4294967296", "18446744073709551615", "18446744073709551616"] {
        assert_eq!(parse_index(text), text.parse::<usize>().ok(), "{:?}", text);
    }
}

#[test]
fn answers_are_read_in_any_case() {
    for line in ["y", "Y", "yes", "Yes", "YES", "yEs", "yeS", "YEs", "yES", "YeS"] {
        assert_eq!(Answer::parse(line), Answer::Yes, "{:?}", line);
    }
    for line in ["n", "N", "no", "No", "NO", "nO"] {
        assert_eq!(Answer::parse(line), Answer::No, "{:?}", line);
    }
}

#[test]
fn an_answer_is_read_as_its_lower_case_is() {
    for line in ["Y", "yEs", "N", "nO", "Maybe", "YE", "NOPE", "", "Ÿ", "ÝES", "y\u{301}"] {
        assert_eq!(Answer::parse(line), Answer::parse(&line.to_ascii_lowercase()), "{:?}", line);
    }
}

#[test]
fn other_answers_are_unclear() {
    for line in [
        "", "ye", "yess", "yn", "ny", " y", "y ", "y\n", "1", "true", "ok", "ÿ", "ýes", "ｙ", "ｙｅｓ",
        "yes\u{0}", "\u{0}", "@", "[", "`", "{", "YES ", "n o", "non", "on",
    ] {
        assert_eq!(Answer::parse(line), Answer::Unclear, "{:?}", line);
    }
}

#[test]
fn prompts_ask_in_their_words() {
    assert_eq!(Prompt::Command.text(), "Enter a command:");
    assert_eq!(Prompt::EntryName.text(), "Name of todo entry:");
    assert_eq!(Prompt::EntryDescription.text(), "Description of todo entry:");
    assert_eq!(Prompt::RemoveIndex.text(), "Index of entry to remove:");
    assert_eq!(Prompt::OverrideEntries.text(), "Override current entries? (y/n)");
    assert_eq!(
        Prompt::QuitUnsaved.text(),
        "A save file exists, but you have unsaved data. Are you sure you want to quit? (y/n)"
    );
}

#[test]
fn a_failed_lookup_would_be_an_error() {
    assert_eq!(Report::LookupFailed.text(), "Failed to get index of entry!");
    assert_eq!(Report::LookupFailed.channel(), Channel::Error);
}

#[test]
fn a_listed_line_shows_place_name_and_description() {
    let report = Report::Listed { place: 17, entry: entry("milk", "two litres: cold") };
    assert_eq!(report.text(), "17 - milk: two litres: cold");
    let report = Report::Listed { place: 0, entry: entry("", "") };
    assert_eq!(report.text(), "0 - : ");
    let report = Report::Listed { place: usize::MAX, entry: entry("é", "ü") };
    assert_eq!(report.text(), format!("{} - é: ü", usize::MAX));
}

#[test]
fn strings_compare_as_the_platform_compares_them() {
    let words = [
        "", "a", "A", "aa", "ab", "b", "B", "10", "9", "é", "z", "zz", "~", "日本", "a\u{0}",
        "\u{7f}", "\u{80}", "\u{7ff}", "\u{800}", "\u{d7ff}", "\u{e000}", "\u{ffff}",
        "\u{10000}", "\u{10ffff}", "é\u{10000}", "éa",
    ];
    for a in words {
        for b in words {
            assert_eq!(text_less(a, b), a < b, "{:?} {:?}", a, b);
            assert_eq!(same_text(a, b), a == b, "{:?} {:?}", a, b);
            assert_eq!(bytes_less(a.as_bytes(), b.as_bytes()), a.as_bytes() < b.as_bytes());
            assert_eq!(bytes_equal(a.as_bytes(), b.as_bytes()), a.as_bytes() == b.as_bytes());
        }
    }
}

#[test]
fn strings_compare_character_by_character() {
    let words = [
        "", "a", "ab", "b", "é", "z", "日本", "\u{7f}", "\u{80}", "\u{7ff}", "\u{800}",
        "\u{ffff}", "\u{10000}", "\u{10ffff}", "z\u{10ffff}", "é\u{800}", "é\u{7ff}",
    ];
    for a in words {
        for b in words {
            let (x, y): (Vec<char>, Vec<char>) = (a.chars().collect(), b.chars().collect());
            assert_eq!(text_less(a, b), x < y, "{:?} {:?}", a, b);
        }
    }
}

#[test]
fn a_prefix_comes_first() {
    assert!(text_less("", "a"));
    assert!(text_less("a", "ab"));
    assert!(!text_less("ab", "a"));
    assert!(!text_less("a", "a"));
    assert!(bytes_less(&[1, 2], &[1, 2, 0]));
    assert!(bytes_less(&[1, 2, 255], &[1, 3]));
    assert!(!bytes_less(&[200], &[100, 1]));
}

#[test]
fn entries_compare_by_name_then_description() {
    let pairs = [("a", "b"), ("a", "c"), ("ab", ""), ("b", "a"), ("", "z"), ("a", "b")];
    for (n1, d1) in pairs {
        for (n2, d2) in pairs {
            let (x, y) = (entry(n1, d1), entry(n2, d2));
            assert_eq!(x.precedes(&y), (n1, d1) < (n2, d2));
            assert_eq!(x < y, (n1, d1) < (n2, d2));
            assert_eq!(x == y, (n1, d1) == (n2, d2));
            assert_eq!(x.partial_cmp(&y), (n1, d1).partial_cmp(&(n2, d2)));
            assert_eq!(x.cmp(&y), (n1, d1).cmp(&(n2, d2)));
        }
    }
}
