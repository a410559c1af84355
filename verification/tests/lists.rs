use prettycron::lists::date_list;
use prettycron::lists::number_list;
use prettycron::lists::number_to_date_name;
use prettycron::text::and_list;
use prettycron::text::decimal;
use prettycron::text::is_whitespace;
use prettycron::text::join_words;
use prettycron::DateNaming;

fn strings(items: &[&str]) -> Vec<String> {
    items.iter().map(|s| s.to_string()).collect()
}

#[test]
fn ordinal_suffix_boundaries() {
    let cases: [(u32, &str); 10] = [
        (1, "1st"),
        (2, "2nd"),
        (3, "3rd"),
        (4, "4th"),
        (11, "11th"),
        (12, "12th"),
        (13, "13th"),
        (21, "21st"),
        (22, "22nd"),
        (23, "23rd"),
    ];
    for (value, expected) in cases {
        assert_eq!(number_list(&[value]), expected);
    }
}

#[test]
fn ordinal_suffix_beyond_the_first_hundred() {
    assert_eq!(number_list(&[0]), "0th");
    assert_eq!(number_list(&[10]), "10th");
    assert_eq!(number_list(&[14]), "14th");
    assert_eq!(number_list(&[19]), "19th");
    assert_eq!(number_list(&[20]), "20th");
    assert_eq!(number_list(&[101]), "101st");
    assert_eq!(number_list(&[111]), "111th");
    assert_eq!(number_list(&[112]), "112th");
    assert_eq!(number_list(&[113]), "113th");
    assert_eq!(number_list(&[122]), "122nd");
    assert_eq!(number_list(&[2100]), "2100th");
    assert_eq!(number_list(&[4294967295]), "4294967295th");
}

#[test]
fn number_list_single_value() {
    assert_eq!(number_list(&[5]), "5th");
}

#[test]
fn number_list_two_values() {
    assert_eq!(number_list(&[15, 16]), "15 and 16th");
}

#[test]
fn number_list_many_values() {
    assert_eq!(number_list(&[0, 2, 4, 20]), "0, 2, 4 and 20th");
    assert_eq!(number_list(&[3, 7, 12]), "3, 7 and 12th");
    assert_eq!(number_list(&[1, 2, 3]), "1, 2 and 3rd");
}

#[test]
fn number_list_of_equal_ascending_fields() {
    let a: Vec<u32> = vec![2, 5, 9];
    let b: Vec<u32> = (0..10).filter(|v| [9, 2, 5].contains(v)).collect();
    assert_eq!(number_list(&a), number_list(&b));
    assert_eq!(number_list(&a), "2, 5 and 9th");
}

#[test]
fn number_list_follows_the_order_it_is_given() {
    assert_eq!(number_list(&[9, 5, 2]), "9, 5 and 2nd");
    assert_ne!(number_list(&[9, 5, 2]), number_list(&[2, 5, 9]));
}

#[test]
fn date_names() {
    assert_eq!(number_to_date_name(1, DateNaming::DOW), "DAY(0)");
    assert_eq!(number_to_date_name(7, DateNaming::DOW), "DAY(6)");
    assert_eq!(number_to_date_name(1, DateNaming::MON), "MONTH(0)");
    assert_eq!(number_to_date_name(5, DateNaming::MON), "MONTH(4)");
    assert_eq!(number_to_date_name(12, DateNaming::MON), "MONTH(11)");
}

#[test]
fn date_list_single_value_has_no_and() {
    let text = date_list(&[2], DateNaming::DOW);
    assert_eq!(text, "DAY(1)");
    assert!(!text.contains("and"));
}

#[test]
fn date_list_two_values() {
    assert_eq!(date_list(&[2, 4], DateNaming::DOW), "DAY(1) and DAY(3)");
}

#[test]
fn date_list_many_values_have_no_ordinals() {
    assert_eq!(date_list(&[2, 4, 6], DateNaming::DOW), "DAY(1), DAY(3) and DAY(5)");
    assert_eq!(
        date_list(&[5, 6, 7, 8], DateNaming::MON),
        "MONTH(4), MONTH(5), MONTH(6) and MONTH(7)"
    );
    assert_eq!(
        date_list(&[1, 2, 3], DateNaming::MON),
        "MONTH(0), MONTH(1) and MONTH(2)"
    );
}

#[test]
fn decimal_numerals() {
    assert_eq!(decimal(0), "0");
    assert_eq!(decimal(7), "7");
    assert_eq!(decimal(10), "10");
    assert_eq!(decimal(59), "59");
    assert_eq!(decimal(1000), "1000");
    assert_eq!(decimal(18446744073709551615), "18446744073709551615");
}

#[test]
fn and_lists() {
    assert_eq!(and_list(&strings(&["a"])), "a");
    assert_eq!(and_list(&strings(&["a", "b"])), "a and b");
    assert_eq!(and_list(&strings(&["a", "b", "c"])), "a, b and c");
    assert_eq!(and_list(&strings(&["a", "b", "c", "d"])), "a, b, c and d");
    assert_eq!(and_list(&strings(&["", "b", ""])), ", b and ");
}

#[test]
fn joined_words_leave_out_the_empty_ones() {
    assert_eq!(join_words(&strings(&[])), "");
    assert_eq!(join_words(&strings(&["", ""])), "");
    assert_eq!(join_words(&strings(&["Every", "second", ""])), "Every second");
    assert_eq!(join_words(&strings(&["", "a", "", "b c", ""])), "a b c");
    assert_eq!(join_words(&strings(&["one"])), "one");
}

#[test]
fn white_space_is_what_unicode_says() {
    for code in 0u32..=0x3100 {
        if let Some(c) = char::from_u32(code) {
            assert_eq!(is_whitespace(c), c.is_whitespace(), "U+{:04X}", code);
        }
    }
    assert!(is_whitespace(' '));
    assert!(is_whitespace('\t'));
    assert!(is_whitespace('\n'));
    assert!(is_whitespace('\u{3000}'));
    assert!(!is_whitespace('*'));
    assert!(!is_whitespace('\u{200B}'));
}
