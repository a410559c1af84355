use prettycron::expression::chars_of;
use prettycron::expression::wildcard_flags;

#[test]
fn characters_of_a_string() {
    assert_eq!(chars_of(""), Vec::<char>::new());
    assert_eq!(chars_of("* 5"), vec!['*', ' ', '5']);
    assert_eq!(chars_of("\u{e9}\u{3000}x"), vec!['\u{e9}', '\u{3000}', 'x']);
}

#[test]
fn flags_of_an_empty_expression() {
    assert_eq!(wildcard_flags(""), Vec::<bool>::new());
    assert_eq!(wildcard_flags("   \t\n"), Vec::<bool>::new());
}

#[test]
fn one_flag_for_each_piece() {
    assert_eq!(wildcard_flags("*"), vec![true]);
    assert_eq!(wildcard_flags("5"), vec![false]);
    assert_eq!(wildcard_flags("* * * * * *"), vec![true; 6]);
    assert_eq!(
        wildcard_flags("0,2,4,20 * 9 * May-Aug *"),
        vec![false, true, false, true, false, true]
    );
    assert_eq!(wildcard_flags("* * * * * * 2018/2"), vec![true, true, true, true, true, true, false]);
}

#[test]
fn only_a_lone_star_is_a_wildcard() {
    assert_eq!(wildcard_flags("*/2 ** ? *5 5* *"), vec![false, false, false, false, false, true]);
}

#[test]
fn any_white_space_separates() {
    assert_eq!(wildcard_flags("  *\t\t5\n*  "), vec![true, false, true]);
    assert_eq!(wildcard_flags("*\u{a0}*\u{2003}7\u{3000}*"), vec![true, true, false, true]);
    assert_eq!(wildcard_flags("*\u{200b}*"), vec![false]);
}

#[test]
fn flags_agree_with_split_whitespace() {
    let expressions = [
        "* * * * * *",
        "1 , 2 * * * * *",
        " 5  *   9,12 \t 1-3 * ?",
        "@hourly",
        "*",
        "",
    ];
    for expression in expressions {
        let expected: Vec<bool> = expression.split_whitespace().map(|piece| piece == "*").collect();
        assert_eq!(wildcard_flags(expression), expected, "{:?}", expression);
    }
}
