use casekit::boundary::Boundary;
use casekit::case::Case;
use casekit::error::{Argument, InvalidEnumCode};
use casekit::ops::{boundary_codes, is_case, list_from, mutate, same_text, to_case, MutateOptions};
use casekit::pattern::Pattern;
use convert_case::Casing;

fn text(s: &str) -> Result<String, InvalidEnumCode> {
    Ok(s.to_string())
}

fn options(delim: Option<&str>, pattern: Option<i64>, boundaries: Option<Vec<i64>>) -> MutateOptions {
    MutateOptions { delim: delim.map(|d| d.to_string()), pattern, boundaries }
}

const SAMPLES: [&str; 14] = [
    "",
    "a",
    "fooBarBaz",
    "foo_bar_baz",
    "My variable NAME",
    "HTTPServer2Instances",
    "2020-04-16_my_cat_cali",
    "__weird--var _name-",
    "XMLHttpRequest",
    "ПЕРСПЕКТИВА24",
    "GranatÄpfel",
    "10,000Days",
    "one\ntwo\nthree",
    "-\u{301}x_y",
];

#[test]
fn camel_to_camel_changes_nothing() {
    assert_eq!(to_case("fooBarBaz", Case::Camel.code(), None), text("fooBarBaz"));
}

#[test]
fn camel_to_snake() {
    assert_eq!(to_case("fooBarBaz", Case::Snake.code(), None), text("foo_bar_baz"));
    assert_eq!(to_case("fooBarBaz", 7, None), text("foo_bar_baz"));
}

#[test]
fn snake_to_pascal() {
    assert_eq!(to_case("foo_bar_baz", Case::Pascal.code(), None), text("FooBarBaz"));
    assert_eq!(to_case("foo_bar_baz", 5, None), text("FooBarBaz"));
}

#[test]
fn every_case_by_hand() {
    let expected = [
        (Case::Upper, "MY VARIABLE NAME"),
        (Case::Lower, "my variable name"),
        (Case::Title, "My Variable Name"),
        (Case::Toggle, "mY vARIABLE nAME"),
        (Case::Camel, "myVariableName"),
        (Case::Pascal, "MyVariableName"),
        (Case::UpperCamel, "MyVariableName"),
        (Case::Snake, "my_variable_name"),
        (Case::UpperSnake, "MY_VARIABLE_NAME"),
        (Case::ScreamingSnake, "MY_VARIABLE_NAME"),
        (Case::Kebab, "my-variable-name"),
        (Case::Cobol, "MY-VARIABLE-NAME"),
        (Case::UpperKebab, "MY-VARIABLE-NAME"),
        (Case::Train, "My-Variable-Name"),
        (Case::Flat, "myvariablename"),
        (Case::UpperFlat, "MYVARIABLENAME"),
        (Case::Alternating, "mY vArIaBlE nAmE"),
    ];
    for (case, output) in expected {
        assert_eq!(to_case("My variable NAME", case.code(), None), text(output));
    }
}

#[test]
fn from_case_narrows_the_boundaries() {
    assert_eq!(
        to_case("2020-04-16_my_cat_cali", Case::Title.code(), None),
        text("2020 04 16 My Cat Cali")
    );
    assert_eq!(
        to_case("2020-04-16_my_cat_cali", Case::Title.code(), Some(Case::Snake.code())),
        text("2020-04-16 My Cat Cali")
    );
    assert_eq!(
        to_case("dot_productValue", Case::Title.code(), Some(Case::Snake.code())),
        text("Dot Productvalue")
    );
    assert_eq!(
        to_case("XMLHttpRequest", Case::Snake.code(), Some(Case::Camel.code())),
        text("xml_http_request")
    );
    assert_eq!(
        to_case("my-kebab-var", Case::Title.code(), Some(Case::Snake.code())),
        text("My-kebab-var")
    );
}

#[test]
fn to_case_agrees_with_convert_case() {
    for input in SAMPLES {
        for case in convert_case::Case::all_cases() {
            assert_eq!(to_case(input, case as i64, None), Ok(input.to_case(case)));
            for from in convert_case::Case::all_cases() {
                assert_eq!(
                    to_case(input, case as i64, Some(from as i64)),
                    Ok(input.from_case(from).to_case(case))
                );
            }
        }
    }
}

#[test]
fn to_case_refuses_a_target_that_names_no_case() {
    for code in [-1, 17, 255, i64::MAX] {
        assert_eq!(
            to_case("fooBar", code, None),
            Err(InvalidEnumCode { argument: Argument::TargetCase, code })
        );
    }
}

#[test]
fn to_case_refuses_a_source_that_names_no_case() {
    for code in [-1, 17, 255, i64::MIN] {
        assert_eq!(
            to_case("fooBar", Case::Snake.code(), Some(code)),
            Err(InvalidEnumCode { argument: Argument::FromCase, code })
        );
    }
}

#[test]
fn to_case_reports_the_target_before_the_source() {
    assert_eq!(
        to_case("fooBar", 99, Some(-5)),
        Err(InvalidEnumCode { argument: Argument::TargetCase, code: 99 })
    );
}

#[test]
fn snake_is_snake() {
    assert_eq!(is_case("foo_bar", Case::Snake.code()), Ok(true));
    assert_eq!(is_case("foo_bar", 7), Ok(true));
}

#[test]
fn camel_is_not_snake() {
    assert_eq!(is_case("fooBar", Case::Snake.code()), Ok(false));
    assert_eq!(is_case("fooBar", 7), Ok(false));
}

#[test]
fn is_case_by_hand() {
    assert_eq!(is_case("css-class-name", Case::Kebab.code()), Ok(true));
    assert_eq!(is_case("css-class-name", Case::Snake.code()), Ok(false));
    assert_eq!(is_case("UPPER_CASE_VAR", Case::Snake.code()), Ok(false));
    assert_eq!(is_case("UPPER_CASE_VAR", Case::UpperSnake.code()), Ok(true));
    assert_eq!(is_case("Train-Case-String", Case::Train.code()), Ok(true));
    assert_eq!(is_case("kebab-case-string", Case::Train.code()), Ok(false));
    assert_eq!(is_case("im_NOTsnake_case", Case::Snake.code()), Ok(false));
    assert_eq!(is_case("asefCase", Case::Camel.code()), Ok(true));
    assert_eq!(is_case("asefCase", Case::Pascal.code()), Ok(false));
}

#[test]
fn is_case_agrees_with_convert_case() {
    for input in SAMPLES {
        for case in convert_case::Case::all_cases() {
            assert_eq!(is_case(input, case as i64), Ok(input.is_case(case)));
        }
    }
}

#[test]
fn is_case_is_whether_to_case_changes_nothing() {
    for input in SAMPLES {
        for code in 0..=16 {
            assert_eq!(is_case(input, code), Ok(to_case(input, code, None) == text(input)));
        }
    }
}

#[test]
fn is_case_refuses_a_code_that_names_no_case() {
    for code in [-1, 17, 300] {
        assert_eq!(
            is_case("foo_bar", code),
            Err(InvalidEnumCode { argument: Argument::TargetCase, code })
        );
    }
}

#[test]
fn the_empty_string_converts_to_itself() {
    for target in 0..=16 {
        assert_eq!(to_case("", target, None), text(""));
        for from in 0..=16 {
            assert_eq!(to_case("", target, Some(from)), text(""));
        }
    }
}

#[test]
fn the_empty_string_is_in_every_case() {
    for target in 0..=16 {
        assert_eq!(is_case("", target), Ok(true));
    }
}

#[test]
fn the_empty_string_mutates_to_itself() {
    assert_eq!(mutate("", &options(None, None, None)), text(""));
    assert_eq!(mutate("", &options(Some("--"), Some(2), Some(vec![0, 1, 2]))), text(""));
}

#[test]
fn a_single_character_is_one_word() {
    assert_eq!(to_case("a", Case::Pascal.code(), None), text("A"));
    assert_eq!(to_case("A", Case::Snake.code(), None), text("a"));
    assert_eq!(to_case("-", Case::Snake.code(), None), text(""));
    assert_eq!(mutate("a", &options(Some("."), Some(1), None)), text("A"));
}

#[test]
fn converting_twice_is_converting_once() {
    let stable = [
        Case::Upper,
        Case::Lower,
        Case::Title,
        Case::Camel,
        Case::Pascal,
        Case::Snake,
        Case::UpperSnake,
        Case::Kebab,
        Case::Cobol,
        Case::Train,
        Case::Flat,
        Case::UpperFlat,
    ];
    for input in ["fooBarBaz", "My variable NAME", "foo_bar-baz qux", "XMLHttpRequest", ""] {
        for case in stable {
            let once = to_case(input, case.code(), None).unwrap();
            assert_eq!(to_case(&once, case.code(), None), Ok(once.clone()));
            assert_eq!(is_case(&once, case.code()), Ok(true));
        }
    }
}

#[test]
fn toggle_splits_what_it_wrote() {
    assert_eq!(to_case("ab", Case::Toggle.code(), None), text("aB"));
    assert_eq!(to_case("aB", Case::Toggle.code(), None), text("a b"));
    assert_eq!(is_case("aB", Case::Toggle.code()), Ok(false));
}

#[test]
fn mutate_with_delimiter_and_pattern() {
    assert_eq!(
        mutate("fooBar", &options(Some("."), Some(Pattern::Uppercase.code()), None)),
        text("FOO.BAR")
    );
    assert_eq!(mutate("fooBar", &options(Some("."), Some(1), None)), text("FOO.BAR"));
}

#[test]
fn mutate_without_options_joins_the_words_as_they_are() {
    assert_eq!(mutate("fooBar", &options(None, None, None)), text("fooBar"));
    assert_eq!(mutate("Death-Perennial QUEST", &options(None, None, None)), text("DeathPerennialQUEST"));
}

#[test]
fn mutate_by_hand() {
    assert_eq!(mutate("foo_bar-baz", &options(Some("."), None, None)), text("foo.bar.baz"));
    assert_eq!(mutate("ohMy", &options(Some(".."), None, None)), text("oh..My"));
    assert_eq!(mutate("my var name", &options(None, Some(4), None)), text("myVarName"));
    assert_eq!(mutate("BJARNE CASE", &options(Some("_"), Some(3), None)), text("Bjarne_case"));
    assert_eq!(mutate("My Special Case", &options(Some("_"), Some(4), None)), text("my_Special_Case"));
    assert_eq!(
        mutate("CollisionShape2D", &options(Some("."), Some(4), Some(vec![4, 8]))),
        text("collision.Shape.2d")
    );
    assert_eq!(
        mutate("DialogueBox-border-shadow", &options(Some("_"), Some(0), Some(vec![0]))),
        text("dialoguebox_border_shadow")
    );
    assert_eq!(
        mutate("section8lesson2HTTPRequests", &options(Some("_"), Some(0), Some(vec![7, 5, 9]))),
        text("section8_lesson2_http_requests")
    );
}

#[test]
fn mutate_every_pattern_by_hand() {
    let expected = [
        (Pattern::Lowercase, "case conversion library"),
        (Pattern::Uppercase, "CASE CONVERSION LIBRARY"),
        (Pattern::Capital, "Case Conversion Library"),
        (Pattern::Sentence, "Case conversion library"),
        (Pattern::Camel, "case Conversion Library"),
        (Pattern::Alternating, "cAsE cOnVeRsIoN lIbRaRy"),
        (Pattern::Toggle, "cASE cONVERSION lIBRARY"),
    ];
    for (pattern, output) in expected {
        assert_eq!(
            mutate("Case CONVERSION library", &options(Some(" "), Some(pattern.code()), None)),
            text(output)
        );
    }
}

#[test]
fn listed_boundaries_replace_the_defaults() {
    assert_eq!(mutate("foo_bar-baz", &options(Some("."), None, Some(vec![1]))), text("foo.bar-baz"));
    assert_eq!(mutate("foo_bar-baz", &options(Some("."), None, Some(vec![0]))), text("foo_bar.baz"));
    assert_eq!(mutate("foo_bar-baz", &options(Some("."), None, Some(vec![]))), text("foo_bar-baz"));
    assert_eq!(mutate("fooBar", &options(Some("."), None, Some(vec![1]))), text("fooBar"));
    assert_eq!(mutate("ABc", &options(Some("."), None, Some(vec![3]))), text("AB.c"));
    assert_eq!(mutate("ABc", &options(Some("."), None, None)), text("A.Bc"));
}

#[test]
fn listed_boundaries_are_a_set() {
    for input in SAMPLES {
        let once = mutate(input, &options(Some("|"), None, Some(vec![0, 4, 9])));
        assert_eq!(mutate(input, &options(Some("|"), None, Some(vec![9, 0, 4]))), once);
        assert_eq!(mutate(input, &options(Some("|"), None, Some(vec![4, 4, 0, 9, 0]))), once);
    }
}

#[test]
fn mutate_agrees_with_convert_case() {
    let patterns = [
        convert_case::Pattern::Lowercase,
        convert_case::Pattern::Uppercase,
        convert_case::Pattern::Capital,
        convert_case::Pattern::Sentence,
        convert_case::Pattern::Camel,
        convert_case::Pattern::Alternating,
        convert_case::Pattern::Toggle,
    ];
    for input in SAMPLES {
        for pattern in patterns {
            for boundary in convert_case::Boundary::all() {
                let conv = convert_case::Converter::new()
                    .set_delim("+")
                    .set_pattern(pattern)
                    .remove_boundaries(&convert_case::Boundary::all())
                    .add_boundary(boundary)
                    .add_boundary(convert_case::Boundary::Space);
                let own = options(
                    Some("+"),
                    Some(pattern as i64),
                    Some(vec![boundary as i64, convert_case::Boundary::Space as i64]),
                );
                assert_eq!(mutate(input, &own), Ok(conv.convert(input)));
            }
        }
    }
}

#[test]
fn mutate_refuses_a_pattern_that_names_none() {
    for code in [-1, 7, 255] {
        assert_eq!(
            mutate("fooBar", &options(Some("."), Some(code), None)),
            Err(InvalidEnumCode { argument: Argument::Pattern, code })
        );
    }
}

#[test]
fn mutate_refuses_the_first_boundary_that_names_none() {
    assert_eq!(
        mutate("fooBar", &options(None, None, Some(vec![0, 10, 11]))),
        Err(InvalidEnumCode { argument: Argument::Boundary { index: 1 }, code: 10 })
    );
    assert_eq!(
        mutate("fooBar", &options(None, Some(2), Some(vec![-3]))),
        Err(InvalidEnumCode { argument: Argument::Boundary { index: 0 }, code: -3 })
    );
    assert_eq!(
        mutate("fooBar", &options(None, None, Some(vec![0, 1, 2, 3, 4, 5, 6, 7, 8, 9, 10]))),
        Err(InvalidEnumCode { argument: Argument::Boundary { index: 10 }, code: 10 })
    );
}

#[test]
fn mutate_reports_the_pattern_before_the_boundaries() {
    assert_eq!(
        mutate("fooBar", &options(None, Some(40), Some(vec![50]))),
        Err(InvalidEnumCode { argument: Argument::Pattern, code: 40 })
    );
}

#[test]
fn list_from_hyphen_and_underscore() {
    assert_eq!(list_from("foo-bar_baz"), vec![Boundary::Hyphen.code(), Boundary::Underscore.code()]);
    assert_eq!(list_from("foo-bar_baz"), vec![0, 1]);
}

#[test]
fn list_from_by_hand() {
    assert_eq!(list_from(""), Vec::<i64>::new());
    assert_eq!(list_from("abc"), Vec::<i64>::new());
    assert_eq!(list_from("aA8a -"), vec![0, 2, 4, 6, 7]);
    assert_eq!(list_from("bD:0B:_:AAa"), vec![1, 4, 5, 9]);
    assert_eq!(list_from(".Aaaa"), vec![3]);
    assert_eq!(list_from("a8.Aa.aA"), vec![4, 3, 8]);
    assert_eq!(list_from("b1B1b"), vec![5, 6, 7, 8]);
    assert_eq!(list_from("AAa -_"), vec![0, 1, 2, 9]);
}

#[test]
fn list_from_agrees_with_convert_case() {
    for input in SAMPLES {
        let outside: Vec<i64> =
            convert_case::Boundary::list_from(input).into_iter().map(|b| b as i64).collect();
        assert_eq!(list_from(input), outside);
    }
}

#[test]
fn list_from_repeats_nothing_and_keeps_the_listing_order() {
    for input in SAMPLES {
        let ranks: Vec<usize> = list_from(input)
            .into_iter()
            .map(|code| Boundary::from_code(code).unwrap().rank())
            .collect();
        for pair in ranks.windows(2) {
            assert!(pair[0] < pair[1]);
        }
    }
}

#[test]
fn boundary_codes_one_for_one() {
    assert_eq!(boundary_codes(&vec![]), Vec::<i64>::new());
    assert_eq!(
        boundary_codes(&vec![Boundary::LowerUpper, Boundary::Hyphen, Boundary::LowerUpper]),
        vec![4, 0, 4]
    );
    assert_eq!(boundary_codes(&Boundary::all()), vec![0, 1, 2, 4, 3, 5, 6, 7, 8, 9]);
}

#[test]
fn same_text_compares_characters() {
    assert!(same_text("", ""));
    assert!(same_text("foo_bar", "foo_bar"));
    assert!(!same_text("foo_bar", "foo_baR"));
    assert!(!same_text("foo", "foo "));
}
