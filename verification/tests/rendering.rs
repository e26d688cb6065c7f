use goof::{FormatError, Mismatch, Outside, Unknown};

#[test]
fn mismatch_sentence() {
    let error = Mismatch {
        expected: 32,
        actual: 33,
    };
    assert_eq!(error.display(), "Expected 32, but got 33");
    assert_eq!(
        goof::assert_eq(&"left", &"right").unwrap_err().display(),
        "Expected left, but got right"
    );
}

#[test]
fn mismatch_sentence_from_renderings() {
    assert_eq!(goof::mismatch_message("32", "33"), "Expected 32, but got 33");
    assert_eq!(goof::mismatch_message("", ""), "Expected , but got ");
}

#[test]
fn outside_sentence_above() {
    let error = Outside {
        range: 1..5,
        value: 6,
    };
    assert_eq!(error.display(), "Value 6 exceeds maximum 5");
    let degenerate = goof::assert_in(&5, &(5..5)).unwrap_err();
    assert_eq!(degenerate.display(), "Value 5 exceeds maximum 5");
}

#[test]
fn outside_sentence_below() {
    let error = Outside {
        range: 1..5,
        value: 0,
    };
    assert_eq!(error.display(), "Value 0 below minimum 1");
    let negative = goof::assert_in(&-9, &(-3..3)).unwrap_err();
    assert_eq!(negative.display(), "Value -9 below minimum -3");
}

#[test]
fn outside_sentence_at_the_lower_bound() {
    let error = goof::assert_in(&1, &(1..5)).unwrap_err();
    assert_eq!(
        error,
        Outside {
            range: 1..5,
            value: 1
        }
    );
    assert_eq!(error.display(), "Value 1 below minimum 1");
}

#[test]
fn every_rejected_value_has_a_sentence() {
    for start in -3_i32..4 {
        for end in -3_i32..4 {
            for value in -5_i32..6 {
                if let Err(error) = goof::assert_in(&value, &(start..end)) {
                    let expected = if value >= end {
                        format!("Value {} exceeds maximum {}", value, end)
                    } else {
                        format!("Value {} below minimum {}", value, start)
                    };
                    assert_eq!(error.display(), expected);
                }
            }
        }
    }
}

#[test]
fn outside_sentences_from_renderings() {
    assert_eq!(goof::above_message("6", "5"), "Value 6 exceeds maximum 5");
    assert_eq!(goof::below_message("0", "1"), "Value 0 below minimum 1");
}

#[test]
fn unknown_sentence_with_the_known_values() {
    let knowns = [1, 2, 4, 6, 7, 20];
    let error = Unknown {
        knowns: Some(&knowns[..]),
        value: 3,
    };
    assert_eq!(
        error.display(),
        Ok(String::from(
            "The value 3 is not known Because it's not one of [1, 2, 4, 6, 7, 20]"
        ))
    );
}

#[test]
fn unknown_sentence_without_the_known_values() {
    let error = Unknown {
        knowns: None,
        value: 3,
    };
    assert_eq!(
        error.display(),
        Ok(String::from("The value 3 is not known."))
    );
}

#[test]
fn unknown_sentence_of_one_known_value() {
    let knowns = ["north"];
    let error = goof::assert_known_enum(&knowns, "south").unwrap_err();
    assert_eq!(
        error.display(),
        Ok(String::from(
            "The value south is not known Because it's not one of [north]"
        ))
    );
}

#[test]
fn unknown_sentence_of_no_known_value() {
    let knowns: [u8; 0] = [];
    let error = goof::assert_known_enum(&knowns, 3).unwrap_err();
    assert_eq!(error.display(), Err(FormatError::Empty));
    let bare = goof::assert_known(&knowns, 3).unwrap_err();
    assert_eq!(
        bare.display(),
        Ok(String::from("The value 3 is not known."))
    );
}

#[test]
fn unknown_sentence_from_renderings() {
    assert_eq!(
        goof::unknown_message("3", Some("1, 2")),
        "The value 3 is not known Because it's not one of [1, 2]"
    );
    assert_eq!(
        goof::unknown_message("3", Some("")),
        "The value 3 is not known Because it's not one of []"
    );
    assert_eq!(goof::unknown_message("3", None), "The value 3 is not known.");
}

#[test]
fn join_of_one_is_its_rendering() {
    assert_eq!(goof::join(&[7], ","), Ok(String::from("7")));
    assert_eq!(goof::join(&[7], ""), Ok(String::from("7")));
    assert_eq!(goof::join(&[7], " and "), Ok(String::from("7")));
    assert_eq!(goof::join(&["x"], ", "), Ok(String::from("x")));
}

#[test]
fn join_of_three() {
    assert_eq!(goof::join(&["x", "y", "z"], ","), Ok(String::from("x,y,z")));
    assert_eq!(goof::join(&[1, 2, 3], ", "), Ok(String::from("1, 2, 3")));
    assert_eq!(goof::join(&['a', 'b', 'c'], ""), Ok(String::from("abc")));
    assert_eq!(
        goof::join(&[-1.5_f64, 0.25, 2.0], " < "),
        Ok(String::from("-1.5 < 0.25 < 2"))
    );
}

#[test]
fn join_puts_no_separator_at_either_end() {
    assert_eq!(goof::join(&[1, 2], "--"), Ok(String::from("1--2")));
    assert_eq!(goof::join(&["", ""], "-"), Ok(String::from("-")));
    assert_eq!(goof::join(&["", "", ""], "ab"), Ok(String::from("abab")));
}

#[test]
fn join_of_nothing_is_an_error() {
    let nothing: [u8; 0] = [];
    assert_eq!(goof::join(&nothing, ","), Err(FormatError::Empty));
    assert_eq!(goof::join_texts(&[], ","), Err(FormatError::Empty));
}

#[test]
fn join_of_rendered_texts() {
    let texts = [String::from("x"), String::from("y"), String::from("z")];
    assert_eq!(goof::join_texts(&texts, ","), Ok(String::from("x,y,z")));
    assert_eq!(goof::join_texts(&texts[..1], ","), Ok(String::from("x")));
    assert_eq!(goof::join_texts(&texts[..2], ", "), Ok(String::from("x, y")));
}

#[test]
fn join_agrees_with_joining_the_renderings() {
    let items = [10_u32, 200, 3];
    let texts = [String::from("10"), String::from("200"), String::from("3")];
    assert_eq!(goof::join(&items, "; "), goof::join_texts(&texts, "; "));
}

#[test]
fn message_is_shown_without_the_space_around_it() {
    assert_eq!(goof::goof("Hello world").display(), "Hello world");
    assert_eq!(goof::goof("  Hello world \n").display(), "Hello world");
    assert_eq!(goof::goof("\t\u{a0}two  words\u{3000}").display(), "two  words");
    assert_eq!(goof::goof("x").display(), "x");
    assert_eq!(goof::goof(" x").display(), "x");
    assert_eq!(goof::goof("x ").display(), "x");
}

#[test]
fn message_of_white_space_alone_is_shown_empty() {
    assert_eq!(goof::goof("").display(), "");
    assert_eq!(goof::goof(" ").display(), "");
    assert_eq!(goof::goof(" \r\n\t ").display(), "");
}

#[test]
fn message_keeps_what_is_no_white_space() {
    assert_eq!(goof::goof("_ \u{200b}").display(), "_ \u{200b}");
    assert_eq!(goof::goof(" né ").display(), "né");
    for text in ["", " a ", "a b", "\n\nline\n", "  ", "\u{2003}wide\u{2003}"] {
        assert_eq!(goof::goof(text).display(), text.trim());
    }
}

#[test]
fn message_shows_its_field() {
    assert_eq!(
        format!("{:?}", goof::goof(" Hello ")),
        "Goof { message: \" Hello \" }"
    );
}
