use wordle::model::{KeyboardHints, LetterState, LetterStatus};
use wordle::utils::{check, get_all_letter_indices, is_correct_guess, update_keyboard_hints};

#[test]
fn test_letter_indices() {
    let output = get_all_letter_indices('e', "ennui".into());
    assert_eq!(output, vec![0]);

    let output = get_all_letter_indices('e', "where".into());
    assert_eq!(output, vec![2, 4]);

    let output = get_all_letter_indices('e', "drove".into());
    assert_eq!(output, vec![4]);

    let output = get_all_letter_indices('e', "evoke".into());
    assert_eq!(output, vec![0, 4]);
}

#[test]
fn test_status_random() {
    let output = check("ennui".into(), "where".into());

    let expected: Vec<LetterStatus> = vec![
        LetterStatus {
            letter: 'w',
            status: LetterState::NotPresent,
        },
        LetterStatus {
            letter: 'h',
            status: LetterState::NotPresent,
        },
        LetterStatus {
            letter: 'e',
            status: LetterState::NotPresent,
        },
        LetterStatus {
            letter: 'r',
            status: LetterState::NotPresent,
        },
        LetterStatus {
            letter: 'e',
            status: LetterState::Incorrect,
        },
    ];

    assert_eq!(output, expected);

    let output = check("drove".into(), "evoke".into());

    let expected: Vec<LetterStatus> = vec![
        LetterStatus {
            letter: 'e',
            status: LetterState::NotPresent,
        },
        LetterStatus {
            letter: 'v',
            status: LetterState::Incorrect,
        },
        LetterStatus {
            letter: 'o',
            status: LetterState::Correct,
        },
        LetterStatus {
            letter: 'k',
            status: LetterState::NotPresent,
        },
        LetterStatus {
            letter: 'e',
            status: LetterState::Correct,
        },
    ];

    assert_eq!(output, expected);
}

#[test]
fn test_letter_status() {
    let all_correct_input: Vec<LetterStatus> = vec![
        LetterStatus {
            letter: 'p',
            status: LetterState::Correct,
        },
        LetterStatus {
            letter: 'i',
            status: LetterState::Correct,
        },
        LetterStatus {
            letter: 'o',
            status: LetterState::Correct,
        },
        LetterStatus {
            letter: 'u',
            status: LetterState::Correct,
        },
        LetterStatus {
            letter: 's',
            status: LetterState::Correct,
        },
    ];

    assert!(is_correct_guess(all_correct_input));

    let not_correct_input: Vec<LetterStatus> = vec![
        LetterStatus {
            letter: 'x',
            status: LetterState::Unknown,
        },
        LetterStatus {
            letter: 'i',
            status: LetterState::Correct,
        },
        LetterStatus {
            letter: 'o',
            status: LetterState::Correct,
        },
        LetterStatus {
            letter: 'u',
            status: LetterState::Correct,
        },
        LetterStatus {
            letter: 's',
            status: LetterState::Correct,
        },
    ];

    assert_eq!(is_correct_guess(not_correct_input), false);
}

#[test]
fn test_keyboard_hints() {
    // WORDLE - PIOUS
    let wordle = String::from("pious");
    let mut hints = KeyboardHints::new();
    let statuses: Vec<LetterStatus> = check(wordle.clone(), "piano".into());

    update_keyboard_hints(&mut hints, &statuses);

    // all updated values should be correct
    assert_eq!(hints.get('p').unwrap(), LetterState::Correct);
    assert_eq!(hints.get('i').unwrap(), LetterState::Correct);
    assert_eq!(hints.get('a').unwrap(), LetterState::NotPresent);
    assert_eq!(hints.get('n').unwrap(), LetterState::NotPresent);
    assert_eq!(hints.get('o').unwrap(), LetterState::Incorrect);

    // letters never guessed should not be present
    assert_eq!(hints.get('x'), None);

    // check new guess word where already correct letter is now in incorrect
    // position; hint should show 'correct' because it was correct once
    let statuses: Vec<LetterStatus> = check(wordle.clone(), "smile".into());

    update_keyboard_hints(&mut hints, &statuses);

    // i => already correct, it should still be correct
    assert_eq!(hints.get('i').unwrap(), LetterState::Correct);

    // NEW WORDLE
    // RESET everything
    let wordle = "below";
    hints.clear();

    // WORDLE - below; Word - Hello
    let statuses: Vec<LetterStatus> = check(wordle.into(), "hello".into());

    update_keyboard_hints(&mut hints, &statuses);

    assert_eq!(hints.get('l').unwrap(), LetterState::Correct);
}

#[test]
fn self_guess_is_all_correct() {
    let output = check("crane".into(), "crane".into());
    assert_eq!(output.len(), 5);
    for v in &output {
        assert_eq!(v.status, LetterState::Correct);
    }
    assert!(is_correct_guess(output));
}

#[test]
fn disjoint_guess_is_all_absent() {
    // "ennui" and "brash" share no letter
    let output = check("ennui".into(), "brash".into());
    assert_eq!(output.len(), 5);
    for v in &output {
        assert_eq!(v.status, LetterState::NotPresent);
    }
}

#[test]
fn correct_match_consumes_the_supply_first() {
    // the single 'a' of the secret is consumed by the Correct match at
    // position 0, so the duplicate at position 1 cannot score a
    // wrong-position verdict
    let output = check("axxxx".into(), "aaxxx".into());
    let expected: Vec<LetterStatus> = vec![
        LetterStatus {
            letter: 'a',
            status: LetterState::Correct,
        },
        LetterStatus {
            letter: 'a',
            status: LetterState::NotPresent,
        },
        LetterStatus {
            letter: 'x',
            status: LetterState::Correct,
        },
        LetterStatus {
            letter: 'x',
            status: LetterState::Correct,
        },
        LetterStatus {
            letter: 'x',
            status: LetterState::Correct,
        },
    ];
    assert_eq!(output, expected);
}

#[test]
fn evaluation_is_case_insensitive() {
    let mixed = check("DROVE".into(), "EvOkE".into());
    let lower = check("drove".into(), "evoke".into());
    assert_eq!(mixed, lower);
}

#[test]
fn hints_keep_correct_over_later_verdicts() {
    let mut hints = KeyboardHints::new();
    let first = vec![LetterStatus {
        letter: 'e',
        status: LetterState::Correct,
    }];
    let later = vec![
        LetterStatus {
            letter: 'e',
            status: LetterState::NotPresent,
        },
        LetterStatus {
            letter: 'e',
            status: LetterState::Incorrect,
        },
    ];
    update_keyboard_hints(&mut hints, &first);
    update_keyboard_hints(&mut hints, &later);
    assert_eq!(hints.get('e').unwrap(), LetterState::Correct);
}

#[test]
fn hints_upgrade_but_never_downgrade() {
    let mut hints = KeyboardHints::new();
    let absent = vec![LetterStatus {
        letter: 'k',
        status: LetterState::NotPresent,
    }];
    let wrong_spot = vec![LetterStatus {
        letter: 'k',
        status: LetterState::Incorrect,
    }];
    update_keyboard_hints(&mut hints, &absent);
    assert_eq!(hints.get('k').unwrap(), LetterState::NotPresent);
    update_keyboard_hints(&mut hints, &wrong_spot);
    assert_eq!(hints.get('k').unwrap(), LetterState::Incorrect);
    // a later "absent" must not undo the better knowledge
    update_keyboard_hints(&mut hints, &absent);
    assert_eq!(hints.get('k').unwrap(), LetterState::Incorrect);
}

#[test]
fn merging_twice_equals_merging_once() {
    let statuses = check("drove".into(), "evoke".into());

    let mut once = KeyboardHints::new();
    update_keyboard_hints(&mut once, &statuses);

    let mut twice = KeyboardHints::new();
    update_keyboard_hints(&mut twice, &statuses);
    update_keyboard_hints(&mut twice, &statuses);

    for letter in 'a'..='z' {
        assert_eq!(once.get(letter), twice.get(letter));
    }
}

#[test]
fn word_lists_hold_five_letter_words() {
    let wordles = wordle::data::valid_wordles();
    assert!(!wordles.is_empty());
    assert_eq!(wordles[0], "ennui");
    for w in &wordles {
        assert_eq!(w.len(), 5);
        assert!(w.chars().all(|c| c.is_ascii_lowercase()));
    }
    let guesses = wordle::data::valid_guesses();
    assert!(!guesses.is_empty());
    assert_eq!(guesses[0], "where");
    for w in &guesses {
        assert_eq!(w.len(), 5);
        assert!(w.chars().all(|c| c.is_ascii_lowercase()));
    }
}
