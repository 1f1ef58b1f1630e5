use wordle::model::{
    GameResult, KeyboardHints, LetterState, LetterStatus, Message, Model, RunningState,
};
use wordle::update::update;

fn fresh_model(secret: &str) -> Model {
    Model {
        wordle: secret.into(),
        valid_wordles: wordle::data::valid_wordles(),
        valid_guesses: wordle::data::valid_guesses(),
        active_guess: String::new(),
        guesses: Vec::new(),
        running_state: RunningState::Waiting,
        keyboard_hints: KeyboardHints::new(),
    }
}

fn type_word(model: &mut Model, word: &str) {
    for c in word.chars() {
        let emitted = update(model, Message::Listen(c));
        assert!(emitted.is_none());
    }
}

/// Types `word`, submits it, and pumps every scheduled follow-up message
/// until the machine settles; returns the animation indices seen, in order.
fn submit_and_reveal(model: &mut Model, word: &str) -> Vec<usize> {
    type_word(model, word);
    let mut indices: Vec<usize> = Vec::new();
    let mut pending = update(model, Message::CalculateStart);
    while let Some((_delay, msg)) = pending {
        if let Message::AnimateGuess(i, _) = &msg {
            indices.push(*i);
        }
        pending = update(model, msg);
    }
    indices
}

#[test]
fn typing_appends_lowercase_and_stops_at_five() {
    let mut model = fresh_model("drove");
    assert!(update(&mut model, Message::Listen('A')).is_none());
    assert_eq!(model.active_guess, "a");
    type_word(&mut model, "bcde");
    assert_eq!(model.active_guess, "abcde");
    // a sixth letter is ignored
    assert!(update(&mut model, Message::Listen('f')).is_none());
    assert_eq!(model.active_guess, "abcde");
}

#[test]
fn erase_drops_last_letter_and_tolerates_empty() {
    let mut model = fresh_model("drove");
    // erasing an empty guess is a no-op
    assert!(update(&mut model, Message::Erase).is_none());
    assert_eq!(model.active_guess, "");
    type_word(&mut model, "ab");
    assert!(update(&mut model, Message::Erase).is_none());
    assert_eq!(model.active_guess, "a");
}

#[test]
fn short_submit_is_a_no_op() {
    let mut model = fresh_model("drove");
    type_word(&mut model, "abc");
    let emitted = update(&mut model, Message::CalculateStart);
    assert!(emitted.is_none());
    assert_eq!(model.running_state, RunningState::Waiting);
    assert_eq!(model.active_guess, "abc");
    assert!(model.guesses.is_empty());
}

#[test]
fn reveal_emits_five_steps_in_order() {
    let mut model = fresh_model("drove");
    let indices = submit_and_reveal(&mut model, "evoke");
    assert_eq!(indices, vec![0, 1, 2, 3, 4]);
    assert_eq!(model.running_state, RunningState::Waiting);
    assert_eq!(model.guesses.len(), 1);

    let expected: Vec<LetterStatus> = vec![
        LetterStatus {
            letter: 'e',
            status: LetterState::NotPresent,
        },
        LetterStatus {
            letter: 'v',
            status: LetterState::Incorrect,
        },
        LetterStatus {
            letter: 'o',
            status: LetterState::Correct,
        },
        LetterStatus {
            letter: 'k',
            status: LetterState::NotPresent,
        },
        LetterStatus {
            letter: 'e',
            status: LetterState::Correct,
        },
    ];
    assert_eq!(model.guesses[0], expected);

    // the keyboard hints took the verdicts in
    assert_eq!(model.keyboard_hints.get('o').unwrap(), LetterState::Correct);
    assert_eq!(model.keyboard_hints.get('e').unwrap(), LetterState::Correct);
    assert_eq!(
        model.keyboard_hints.get('v').unwrap(),
        LetterState::Incorrect
    );
    assert_eq!(
        model.keyboard_hints.get('k').unwrap(),
        LetterState::NotPresent
    );
}

#[test]
fn winning_guess_ends_the_round() {
    let mut model = fresh_model("drove");
    submit_and_reveal(&mut model, "drove");
    assert_eq!(
        model.running_state,
        RunningState::Over(GameResult::CorrectGuess)
    );
    // the round is over: further typing is ignored
    assert!(update(&mut model, Message::Listen('a')).is_none());
    assert_eq!(model.active_guess, "");
}

#[test]
fn six_wrong_guesses_lose_the_round() {
    let mut model = fresh_model("drove");
    for n in 1..=6usize {
        submit_and_reveal(&mut model, "slate");
        assert_eq!(model.guesses.len(), n);
        if n < 6 {
            assert_eq!(model.running_state, RunningState::Waiting);
        }
    }
    assert_eq!(
        model.running_state,
        RunningState::Over(GameResult::WrongGuess)
    );
    // a seventh guess is impossible: typing and submitting do nothing
    type_word(&mut model, "crane");
    assert_eq!(model.active_guess, "");
    assert!(update(&mut model, Message::CalculateStart).is_none());
    assert_eq!(model.guesses.len(), 6);
}

#[test]
fn quit_preempts_a_running_animation() {
    let mut model = fresh_model("drove");
    type_word(&mut model, "evoke");
    let pending = update(&mut model, Message::CalculateStart);
    let (_delay, first_step) = pending.expect("a reveal step should be scheduled");

    // quit arrives before the delayed reveal step is delivered
    assert!(update(&mut model, Message::Quit).is_none());
    assert_eq!(model.running_state, RunningState::Done);

    // the stale reveal step is absorbed: nothing changes, nothing follows
    assert!(update(&mut model, first_step).is_none());
    assert_eq!(model.running_state, RunningState::Done);
    assert_eq!(model.guesses.len(), 1);
    assert!(model.guesses[0].is_empty());
}

#[test]
fn reset_starts_a_fresh_round_and_absorbs_stale_reveals() {
    let mut model = fresh_model("drove");
    type_word(&mut model, "evoke");
    let pending = update(&mut model, Message::CalculateStart);
    let (_delay, first_step) = pending.expect("a reveal step should be scheduled");

    assert!(update(&mut model, Message::Reset).is_none());
    assert_eq!(model.running_state, RunningState::Waiting);
    assert_eq!(model.active_guess, "");
    assert!(model.guesses.is_empty());
    assert_eq!(model.keyboard_hints.get('e'), None);
    assert_eq!(model.wordle.len(), 5);
    assert!(model.valid_wordles.contains(&model.wordle));

    // the reveal step of the abandoned round is absorbed
    assert!(update(&mut model, first_step).is_none());
    assert!(model.guesses.is_empty());
    assert_eq!(model.running_state, RunningState::Waiting);
}

#[test]
fn new_model_draws_a_secret_from_the_answer_list() {
    let model = Model::new();
    assert_eq!(model.wordle.len(), 5);
    assert!(model.valid_wordles.contains(&model.wordle));
    assert_eq!(model.running_state, RunningState::Waiting);
    assert_eq!(model.active_guess, "");
    assert!(model.guesses.is_empty());
}
