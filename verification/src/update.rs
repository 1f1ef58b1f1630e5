use vstd::prelude::*;

use crate::model::{GameResult, LetterState, LetterStatus, Message, Model, RunningState};
use crate::utils::{all_correct, is_evaluation, lower_char, lower_seq, merge_verdicts, to_lower_char};

verus! {

/// Delay before the first letter of a submitted guess is revealed.
pub const REVEAL_FIRST_DELAY_MS: u64 = 314;

/// Delay between two successive letter reveals.
pub const REVEAL_STEP_DELAY_MS: u64 = 515;

/// Delay before the round outcome is settled once all letters are shown.
pub const REVEAL_END_DELAY_MS: u64 = 0;

/// The secret, the word lists and the grid they describe are not touched by
/// this step.
pub open spec fn core_unchanged(pre: Model, post: Model) -> bool {
    &&& post.wordle == pre.wordle
    &&& post.valid_wordles == pre.valid_wordles
    &&& post.valid_guesses == pre.valid_guesses
}

/// Typing a letter: accepted only while waiting for input and while the
/// typed guess is shorter than five letters; the letter lands at the end of
/// the typed guess, lowercased ASCII-wise — the input mapper only ever
/// passes ASCII letters, and any other character is kept as it is.
pub open spec fn listen_transition(pre: Model, c: char, post: Model) -> bool {
    if pre.running_state == RunningState::Waiting && pre.active_guess@.len() < 5 {
        &&& core_unchanged(pre, post)
        &&& post.active_guess@ == pre.active_guess@.push(lower_char(c))
        &&& post.guesses == pre.guesses
        &&& post.running_state == pre.running_state
        &&& post.keyboard_hints == pre.keyboard_hints
    } else {
        post == pre
    }
}

/// Erasing: accepted only while waiting for input; drops the last typed
/// letter, if any.
pub open spec fn erase_transition(pre: Model, post: Model) -> bool {
    if pre.running_state == RunningState::Waiting && pre.active_guess@.len() > 0 {
        &&& core_unchanged(pre, post)
        &&& post.active_guess@ == pre.active_guess@.drop_last()
        &&& post.guesses == pre.guesses
        &&& post.running_state == pre.running_state
        &&& post.keyboard_hints == pre.keyboard_hints
    } else {
        post == pre
    }
}

/// Submitting the typed guess: accepted only while waiting and with five
/// letters typed.  The guess is evaluated at once, the typed guess is
/// cleared, an empty row is appended to the history, and the first reveal
/// step is scheduled.
pub open spec fn calculate_start_transition(
    pre: Model,
    post: Model,
    emit: Option<(u64, Message)>,
) -> bool {
    if pre.running_state == RunningState::Waiting && pre.active_guess@.len() == 5 {
        &&& core_unchanged(pre, post)
        &&& post.running_state == RunningState::Calculating
        &&& post.active_guess@ == Seq::<char>::empty()
        &&& post.guesses@.len() == pre.guesses@.len() + 1
        &&& (forall|i: int|
            0 <= i < pre.guesses@.len() ==> post.guesses@[i] == (#[trigger] pre.guesses@[i]))
        &&& post.guesses@.last()@ == Seq::<LetterStatus>::empty()
        &&& post.keyboard_hints == pre.keyboard_hints
        &&& emit matches Some(e) && e.0 == REVEAL_FIRST_DELAY_MS && (e.1 matches
        Message::AnimateGuess(i, vs) && i == 0 && is_evaluation(
            lower_seq(pre.wordle@),
            lower_seq(pre.active_guess@),
            vs@,
        ))
    } else {
        &&& post == pre
        &&& emit is None
    }
}

/// A reveal step is due: the machine is mid-reveal, the payload carries the
/// five verdicts, and the row under reveal has exactly `i` of them already.
/// A stale or malformed step fails this guard and is absorbed.
pub open spec fn animate_guard(pre: Model, i: int, vs: Seq<LetterStatus>) -> bool {
    &&& pre.running_state == RunningState::Calculating
    &&& pre.guesses@.len() >= 1
    &&& vs.len() == 5
    &&& 0 <= i < 5
    &&& pre.guesses@.last()@.len() == i
}

/// One reveal step: verdict `i` of the payload is pushed onto the row under
/// reveal, and either the next step or the settling of the outcome is
/// scheduled.
pub open spec fn animate_transition(
    pre: Model,
    i: int,
    vs: Seq<LetterStatus>,
    post: Model,
    emit: Option<(u64, Message)>,
) -> bool {
    if animate_guard(pre, i, vs) {
        &&& core_unchanged(pre, post)
        &&& post.running_state == pre.running_state
        &&& post.active_guess == pre.active_guess
        &&& post.keyboard_hints == pre.keyboard_hints
        &&& post.guesses@.len() == pre.guesses@.len()
        &&& (forall|k: int|
            0 <= k < pre.guesses@.len() - 1 ==> post.guesses@[k] == (#[trigger] pre.guesses@[k]))
        &&& post.guesses@.last()@ == pre.guesses@.last()@.push(vs[i])
        &&& if i + 1 < 5 {
            emit matches Some(e) && e.0 == REVEAL_STEP_DELAY_MS && (e.1 matches
            Message::AnimateGuess(j, ws) && j == i + 1 && ws@ == vs)
        } else {
            emit matches Some(e) && e.0 == REVEAL_END_DELAY_MS && (e.1 matches
            Message::CalculateEnd(ws) && ws@ == vs)
        }
    } else {
        &&& post == pre
        &&& emit is None
    }
}

/// Settling a fully revealed guess: accepted only mid-reveal.  The verdicts
/// strengthen the keyboard hints; an all-`Correct` guess wins the round, a
/// sixth failed guess loses it, anything else hands the turn back.
pub open spec fn calculate_end_transition(pre: Model, vs: Seq<LetterStatus>, post: Model) -> bool {
    if pre.running_state == RunningState::Calculating {
        &&& core_unchanged(pre, post)
        &&& post.active_guess == pre.active_guess
        &&& post.guesses == pre.guesses
        &&& post.keyboard_hints@ == merge_verdicts(pre.keyboard_hints@, vs)
        &&& post.running_state == (if all_correct(vs) {
            RunningState::Over(GameResult::CorrectGuess)
        } else if pre.guesses@.len() == 6 {
            RunningState::Over(GameResult::WrongGuess)
        } else {
            RunningState::Waiting
        })
    } else {
        post == pre
    }
}

/// Starting a new round: accepted in every phase but `Done`.  A fresh
/// secret is drawn from the answer list; everything the player entered is
/// cleared.
pub open spec fn reset_transition(pre: Model, post: Model) -> bool {
    if pre.running_state != RunningState::Done {
        &&& post.valid_wordles == pre.valid_wordles
        &&& post.valid_guesses == pre.valid_guesses
        &&& post.wordle@.len() == 5
        &&& (exists|k: int|
            0 <= k < pre.valid_wordles@.len() && post.wordle@ == (
            #[trigger] pre.valid_wordles@[k])@)
        &&& post.active_guess@ == Seq::<char>::empty()
        &&& post.guesses@ == Seq::<Vec<LetterStatus>>::empty()
        &&& post.keyboard_hints@ == Map::<char, LetterState>::empty()
        &&& post.running_state == RunningState::Waiting
    } else {
        post == pre
    }
}

/// Quitting: from any phase the machine moves to `Done` and touches nothing
/// else.
pub open spec fn quit_transition(pre: Model, post: Model) -> bool {
    &&& core_unchanged(pre, post)
    &&& post.active_guess == pre.active_guess
    &&& post.guesses == pre.guesses
    &&& post.keyboard_hints == pre.keyboard_hints
    &&& post.running_state == RunningState::Done
}

/// The complete transition relation of the update engine: what one consumed
/// message does to the model and what follow-up message, with its delay in
/// milliseconds, it asks the scheduler to deliver.
pub open spec fn transition(
    pre: Model,
    msg: Message,
    post: Model,
    emit: Option<(u64, Message)>,
) -> bool {
    match msg {
        Message::Listen(c) => listen_transition(pre, c, post) && emit is None,
        Message::Erase => erase_transition(pre, post) && emit is None,
        Message::CalculateStart => calculate_start_transition(pre, post, emit),
        Message::AnimateGuess(i, vs) => animate_transition(pre, i as int, vs@, post, emit),
        Message::CalculateEnd(vs) => calculate_end_transition(pre, vs@, post) && emit is None,
        Message::Reset => reset_transition(pre, post) && emit is None,
        Message::Quit => quit_transition(pre, post) && emit is None,
    }
}

/// Law: a fully revealed guess whose verdicts are all `Correct` settles the
/// round as won.
pub proof fn lemma_all_correct_guess_wins(pre: Model, vs: Seq<LetterStatus>, post: Model)
    requires
        pre.running_state == RunningState::Calculating,
        all_correct(vs),
        calculate_end_transition(pre, vs, post),
    ensures
        post.running_state == RunningState::Over(GameResult::CorrectGuess),
{
}

/// Law: submitting while fewer than five letters are typed changes nothing
/// and schedules nothing.
pub proof fn lemma_short_submit_is_noop(pre: Model, post: Model, emit: Option<(u64, Message)>)
    requires
        pre.active_guess@.len() < 5,
        calculate_start_transition(pre, post, emit),
    ensures
        post == pre,
        emit is None,
{
}

/// Law: once a sixth guess is fully revealed without winning, the round is
/// lost; the machine never hands the turn back for a seventh guess.
pub proof fn lemma_sixth_guess_loses(pre: Model, vs: Seq<LetterStatus>, post: Model)
    requires
        pre.running_state == RunningState::Calculating,
        pre.guesses@.len() == 6,
        !all_correct(vs),
        calculate_end_transition(pre, vs, post),
    ensures
        post.running_state == RunningState::Over(GameResult::WrongGuess),
{
}

/// Law: settling a guess never downgrades a keyboard hint; a letter the
/// board knows to be `Correct` is still `Correct` afterwards, whatever the
/// new verdicts say about it.
pub proof fn lemma_settling_keeps_correct_hints(
    pre: Model,
    vs: Seq<LetterStatus>,
    post: Model,
    letter: char,
)
    requires
        calculate_end_transition(pre, vs, post),
        pre.keyboard_hints@.contains_key(letter),
        pre.keyboard_hints@[letter] == LetterState::Correct,
    ensures
        post.keyboard_hints@.contains_key(letter),
        post.keyboard_hints@[letter] == LetterState::Correct,
{
    if pre.running_state == RunningState::Calculating {
        crate::utils::lemma_merge_never_downgrades_correct(pre.keyboard_hints@, vs, letter);
    }
}

/// Law: once a round is over, neither the guess history nor the typed
/// guess can change again; only starting a new round touches them, and
/// nothing is ever scheduled.
pub proof fn lemma_over_locks_the_round(
    pre: Model,
    msg: Message,
    post: Model,
    emit: Option<(u64, Message)>,
)
    requires
        pre.running_state matches RunningState::Over(_),
        !(msg is Reset),
        transition(pre, msg, post, emit),
    ensures
        post.guesses == pre.guesses,
        post.active_guess == pre.active_guess,
        emit is None,
{
}

/// Law: quitting moves the machine to `Done` from any phase, mid-reveal
/// included, and schedules nothing.
pub proof fn lemma_quit_always_terminates(
    pre: Model,
    post: Model,
    emit: Option<(u64, Message)>,
)
    requires
        transition(pre, Message::Quit, post, emit),
    ensures
        post.running_state == RunningState::Done,
        emit is None,
{
}

/// Law: once `Done`, every message — a still pending reveal step included —
/// is absorbed: the model stays exactly as it is and nothing is scheduled.
pub proof fn lemma_done_absorbs_all(
    pre: Model,
    msg: Message,
    post: Model,
    emit: Option<(u64, Message)>,
)
    requires
        pre.running_state == RunningState::Done,
        transition(pre, msg, post, emit),
    ensures
        post == pre,
        emit is None,
{
}

/// Law: one submitted guess is revealed by exactly five animation steps,
/// carrying the indices 0 through 4 in strictly increasing order, and the
/// machine stays mid-reveal throughout: no step before the settling one can
/// reach `Waiting` or `Over`.  After the fifth step the revealed row holds
/// the complete evaluation of the submitted guess, and what is scheduled is
/// the settling step itself.
pub proof fn lemma_reveal_runs_five_steps(
    m0: Model,
    m1: Model,
    m2: Model,
    m3: Model,
    m4: Model,
    m5: Model,
    m6: Model,
    e0: Option<(u64, Message)>,
    e1: Option<(u64, Message)>,
    e2: Option<(u64, Message)>,
    e3: Option<(u64, Message)>,
    e4: Option<(u64, Message)>,
    e5: Option<(u64, Message)>,
)
    requires
        m0.running_state == RunningState::Waiting,
        m0.active_guess@.len() == 5,
        calculate_start_transition(m0, m1, e0),
        e0 matches Some(p) && transition(m1, p.1, m2, e1),
        e1 matches Some(p) && transition(m2, p.1, m3, e2),
        e2 matches Some(p) && transition(m3, p.1, m4, e3),
        e3 matches Some(p) && transition(m4, p.1, m5, e4),
        e4 matches Some(p) && transition(m5, p.1, m6, e5),
    ensures
        e0 matches Some(p) && (p.1 matches Message::AnimateGuess(i, vs) && i == 0
            && is_evaluation(lower_seq(m0.wordle@), lower_seq(m0.active_guess@), vs@)),
        e1 matches Some(p) && (p.1 matches Message::AnimateGuess(i, vs) && i == 1
            && is_evaluation(lower_seq(m0.wordle@), lower_seq(m0.active_guess@), vs@)),
        e2 matches Some(p) && (p.1 matches Message::AnimateGuess(i, vs) && i == 2
            && is_evaluation(lower_seq(m0.wordle@), lower_seq(m0.active_guess@), vs@)),
        e3 matches Some(p) && (p.1 matches Message::AnimateGuess(i, vs) && i == 3
            && is_evaluation(lower_seq(m0.wordle@), lower_seq(m0.active_guess@), vs@)),
        e4 matches Some(p) && (p.1 matches Message::AnimateGuess(i, vs) && i == 4
            && is_evaluation(lower_seq(m0.wordle@), lower_seq(m0.active_guess@), vs@)),
        m1.running_state == RunningState::Calculating,
        m2.running_state == RunningState::Calculating,
        m3.running_state == RunningState::Calculating,
        m4.running_state == RunningState::Calculating,
        m5.running_state == RunningState::Calculating,
        m6.running_state == RunningState::Calculating,
        e5 matches Some(p) && (p.1 matches Message::CalculateEnd(vs) && is_evaluation(
            lower_seq(m0.wordle@),
            lower_seq(m0.active_guess@),
            vs@,
        )),
        m6.guesses@.len() >= 1,
        is_evaluation(lower_seq(m0.wordle@), lower_seq(m0.active_guess@), m6.guesses@.last()@),
{
    let (d0, msg0) = e0->Some_0;
    let vs = msg0->AnimateGuess_1;
    assert(vs@.len() == 5);
    assert(animate_guard(m1, 0, vs@));
    let (d1, msg1) = e1->Some_0;
    assert(msg1->AnimateGuess_1@ == vs@);
    assert(animate_guard(m2, 1, vs@));
    let (d2, msg2) = e2->Some_0;
    assert(msg2->AnimateGuess_1@ == vs@);
    assert(animate_guard(m3, 2, vs@));
    let (d3, msg3) = e3->Some_0;
    assert(msg3->AnimateGuess_1@ == vs@);
    assert(animate_guard(m4, 3, vs@));
    let (d4, msg4) = e4->Some_0;
    assert(msg4->AnimateGuess_1@ == vs@);
    assert(animate_guard(m5, 4, vs@));
    assert(m6.guesses@.last()@ =~= vs@);
}

/// Relies on `String::push`: appends the character to the end of the
/// string.
#[verifier::external_body]
fn push_char(s: &mut String, c: char)
    ensures
        final(s)@ == old(s)@.push(c),
{
    s.push(c);
}

/// Relies on `String::pop`: removes and returns the last character, or
/// returns `None` and leaves the string alone when it is empty.
#[verifier::external_body]
fn pop_char(s: &mut String) -> (r: Option<char>)
    ensures
        old(s)@.len() == 0 ==> r is None && final(s)@ == old(s)@,
        old(s)@.len() > 0 ==> r == Some(old(s)@.last()) && final(s)@ == old(s)@.drop_last(),
{
    s.pop()
}

/// Consumes one message and moves the model one step: the pure heart of the
/// event loop.  Every message is total over the model; whatever fails a
/// guard is absorbed as a no-op.  The returned value is the only effect the
/// engine asks of its caller: deliver this message after this many
/// milliseconds.
pub fn update(model: &mut Model, msg: Message) -> (emit: Option<(u64, Message)>)
    requires
        old(model).wf(),
    ensures
        transition(*old(model), msg, *final(model), emit),
        final(model).wf(),
{
    match msg {
        Message::Listen(letter) => {
            if model.running_state == RunningState::Waiting {
                let len = model.active_guess.as_str().unicode_len();
                if len < 5 {
                    let lower = to_lower_char(letter);
                    push_char(&mut model.active_guess, lower);
                }
            }
            None
        },
        Message::Erase => {
            if model.running_state == RunningState::Waiting {
                let len = model.active_guess.as_str().unicode_len();
                if len > 0 {
                    pop_char(&mut model.active_guess);
                }
            }
            None
        },
        Message::CalculateStart => {
            if model.running_state == RunningState::Waiting {
                let len = model.active_guess.as_str().unicode_len();
                if len == 5 {
                    model.running_state = RunningState::Calculating;
                    let guess_word = model.active_guess.clone();
                    model.active_guess = String::new();
                    let verdicts = crate::utils::check(model.wordle.clone(), guess_word);
                    model.guesses.push(Vec::new());
                    return Some((REVEAL_FIRST_DELAY_MS, Message::AnimateGuess(0, verdicts)));
                }
            }
            None
        },
        Message::AnimateGuess(position, verdicts) => {
            if model.running_state == RunningState::Calculating {
                let rows = model.guesses.len();
                if rows >= 1 && verdicts.len() == 5 && position < 5 {
                    let row_len = model.guesses[rows - 1].len();
                    if row_len == position {
                        let revealed = verdicts[position];
                        let mut row = model.guesses.pop().unwrap();
                        row.push(revealed);
                        model.guesses.push(row);
                        if position + 1 < 5 {
                            return Some(
                                (
                                    REVEAL_STEP_DELAY_MS,
                                    Message::AnimateGuess(position + 1, verdicts),
                                ),
                            );
                        } else {
                            return Some((REVEAL_END_DELAY_MS, Message::CalculateEnd(verdicts)));
                        }
                    }
                }
            }
            None
        },
        Message::CalculateEnd(verdicts) => {
            if model.running_state == RunningState::Calculating {
                crate::utils::update_keyboard_hints(&mut model.keyboard_hints, &verdicts);
                let won = crate::utils::is_correct_guess(verdicts);
                let attempts_over = model.guesses.len() == 6;
                model.running_state = if won {
                    RunningState::Over(GameResult::CorrectGuess)
                } else if attempts_over {
                    RunningState::Over(GameResult::WrongGuess)
                } else {
                    RunningState::Waiting
                };
            }
            None
        },
        Message::Reset => {
            if model.running_state != RunningState::Done {
                model.reset();
            }
            None
        },
        Message::Quit => {
            model.running_state = RunningState::Done;
            None
        },
    }
}

} // verus!
