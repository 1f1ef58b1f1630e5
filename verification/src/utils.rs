use vstd::prelude::*;

use crate::model::{KeyboardHints, LetterState, LetterStatus};

verus! {

/// The ASCII-lowercase form of a character; anything but `'A'..='Z'` is
/// kept as it is.  The game's alphabet is ASCII, so this is the whole
/// normalization the comparator and the engine apply.
pub open spec fn lower_char(c: char) -> char {
    if 'A' <= c && c <= 'Z' {
        (((c as u8) + 32) as u8) as char
    } else {
        c
    }
}

/// A word normalized to ASCII lowercase, character by character.
pub open spec fn lower_seq(word: Seq<char>) -> Seq<char> {
    Seq::new(word.len(), |i: int| lower_char(word[i]))
}

/// Every character is an ASCII lowercase letter.
pub open spec fn is_lowercase_word(word: Seq<char>) -> bool {
    forall|j: int| 0 <= j < word.len() ==> 'a' <= #[trigger] word[j] <= 'z'
}

/// A word as the word lists hold it: exactly five ASCII lowercase letters.
pub open spec fn wf_word(word: Seq<char>) -> bool {
    word.len() == 5 && is_lowercase_word(word)
}

/// Lowercases one character, ASCII-wise.
pub fn to_lower_char(c: char) -> (r: char)
    ensures
        r == lower_char(c),
{
    if 'A' <= c && c <= 'Z' {
        ((c as u8) + 32) as char
    } else {
        c
    }
}

/// Number of occurrences of `letter` in `word` at positions `from` and later.
pub open spec fn count_letter_from(word: Seq<char>, letter: char, from: int) -> nat
    decreases word.len() - from when 0 <= from <= word.len()
{
    if from >= word.len() {
        0
    } else {
        (if word[from] == letter {
            1nat
        } else {
            0nat
        }) + count_letter_from(word, letter, from + 1)
    }
}

/// Number of occurrences of `letter` anywhere in `word`.
pub open spec fn count_letter(word: Seq<char>, letter: char) -> nat {
    count_letter_from(word, letter, 0)
}

/// Number of positions `from` and later where the guess holds `letter` in
/// the very spot the secret holds it too: the `Correct` matches of that
/// letter, which consume the secret's supply first.
pub open spec fn correct_count_from(
    secret: Seq<char>,
    guess: Seq<char>,
    letter: char,
    from: int,
) -> nat
    decreases guess.len() - from when 0 <= from <= guess.len()
{
    if from >= guess.len() {
        0
    } else {
        (if guess[from] == letter && guess[from] == secret[from] {
            1nat
        } else {
            0nat
        }) + correct_count_from(secret, guess, letter, from + 1)
    }
}

/// Number of positions `from` and later where the guess holds `letter` but
/// the secret holds something else there: the occurrences still competing
/// for whatever supply of `letter` the `Correct` matches leave over.
pub open spec fn pending_count_from(
    secret: Seq<char>,
    guess: Seq<char>,
    letter: char,
    from: int,
) -> nat
    decreases guess.len() - from when 0 <= from <= guess.len()
{
    if from >= guess.len() {
        0
    } else {
        (if guess[from] == letter && guess[from] != secret[from] {
            1nat
        } else {
            0nat
        }) + pending_count_from(secret, guess, letter, from + 1)
    }
}

/// The verdict the comparator assigns to position `i` of `guess` against
/// `secret`.  A letter in the right spot is `Correct`.  A letter the secret
/// does not hold at all is `NotPresent`.  A letter the secret holds
/// elsewhere is `Incorrect` (present, wrong spot) exactly when the
/// not-`Correct` occurrences of it from this position onward still fit into
/// what the secret's supply leaves after every `Correct` match of the same
/// letter is taken out first; once they no longer fit, the earlier position
/// yields and is `NotPresent`.
pub open spec fn verdict_at(secret: Seq<char>, guess: Seq<char>, i: int) -> LetterState {
    if guess[i] == secret[i] {
        LetterState::Correct
    } else if count_letter(secret, guess[i]) == 0 {
        LetterState::NotPresent
    } else if pending_count_from(secret, guess, guess[i], i) + correct_count_from(
        secret,
        guess,
        guess[i],
        0,
    ) <= count_letter(secret, guess[i]) {
        LetterState::Incorrect
    } else {
        LetterState::NotPresent
    }
}

/// `out` is exactly the per-letter evaluation of `guess` against `secret`.
pub open spec fn is_evaluation(secret: Seq<char>, guess: Seq<char>, out: Seq<LetterStatus>) -> bool {
    &&& out.len() == guess.len()
    &&& forall|i: int|
        0 <= i < guess.len() ==> out[i] == (LetterStatus {
            letter: guess[i],
            status: verdict_at(secret, guess, i),
        })
}

/// Counts how often `letter` occurs, after lowercasing, in `word` at
/// position `from` or later.
fn count_letters_from(word: &String, letter: char, from: usize) -> (n: usize)
    requires
        from <= word@.len(),
    ensures
        n == count_letter_from(lower_seq(word@), letter, from as int),
{
    let len: usize = word.as_str().unicode_len();
    let mut n: usize = 0;
    let mut j: usize = from;
    while j < len
        invariant
            from <= j <= len,
            len == word@.len(),
            n <= j - from,
            n + count_letter_from(lower_seq(word@), letter, j as int) == count_letter_from(
                lower_seq(word@),
                letter,
                from as int,
            ),
        decreases len - j,
    {
        let ch = to_lower_char(word.as_str().get_char(j));
        if ch == letter {
            n = n + 1;
        }
        j = j + 1;
    }
    n
}

/// Counts the positions where guess and secret agree, after lowercasing,
/// on `letter`: the `Correct` matches of that letter.
fn count_correct_matches(wordle: &String, guess: &String, letter: char) -> (n: usize)
    requires
        wordle@.len() == guess@.len(),
    ensures
        n == correct_count_from(lower_seq(wordle@), lower_seq(guess@), letter, 0),
        n <= guess@.len(),
{
    let len: usize = guess.as_str().unicode_len();
    let mut n: usize = 0;
    let mut j: usize = 0;
    while j < len
        invariant
            j <= len,
            len == guess@.len(),
            wordle@.len() == guess@.len(),
            n <= j,
            n + correct_count_from(lower_seq(wordle@), lower_seq(guess@), letter, j as int)
                == correct_count_from(lower_seq(wordle@), lower_seq(guess@), letter, 0),
        decreases len - j,
    {
        let wl = to_lower_char(wordle.as_str().get_char(j));
        let gl = to_lower_char(guess.as_str().get_char(j));
        if gl == letter && gl == wl {
            n = n + 1;
        }
        j = j + 1;
    }
    n
}

/// Counts the positions `from` and later where the guess holds `letter`,
/// after lowercasing, without the secret agreeing there.
fn count_pending_occurrences(wordle: &String, guess: &String, letter: char, from: usize) -> (n:
    usize)
    requires
        wordle@.len() == guess@.len(),
        from <= guess@.len(),
    ensures
        n == pending_count_from(lower_seq(wordle@), lower_seq(guess@), letter, from as int),
        n <= guess@.len(),
{
    let len: usize = guess.as_str().unicode_len();
    let mut n: usize = 0;
    let mut j: usize = from;
    while j < len
        invariant
            from <= j <= len,
            len == guess@.len(),
            wordle@.len() == guess@.len(),
            n <= j - from,
            n + pending_count_from(lower_seq(wordle@), lower_seq(guess@), letter, j as int)
                == pending_count_from(lower_seq(wordle@), lower_seq(guess@), letter, from as int),
        decreases len - j,
    {
        let wl = to_lower_char(wordle.as_str().get_char(j));
        let gl = to_lower_char(guess.as_str().get_char(j));
        if gl == letter && gl != wl {
            n = n + 1;
        }
        j = j + 1;
    }
    n
}

/// Evaluates a submitted `guess` against the secret `wordle`, producing one
/// verdict per guess position, in guess order.  The comparison is
/// case-insensitive: both words are normalized to lowercase first, and the
/// verdicts carry the lowercased letters.
pub fn check(wordle: String, guess: String) -> (output: Vec<LetterStatus>)
    requires
        wordle@.len() == 5,
        guess@.len() == 5,
    ensures
        is_evaluation(lower_seq(wordle@), lower_seq(guess@), output@),
{
    let mut output: Vec<LetterStatus> = Vec::new();
    let mut position: usize = 0;
    while position < 5
        invariant
            wordle@.len() == 5,
            guess@.len() == 5,
            position <= 5,
            output@.len() == position,
            forall|i: int|
                0 <= i < position ==> output@[i] == (LetterStatus {
                    letter: lower_seq(guess@)[i],
                    status: verdict_at(lower_seq(wordle@), lower_seq(guess@), i),
                }),
        decreases 5 - position,
    {
        let wordle_letter = to_lower_char(wordle.as_str().get_char(position));
        let guess_letter = to_lower_char(guess.as_str().get_char(position));
        let status: LetterState = if wordle_letter == guess_letter {
            LetterState::Correct
        } else {
            let supply = count_letters_from(&wordle, guess_letter, 0);
            if supply == 0 {
                LetterState::NotPresent
            } else {
                let correct_uses = count_correct_matches(&wordle, &guess, guess_letter);
                let pending = count_pending_occurrences(&wordle, &guess, guess_letter, position);
                if pending + correct_uses <= supply {
                    LetterState::Incorrect
                } else {
                    LetterState::NotPresent
                }
            }
        };
        output.push(LetterStatus { letter: guess_letter, status });
        position = position + 1;
    }
    output
}

/// Every verdict in `vs` is `Correct`.
pub open spec fn all_correct(vs: Seq<LetterStatus>) -> bool {
    forall|i: int| 0 <= i < vs.len() ==> vs[i].status == LetterState::Correct
}

/// A guess wins the round exactly when all of its verdicts are `Correct`.
pub fn is_correct_guess(input: Vec<LetterStatus>) -> (r: bool)
    ensures
        r == all_correct(input@),
{
    let mut i: usize = 0;
    while i < input.len()
        invariant
            i <= input@.len(),
            forall|j: int| 0 <= j < i ==> input@[j].status == LetterState::Correct,
        decreases input@.len() - i,
    {
        if input[i].status != LetterState::Correct {
            return false;
        }
        i = i + 1;
    }
    true
}

/// The positions of `letter` within `word` from index `from` on, in
/// increasing order.
pub open spec fn letter_indices_from(word: Seq<char>, letter: char, from: int) -> Seq<usize>
    decreases word.len() - from when 0 <= from <= word.len()
{
    if from >= word.len() {
        Seq::empty()
    } else if word[from] == letter {
        seq![from as usize] + letter_indices_from(word, letter, from + 1)
    } else {
        letter_indices_from(word, letter, from + 1)
    }
}

/// Collects every position of `word` that holds `letter`, in increasing
/// order.
pub fn get_all_letter_indices(letter: char, word: String) -> (output: Vec<usize>)
    ensures
        output@ == letter_indices_from(word@, letter, 0),
{
    let mut output: Vec<usize> = Vec::new();
    let len: usize = word.as_str().unicode_len();
    let mut j: usize = 0;
    while j < len
        invariant
            j <= len,
            len == word@.len(),
            output@ + letter_indices_from(word@, letter, j as int) == letter_indices_from(
                word@,
                letter,
                0,
            ),
        decreases len - j,
    {
        if word.as_str().get_char(j) == letter {
            let ghost prev = output@;
            output.push(j);
            proof {
                assert(prev + letter_indices_from(word@, letter, j as int) =~= output@
                    + letter_indices_from(word@, letter, j + 1));
            }
        }
        j = j + 1;
    }
    proof {
        assert(output@ + letter_indices_from(word@, letter, len as int) =~= output@);
    }
    output
}

/// Precedence of a hint: a letter known to be `Correct` outranks one known
/// to be somewhere else in the word, which outranks one known to be absent
/// or not yet judged.
pub open spec fn hint_rank(status: LetterState) -> int {
    match status {
        LetterState::Correct => 3,
        LetterState::Incorrect => 2,
        LetterState::NotPresent => 1,
        LetterState::Unknown => 1,
    }
}

/// An incoming verdict replaces the stored hint unless the stored hint
/// strictly outranks it.
pub open spec fn upgraded(current: LetterState, incoming: LetterState) -> LetterState {
    if hint_rank(incoming) >= hint_rank(current) {
        incoming
    } else {
        current
    }
}

/// Folds a single verdict into the hint mapping.
pub open spec fn merge_verdict(
    hints: Map<char, LetterState>,
    v: LetterStatus,
) -> Map<char, LetterState> {
    if hints.contains_key(v.letter) {
        hints.insert(v.letter, upgraded(hints[v.letter], v.status))
    } else {
        hints.insert(v.letter, v.status)
    }
}

/// Folds a whole verdict sequence into the hint mapping, left to right.
pub open spec fn merge_verdicts(
    hints: Map<char, LetterState>,
    vs: Seq<LetterStatus>,
) -> Map<char, LetterState>
    decreases vs.len(),
{
    if vs.len() == 0 {
        hints
    } else {
        merge_verdict(merge_verdicts(hints, vs.drop_last()), vs.last())
    }
}

/// Folds the verdicts of one evaluated guess into the keyboard hints.
pub fn update_keyboard_hints(hints: &mut KeyboardHints, statuses: &Vec<LetterStatus>)
    requires
        old(hints).wf(),
    ensures
        final(hints)@ == merge_verdicts(old(hints)@, statuses@),
        final(hints).wf(),
{
    let n = statuses.len();
    let mut i: usize = 0;
    while i < n
        invariant
            n == statuses@.len(),
            i <= n,
            hints.wf(),
            hints@ == merge_verdicts(old(hints)@, statuses@.subrange(0, i as int)),
        decreases n - i,
    {
        let v = statuses[i];
        let stored = hints.get(v.letter);
        match stored {
            None => {
                hints.record(v.letter, v.status);
            },
            Some(current) => {
                let replacement: LetterState = match v.status {
                    LetterState::Correct => LetterState::Correct,
                    LetterState::Incorrect => {
                        if current == LetterState::Correct {
                            current
                        } else {
                            LetterState::Incorrect
                        }
                    },
                    LetterState::NotPresent | LetterState::Unknown => {
                        if current == LetterState::Correct || current == LetterState::Incorrect {
                            current
                        } else {
                            v.status
                        }
                    },
                };
                assert(replacement == upgraded(current, v.status));
                hints.record(v.letter, replacement);
            },
        }
        proof {
            let done = statuses@.subrange(0, i + 1);
            assert(done.drop_last() =~= statuses@.subrange(0, i as int));
            assert(done.last() == statuses@[i as int]);
        }
        i = i + 1;
    }
    proof {
        assert(statuses@.subrange(0, n as int) =~= statuses@);
    }
}

/// Law: hints never downgrade; once a letter is recorded as `Correct`, no
/// later merge, whatever it reports about that letter, changes it.
pub proof fn lemma_merge_never_downgrades_correct(
    hints: Map<char, LetterState>,
    vs: Seq<LetterStatus>,
    letter: char,
)
    requires
        hints.contains_key(letter),
        hints[letter] == LetterState::Correct,
    ensures
        merge_verdicts(hints, vs).contains_key(letter),
        merge_verdicts(hints, vs)[letter] == LetterState::Correct,
    decreases vs.len(),
{
    if vs.len() > 0 {
        lemma_merge_never_downgrades_correct(hints, vs.drop_last(), letter);
    }
}

/// The best rank any verdict for `letter` in `vs` carries; 0 when `vs` does
/// not mention the letter.
spec fn best_rank(vs: Seq<LetterStatus>, letter: char) -> int
    decreases vs.len(),
{
    if vs.len() == 0 {
        0
    } else {
        let rest = best_rank(vs.drop_last(), letter);
        let here = if vs.last().letter == letter {
            hint_rank(vs.last().status)
        } else {
            0
        };
        if here >= rest {
            here
        } else {
            rest
        }
    }
}

/// The status the fold settles on for `letter` when some verdict in `vs`
/// mentions it: the latest verdict whose rank matches the best rank.
spec fn best_status(vs: Seq<LetterStatus>, letter: char) -> LetterState
    decreases vs.len(),
{
    if vs.len() == 0 {
        LetterState::Unknown
    } else if vs.last().letter == letter && hint_rank(vs.last().status) >= best_rank(
        vs.drop_last(),
        letter,
    ) {
        vs.last().status
    } else {
        best_status(vs.drop_last(), letter)
    }
}

proof fn lemma_best_status_rank(vs: Seq<LetterStatus>, letter: char)
    requires
        best_rank(vs, letter) >= 1,
    ensures
        hint_rank(best_status(vs, letter)) == best_rank(vs, letter),
    decreases vs.len(),
{
    if vs.len() > 0 {
        if !(vs.last().letter == letter && hint_rank(vs.last().status) >= best_rank(
            vs.drop_last(),
            letter,
        )) {
            lemma_best_status_rank(vs.drop_last(), letter);
        }
    }
}

/// Pointwise description of the fold: for each letter, the merge keeps the
/// stored hint when it strictly outranks everything incoming, and otherwise
/// settles on the latest best-ranked incoming verdict.
proof fn lemma_merge_pointwise(hints: Map<char, LetterState>, vs: Seq<LetterStatus>, letter: char)
    ensures
        merge_verdicts(hints, vs).contains_key(letter) <==> (hints.contains_key(letter)
            || best_rank(vs, letter) >= 1),
        hints.contains_key(letter) && hint_rank(hints[letter]) > best_rank(vs, letter)
            ==> merge_verdicts(hints, vs)[letter] == hints[letter],
        best_rank(vs, letter) >= 1 && (!hints.contains_key(letter) || hint_rank(hints[letter])
            <= best_rank(vs, letter)) ==> merge_verdicts(hints, vs)[letter] == best_status(
            vs,
            letter,
        ),
    decreases vs.len(),
{
    if vs.len() > 0 {
        let prefix = vs.drop_last();
        lemma_merge_pointwise(hints, prefix, letter);
        if best_rank(prefix, letter) >= 1 {
            lemma_best_status_rank(prefix, letter);
        }
    }
}

/// Law: merging the same verdict sequence twice leaves the hints exactly as
/// merging it once does.
pub proof fn lemma_merge_idempotent(hints: Map<char, LetterState>, vs: Seq<LetterStatus>)
    ensures
        merge_verdicts(merge_verdicts(hints, vs), vs) == merge_verdicts(hints, vs),
{
    let once = merge_verdicts(hints, vs);
    let twice = merge_verdicts(once, vs);
    assert forall|letter: char| #[trigger]
        once.contains_key(letter) <==> twice.contains_key(letter) by {
        lemma_merge_pointwise(hints, vs, letter);
        lemma_merge_pointwise(once, vs, letter);
    }
    assert forall|letter: char| twice.contains_key(letter) implies #[trigger] twice[letter]
        == once[letter] by {
        lemma_merge_pointwise(hints, vs, letter);
        lemma_merge_pointwise(once, vs, letter);
        if best_rank(vs, letter) >= 1 {
            lemma_best_status_rank(vs, letter);
        }
    }
    assert(twice =~= once);
}

/// Law: a guess identical to the secret is evaluated as all `Correct`.
pub proof fn lemma_evaluate_self_all_correct(secret: Seq<char>, out: Seq<LetterStatus>)
    requires
        is_evaluation(secret, secret, out),
    ensures
        all_correct(out),
{
}

/// No occurrence of `letter` at position `from` or later means a count of
/// zero.
proof fn lemma_count_zero_when_absent(word: Seq<char>, letter: char, from: int)
    requires
        0 <= from <= word.len(),
        forall|j: int| from <= j < word.len() ==> word[j] != letter,
    ensures
        count_letter_from(word, letter, from) == 0,
    decreases word.len() - from,
{
    if from < word.len() {
        lemma_count_zero_when_absent(word, letter, from + 1);
    }
}

/// Law: when the secret and the guess share no letter at all, every verdict
/// is `NotPresent`.
pub proof fn lemma_evaluate_disjoint_all_absent(
    secret: Seq<char>,
    guess: Seq<char>,
    out: Seq<LetterStatus>,
)
    requires
        secret.len() == guess.len(),
        is_evaluation(secret, guess, out),
        forall|i: int, j: int|
            0 <= i < secret.len() && 0 <= j < guess.len() ==> secret[i] != guess[j],
    ensures
        forall|i: int| 0 <= i < out.len() ==> out[i].status == LetterState::NotPresent,
{
    assert forall|i: int| 0 <= i < out.len() implies out[i].status
        == LetterState::NotPresent by {
        lemma_count_zero_when_absent(secret, guess[i], 0);
    }
}

/// Number of positions `from` and later whose verdict is `Incorrect` for
/// `letter`.
spec fn incorrect_count_from(secret: Seq<char>, guess: Seq<char>, letter: char, from: int) -> nat
    decreases guess.len() - from when 0 <= from <= guess.len()
{
    if from >= guess.len() {
        0
    } else {
        (if guess[from] == letter && verdict_at(secret, guess, from) == LetterState::Incorrect {
            1nat
        } else {
            0nat
        }) + incorrect_count_from(secret, guess, letter, from + 1)
    }
}

/// Number of verdicts in `out` at positions `from` and later that score
/// `letter`: carry it as `Correct` or as `Incorrect` (wrong spot).
pub open spec fn scored_count_from(out: Seq<LetterStatus>, letter: char, from: int) -> nat
    decreases out.len() - from when 0 <= from <= out.len()
{
    if from >= out.len() {
        0
    } else {
        (if out[from].letter == letter && out[from].status != LetterState::NotPresent {
            1nat
        } else {
            0nat
        }) + scored_count_from(out, letter, from + 1)
    }
}

/// A `Correct` match of `letter` stands on a position where the secret
/// holds `letter`, so such matches never outnumber the letter's supply.
proof fn lemma_correct_within_supply(secret: Seq<char>, guess: Seq<char>, letter: char, from: int)
    requires
        secret.len() == guess.len(),
        0 <= from <= guess.len(),
    ensures
        correct_count_from(secret, guess, letter, from) <= count_letter_from(secret, letter, from),
    decreases guess.len() - from,
{
    if from < guess.len() {
        lemma_correct_within_supply(secret, guess, letter, from + 1);
    }
}

/// Every `Incorrect` position for `letter` is one of its pending
/// occurrences, and the earliest `Incorrect` position already certifies
/// that all of them, with every `Correct` match, fit the supply.
proof fn lemma_incorrect_within_leftover(
    secret: Seq<char>,
    guess: Seq<char>,
    letter: char,
    from: int,
)
    requires
        secret.len() == guess.len(),
        0 <= from <= guess.len(),
    ensures
        incorrect_count_from(secret, guess, letter, from) <= pending_count_from(
            secret,
            guess,
            letter,
            from,
        ),
        incorrect_count_from(secret, guess, letter, from) >= 1 ==> incorrect_count_from(
            secret,
            guess,
            letter,
            from,
        ) + correct_count_from(secret, guess, letter, 0) <= count_letter(secret, letter),
    decreases guess.len() - from,
{
    if from < guess.len() {
        lemma_incorrect_within_leftover(secret, guess, letter, from + 1);
    }
}

/// The verdicts that score `letter` are exactly its `Correct` matches plus
/// its `Incorrect` positions.
proof fn lemma_scored_split(
    secret: Seq<char>,
    guess: Seq<char>,
    out: Seq<LetterStatus>,
    letter: char,
    from: int,
)
    requires
        secret.len() == guess.len(),
        is_evaluation(secret, guess, out),
        0 <= from <= out.len(),
    ensures
        scored_count_from(out, letter, from) == correct_count_from(secret, guess, letter, from)
            + incorrect_count_from(secret, guess, letter, from),
    decreases out.len() - from,
{
    if from < out.len() {
        lemma_scored_split(secret, guess, out, letter, from + 1);
    }
}

/// Law (duplicate-letter reconciliation): within one evaluation, the
/// verdicts that score a letter — `Correct` or `Incorrect` (wrong spot) —
/// never outnumber the secret's supply of that letter.
pub proof fn lemma_scores_within_supply(
    secret: Seq<char>,
    guess: Seq<char>,
    out: Seq<LetterStatus>,
    letter: char,
)
    requires
        secret.len() == guess.len(),
        is_evaluation(secret, guess, out),
    ensures
        scored_count_from(out, letter, 0) <= count_letter(secret, letter),
{
    lemma_scored_split(secret, guess, out, letter, 0);
    lemma_correct_within_supply(secret, guess, letter, 0);
    lemma_incorrect_within_leftover(secret, guess, letter, 0);
}

} // verus!
