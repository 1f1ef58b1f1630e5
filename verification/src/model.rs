use vstd::prelude::*;

use rand::Rng;

use crate::data::{answer_words, guess_words, word_views};
use crate::utils::wf_word;

verus! {

/// Best-known status of a single letter, as shown on one grid cell or one
/// keyboard key.
#[derive(Clone, Copy, Debug, PartialEq, Eq, Structural)]
pub enum LetterState {
    Unknown,
    NotPresent,
    Correct,
    Incorrect,
}

/// One evaluated letter of a guess: the letter together with its verdict.
#[derive(Clone, Copy, Debug, PartialEq, Eq, Structural)]
pub struct LetterStatus {
    pub letter: char,
    pub status: LetterState,
}

/// How a finished round ended.
#[derive(Clone, Copy, Debug, PartialEq, Eq, Structural)]
pub enum GameResult {
    CorrectGuess,
    WrongGuess,
}

/// The phase the game is in.  `Calculating` covers the whole reveal
/// animation of the most recently submitted guess; `Done` is reached only
/// by an explicit quit.
#[derive(Clone, Copy, Debug, PartialEq, Eq, Structural)]
pub enum RunningState {
    Waiting,
    Calculating,
    Over(GameResult),
    Done,
}

/// Commands and internal events the update engine consumes.
#[derive(Debug)]
pub enum Message {
    Listen(char),
    Erase,
    CalculateStart,
    AnimateGuess(usize, Vec<LetterStatus>),
    CalculateEnd(Vec<LetterStatus>),
    Reset,
    Quit,
}

/// No two entries speak about the same letter.
pub open spec fn distinct_letters(entries: Seq<LetterStatus>) -> bool {
    forall|i: int, j: int|
        0 <= i < j < entries.len() ==> entries[i].letter != entries[j].letter
}

/// The mapping an entry list denotes: later entries win, though with
/// distinct letters the order never matters.
pub open spec fn hints_map_of(entries: Seq<LetterStatus>) -> Map<char, LetterState>
    decreases entries.len(),
{
    if entries.len() == 0 {
        Map::empty()
    } else {
        hints_map_of(entries.drop_last()).insert(entries.last().letter, entries.last().status)
    }
}

proof fn lemma_hints_map_contains(entries: Seq<LetterStatus>, letter: char)
    ensures
        hints_map_of(entries).contains_key(letter) <==> (exists|k: int|
            0 <= k < entries.len() && entries[k].letter == letter),
    decreases entries.len(),
{
    if entries.len() > 0 {
        lemma_hints_map_contains(entries.drop_last(), letter);
        if hints_map_of(entries).contains_key(letter) {
            if entries.last().letter == letter {
                assert(entries[entries.len() - 1].letter == letter);
            }
        }
        if exists|k: int| 0 <= k < entries.len() && entries[k].letter == letter {
            let k = choose|k: int| 0 <= k < entries.len() && entries[k].letter == letter;
            if k < entries.len() - 1 {
                assert(entries.drop_last()[k].letter == letter);
            }
        }
    }
}

proof fn lemma_hints_map_value(entries: Seq<LetterStatus>, k: int)
    requires
        distinct_letters(entries),
        0 <= k < entries.len(),
    ensures
        hints_map_of(entries).contains_key(entries[k].letter),
        hints_map_of(entries)[entries[k].letter] == entries[k].status,
    decreases entries.len(),
{
    if k < entries.len() - 1 {
        lemma_hints_map_value(entries.drop_last(), k);
        assert(entries.drop_last()[k] == entries[k]);
    }
}

proof fn lemma_hints_map_update(entries: Seq<LetterStatus>, i: int, v: LetterStatus)
    requires
        distinct_letters(entries),
        0 <= i < entries.len(),
        entries[i].letter == v.letter,
    ensures
        hints_map_of(entries.update(i, v)) == hints_map_of(entries).insert(v.letter, v.status),
    decreases entries.len(),
{
    let updated = entries.update(i, v);
    if i == entries.len() - 1 {
        assert(updated.drop_last() =~= entries.drop_last());
        assert(updated.last() == v);
        assert(hints_map_of(entries.drop_last()).insert(v.letter, v.status) =~= hints_map_of(
            entries.drop_last(),
        ).insert(entries.last().letter, entries.last().status).insert(v.letter, v.status));
    } else {
        lemma_hints_map_update(entries.drop_last(), i, v);
        assert(updated.drop_last() =~= entries.drop_last().update(i, v));
        assert(updated.last() == entries.last());
        assert(entries[i].letter != entries.last().letter);
        assert(hints_map_of(entries.drop_last()).insert(v.letter, v.status).insert(
            entries.last().letter,
            entries.last().status,
        ) =~= hints_map_of(entries.drop_last()).insert(
            entries.last().letter,
            entries.last().status,
        ).insert(v.letter, v.status));
    }
}

/// Best-known status per letter, as shown on the on-screen keyboard.  Keys
/// appear once a letter has been evaluated at least once; values only ever
/// strengthen while a round lasts.
#[derive(Debug)]
pub struct KeyboardHints {
    entries: Vec<LetterStatus>,
}

impl View for KeyboardHints {
    type V = Map<char, LetterState>;

    closed spec fn view(&self) -> Map<char, LetterState> {
        hints_map_of(self.entries@)
    }
}

impl KeyboardHints {
    /// The internal entry list never mentions a letter twice.
    pub closed spec fn wf(&self) -> bool {
        distinct_letters(self.entries@)
    }

    /// An empty hint board.
    pub fn new() -> (hints: Self)
        ensures
            hints@ == Map::<char, LetterState>::empty(),
            hints.wf(),
    {
        KeyboardHints { entries: Vec::new() }
    }

    /// Forgets every hint, as when a fresh round starts.
    pub fn clear(&mut self)
        ensures
            final(self)@ == Map::<char, LetterState>::empty(),
            final(self).wf(),
    {
        self.entries.clear();
    }

    /// The best-known status for `letter`, or `None` while the letter has
    /// never been part of an evaluated guess.
    pub fn get(&self, letter: char) -> (r: Option<LetterState>)
        requires
            self.wf(),
        ensures
            match r {
                Some(status) => self@.contains_key(letter) && self@[letter] == status,
                None => !self@.contains_key(letter),
            },
    {
        let n = self.entries.len();
        let mut i: usize = 0;
        while i < n
            invariant
                n == self.entries@.len(),
                i <= n,
                distinct_letters(self.entries@),
                forall|k: int| 0 <= k < i ==> self.entries@[k].letter != letter,
            decreases n - i,
        {
            if self.entries[i].letter == letter {
                proof {
                    lemma_hints_map_value(self.entries@, i as int);
                }
                return Some(self.entries[i].status);
            }
            i = i + 1;
        }
        proof {
            lemma_hints_map_contains(self.entries@, letter);
        }
        None
    }

    /// Stores `status` for `letter`, replacing whatever was known before.
    pub(crate) fn record(&mut self, letter: char, status: LetterState)
        requires
            old(self).wf(),
        ensures
            final(self)@ == old(self)@.insert(letter, status),
            final(self).wf(),
    {
        let n = self.entries.len();
        let mut i: usize = 0;
        while i < n
            invariant
                n == self.entries@.len(),
                i <= n,
                self.entries@ == old(self).entries@,
                distinct_letters(self.entries@),
                forall|k: int| 0 <= k < i ==> self.entries@[k].letter != letter,
            decreases n - i,
        {
            if self.entries[i].letter == letter {
                let v = LetterStatus { letter, status };
                proof {
                    lemma_hints_map_update(self.entries@, i as int, v);
                }
                self.entries[i] = v;
                assert(distinct_letters(self.entries@));
                return;
            }
            i = i + 1;
        }
        proof {
            lemma_hints_map_contains(self.entries@, letter);
        }
        self.entries.push(LetterStatus { letter, status });
        proof {
            assert(self.entries@.drop_last() =~= old(self).entries@);
            assert(distinct_letters(self.entries@));
        }
    }
}

/// Relies on rand's `Rng::gen_range` over `0..len`: it returns a uniformly
/// distributed value of that range, which is nonempty by the precondition.
/// Nothing more is assumed of the outcome than its bound.
#[verifier::external_body]
fn pick_index(len: usize) -> (r: usize)
    requires
        len >= 1,
    ensures
        r < len,
{
    rand::thread_rng().gen_range(0..len)
}

/// The authoritative game state, owned by the update engine; the renderer
/// only ever reads it.
#[derive(Debug)]
pub struct Model {
    /// The secret five-letter word of the current round.
    pub wordle: String,
    /// Words a secret may be drawn from.
    pub valid_wordles: Vec<String>,
    /// Words accepted as guesses.
    pub valid_guesses: Vec<String>,
    /// The guess being typed, at most five letters.
    pub active_guess: String,
    /// Fully or partially revealed verdicts of the submitted guesses.
    pub guesses: Vec<Vec<LetterStatus>>,
    /// The phase the round is in.
    pub running_state: RunningState,
    /// Best-known status per letter.
    pub keyboard_hints: KeyboardHints,
}

impl Model {
    /// Every invariant the update engine maintains: the secret has five
    /// lowercase letters, the typed guess never exceeds five characters,
    /// the history never exceeds six rows of at most five verdicts, the
    /// answer list can serve a new round with well-formed words, and the
    /// phase agrees with the history (a reveal is only ever in progress on
    /// an existing row; a seventh guess can never be submitted).
    pub open spec fn wf(&self) -> bool {
        &&& wf_word(self.wordle@)
        &&& self.active_guess@.len() <= 5
        &&& self.guesses@.len() <= 6
        &&& (forall|i: int|
            0 <= i < self.guesses@.len() ==> (#[trigger] self.guesses@[i])@.len() <= 5)
        &&& self.valid_wordles@.len() >= 1
        &&& (forall|i: int|
            0 <= i < self.valid_wordles@.len() ==> wf_word((#[trigger] self.valid_wordles@[i])@))
        &&& self.keyboard_hints.wf()
        &&& (self.running_state == RunningState::Calculating ==> self.guesses@.len() >= 1)
        &&& (self.running_state == RunningState::Waiting ==> self.guesses@.len() <= 5)
    }

    /// A fresh model: the built-in word lists loaded, a secret of five
    /// lowercase letters drawn from the answer list, nothing guessed yet.
    pub fn new() -> (model: Model)
        ensures
            model.wf(),
            word_views(model.valid_wordles@) == answer_words(),
            word_views(model.valid_guesses@) == guess_words(),
            model.running_state == RunningState::Waiting,
            model.active_guess@ == Seq::<char>::empty(),
            model.guesses@ == Seq::<Vec<LetterStatus>>::empty(),
            model.keyboard_hints@ == Map::<char, LetterState>::empty(),
            exists|k: int|
                0 <= k < model.valid_wordles@.len() && model.wordle@ == (
                #[trigger] model.valid_wordles@[k])@,
    {
        let valid_guesses = crate::data::valid_guesses();
        let valid_wordles = crate::data::valid_wordles();
        let idx = pick_index(valid_wordles.len());
        let wordle = valid_wordles[idx].clone();
        let model = Model {
            wordle,
            valid_wordles,
            valid_guesses,
            active_guess: String::new(),
            guesses: Vec::new(),
            running_state: RunningState::Waiting,
            keyboard_hints: KeyboardHints::new(),
        };
        proof {
            assert(model.wordle@ == model.valid_wordles@[idx as int]@);
        }
        model
    }

    /// Starts a new round: draws a fresh secret and clears the typed guess,
    /// the history and the keyboard hints.
    pub fn reset(&mut self)
        requires
            old(self).wf(),
        ensures
            final(self).wf(),
            final(self).valid_wordles == old(self).valid_wordles,
            final(self).valid_guesses == old(self).valid_guesses,
            exists|k: int|
                0 <= k < old(self).valid_wordles@.len() && final(self).wordle@ == (
                #[trigger] old(self).valid_wordles@[k])@,
            final(self).active_guess@ == Seq::<char>::empty(),
            final(self).guesses@ == Seq::<Vec<LetterStatus>>::empty(),
            final(self).keyboard_hints@ == Map::<char, LetterState>::empty(),
            final(self).running_state == RunningState::Waiting,
    {
        let idx = pick_index(self.valid_wordles.len());
        self.wordle = self.valid_wordles[idx].clone();
        self.active_guess = String::new();
        self.guesses.clear();
        self.keyboard_hints.clear();
        self.running_state = RunningState::Waiting;
        proof {
            assert(self.wordle@ == old(self).valid_wordles@[idx as int]@);
        }
    }
}

} // verus!
