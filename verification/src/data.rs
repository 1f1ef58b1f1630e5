use vstd::prelude::*;

use crate::utils::wf_word;

verus! {

/// The words of the built-in answer list, in order.
pub open spec fn answer_words() -> Seq<Seq<char>> {
    seq![
        "ennui"@,
        "drove"@,
        "pious"@,
        "below"@,
        "crane"@,
        "slate"@,
        "audio"@,
        "house"@,
        "plant"@,
        "grape"@,
        "stone"@,
        "bride"@,
        "flame"@,
        "chord"@,
        "mound"@,
        "truck"@,
        "swift"@,
        "gleam"@,
        "prism"@,
        "vouch"@,
        "knead"@,
        "joker"@,
        "zebra"@,
        "quilt"@,
        "wrath"@,
        "fjord"@,
        "epoxy"@,
        "lymph"@,
    ]
}

/// The words of the built-in guess list, in order.
pub open spec fn guess_words() -> Seq<Seq<char>> {
    seq![
        "where"@,
        "evoke"@,
        "piano"@,
        "smile"@,
        "hello"@,
        "irate"@,
        "roast"@,
        "cloud"@,
        "nymph"@,
        "bench"@,
        "dwarf"@,
        "gusto"@,
        "jumpy"@,
        "vexed"@,
        "whack"@,
    ]
}

/// The views of a word list's entries, in order.
pub open spec fn word_views(words: Seq<String>) -> Seq<Seq<char>> {
    words.map_values(|w: String| w@)
}

/// A five-character word whose characters are each a lowercase letter is a
/// well-formed list word.
proof fn lemma_lowercase_word5(w: Seq<char>)
    requires
        w.len() == 5,
        'a' <= w[0] <= 'z',
        'a' <= w[1] <= 'z',
        'a' <= w[2] <= 'z',
        'a' <= w[3] <= 'z',
        'a' <= w[4] <= 'z',
    ensures
        wf_word(w),
{
    assert forall|j: int| 0 <= j < w.len() implies 'a' <= #[trigger] w[j] <= 'z' by {
        if j == 0 {
        } else if j == 1 {
        } else if j == 2 {
        } else if j == 3 {
        } else {
            assert(j == 4);
        }
    }
}

/// Appends one word to the list, keeping every entry well formed and
/// extending the list's contents by exactly that word.
fn push_word(words: &mut Vec<String>, word: &str)
    requires
        wf_word(word@),
        forall|i: int| 0 <= i < old(words)@.len() ==> wf_word((#[trigger] old(words)@[i])@),
    ensures
        forall|i: int| 0 <= i < final(words)@.len() ==> wf_word((#[trigger] final(words)@[i])@),
        word_views(final(words)@) == word_views(old(words)@).push(word@),
{
    words.push(word.to_owned());
    proof {
        assert(word_views(words@) =~= word_views(old(words)@).push(word@));
    }
}

/// The words a round may draw its secret from: exactly the built-in answer
/// list, every entry five lowercase letters.
pub fn valid_wordles() -> (words: Vec<String>)
    ensures
        word_views(words@) == answer_words(),
        words@.len() >= 1,
        forall|i: int| 0 <= i < words@.len() ==> wf_word((#[trigger] words@[i])@),
{
    proof {
        reveal_strlit("ennui");
        reveal_strlit("drove");
        reveal_strlit("pious");
        reveal_strlit("below");
        reveal_strlit("crane");
        reveal_strlit("slate");
        reveal_strlit("audio");
        reveal_strlit("house");
        reveal_strlit("plant");
        reveal_strlit("grape");
        reveal_strlit("stone");
        reveal_strlit("bride");
        reveal_strlit("flame");
        reveal_strlit("chord");
        reveal_strlit("mound");
        reveal_strlit("truck");
        reveal_strlit("swift");
        reveal_strlit("gleam");
        reveal_strlit("prism");
        reveal_strlit("vouch");
        reveal_strlit("knead");
        reveal_strlit("joker");
        reveal_strlit("zebra");
        reveal_strlit("quilt");
        reveal_strlit("wrath");
        reveal_strlit("fjord");
        reveal_strlit("epoxy");
        reveal_strlit("lymph");
        lemma_lowercase_word5("ennui"@);
        lemma_lowercase_word5("drove"@);
        lemma_lowercase_word5("pious"@);
        lemma_lowercase_word5("below"@);
        lemma_lowercase_word5("crane"@);
        lemma_lowercase_word5("slate"@);
        lemma_lowercase_word5("audio"@);
        lemma_lowercase_word5("house"@);
        lemma_lowercase_word5("plant"@);
        lemma_lowercase_word5("grape"@);
        lemma_lowercase_word5("stone"@);
        lemma_lowercase_word5("bride"@);
        lemma_lowercase_word5("flame"@);
        lemma_lowercase_word5("chord"@);
        lemma_lowercase_word5("mound"@);
        lemma_lowercase_word5("truck"@);
        lemma_lowercase_word5("swift"@);
        lemma_lowercase_word5("gleam"@);
        lemma_lowercase_word5("prism"@);
        lemma_lowercase_word5("vouch"@);
        lemma_lowercase_word5("knead"@);
        lemma_lowercase_word5("joker"@);
        lemma_lowercase_word5("zebra"@);
        lemma_lowercase_word5("quilt"@);
        lemma_lowercase_word5("wrath"@);
        lemma_lowercase_word5("fjord"@);
        lemma_lowercase_word5("epoxy"@);
        lemma_lowercase_word5("lymph"@);
    }
    let mut words: Vec<String> = Vec::new();
    proof {
        assert(word_views(words@) =~= Seq::<Seq<char>>::empty());
    }
    push_word(&mut words, "ennui");
    push_word(&mut words, "drove");
    push_word(&mut words, "pious");
    push_word(&mut words, "below");
    push_word(&mut words, "crane");
    push_word(&mut words, "slate");
    push_word(&mut words, "audio");
    push_word(&mut words, "house");
    push_word(&mut words, "plant");
    push_word(&mut words, "grape");
    push_word(&mut words, "stone");
    push_word(&mut words, "bride");
    push_word(&mut words, "flame");
    push_word(&mut words, "chord");
    push_word(&mut words, "mound");
    push_word(&mut words, "truck");
    push_word(&mut words, "swift");
    push_word(&mut words, "gleam");
    push_word(&mut words, "prism");
    push_word(&mut words, "vouch");
    push_word(&mut words, "knead");
    push_word(&mut words, "joker");
    push_word(&mut words, "zebra");
    push_word(&mut words, "quilt");
    push_word(&mut words, "wrath");
    push_word(&mut words, "fjord");
    push_word(&mut words, "epoxy");
    push_word(&mut words, "lymph");
    proof {
        assert(word_views(words@) =~= answer_words());
    }
    words
}

/// Words a player may submit as guesses, in addition to the answers
/// themselves: exactly the built-in guess list, every entry five lowercase
/// letters.
pub fn valid_guesses() -> (words: Vec<String>)
    ensures
        word_views(words@) == guess_words(),
        words@.len() >= 1,
        forall|i: int| 0 <= i < words@.len() ==> wf_word((#[trigger] words@[i])@),
{
    proof {
        reveal_strlit("where");
        reveal_strlit("evoke");
        reveal_strlit("piano");
        reveal_strlit("smile");
        reveal_strlit("hello");
        reveal_strlit("irate");
        reveal_strlit("roast");
        reveal_strlit("cloud");
        reveal_strlit("nymph");
        reveal_strlit("bench");
        reveal_strlit("dwarf");
        reveal_strlit("gusto");
        reveal_strlit("jumpy");
        reveal_strlit("vexed");
        reveal_strlit("whack");
        lemma_lowercase_word5("where"@);
        lemma_lowercase_word5("evoke"@);
        lemma_lowercase_word5("piano"@);
        lemma_lowercase_word5("smile"@);
        lemma_lowercase_word5("hello"@);
        lemma_lowercase_word5("irate"@);
        lemma_lowercase_word5("roast"@);
        lemma_lowercase_word5("cloud"@);
        lemma_lowercase_word5("nymph"@);
        lemma_lowercase_word5("bench"@);
        lemma_lowercase_word5("dwarf"@);
        lemma_lowercase_word5("gusto"@);
        lemma_lowercase_word5("jumpy"@);
        lemma_lowercase_word5("vexed"@);
        lemma_lowercase_word5("whack"@);
    }
    let mut words: Vec<String> = Vec::new();
    proof {
        assert(word_views(words@) =~= Seq::<Seq<char>>::empty());
    }
    push_word(&mut words, "where");
    push_word(&mut words, "evoke");
    push_word(&mut words, "piano");
    push_word(&mut words, "smile");
    push_word(&mut words, "hello");
    push_word(&mut words, "irate");
    push_word(&mut words, "roast");
    push_word(&mut words, "cloud");
    push_word(&mut words, "nymph");
    push_word(&mut words, "bench");
    push_word(&mut words, "dwarf");
    push_word(&mut words, "gusto");
    push_word(&mut words, "jumpy");
    push_word(&mut words, "vexed");
    push_word(&mut words, "whack");
    proof {
        assert(word_views(words@) =~= guess_words());
    }
    words
}

} // verus!
