//! The words that generated paste ids are made of.
use vstd::prelude::*;
use crate::id::is_lower;

verus! {

/// The adjectives an id starts with.
pub open spec fn adjective_words() -> Seq<Seq<char>> {
    seq![
        "amber"@,
        "brave"@,
        "calm"@,
        "clever"@,
        "cosy"@,
        "daring"@,
        "eager"@,
        "fancy"@,
        "gentle"@,
        "happy"@,
        "jolly"@,
        "lively"@,
        "merry"@,
        "proud"@,
        "quiet"@,
        "swift"@,
    ]
}

/// The nouns an id ends with.
pub open spec fn noun_words() -> Seq<Seq<char>> {
    seq![
        "badger"@,
        "beacon"@,
        "comet"@,
        "falcon"@,
        "garden"@,
        "harbor"@,
        "island"@,
        "lantern"@,
        "meadow"@,
        "otter"@,
        "pebble"@,
        "river"@,
        "sparrow"@,
        "thistle"@,
        "valley"@,
        "willow"@,
    ]
}

/// A dictionary word: between 1 and 64 lower-case letters.
pub open spec fn dictionary_word(w: Seq<char>) -> bool {
    &&& 0 < w.len() <= 64
    &&& forall|i: int| 0 <= i < w.len() ==> is_lower(#[trigger] w[i])
}

/// Every word of both lists is a dictionary word.
pub proof fn lemma_words_are_dictionary_words()
    ensures
        forall|i: int| 0 <= i < adjective_words().len() ==> dictionary_word(#[trigger] adjective_words()[i]),
        forall|i: int| 0 <= i < noun_words().len() ==> dictionary_word(#[trigger] noun_words()[i]),
{
    reveal_strlit("amber");
    reveal_strlit("brave");
    reveal_strlit("calm");
    reveal_strlit("clever");
    reveal_strlit("cosy");
    reveal_strlit("daring");
    reveal_strlit("eager");
    reveal_strlit("fancy");
    reveal_strlit("gentle");
    reveal_strlit("happy");
    reveal_strlit("jolly");
    reveal_strlit("lively");
    reveal_strlit("merry");
    reveal_strlit("proud");
    reveal_strlit("quiet");
    reveal_strlit("swift");
    reveal_strlit("badger");
    reveal_strlit("beacon");
    reveal_strlit("comet");
    reveal_strlit("falcon");
    reveal_strlit("garden");
    reveal_strlit("harbor");
    reveal_strlit("island");
    reveal_strlit("lantern");
    reveal_strlit("meadow");
    reveal_strlit("otter");
    reveal_strlit("pebble");
    reveal_strlit("river");
    reveal_strlit("sparrow");
    reveal_strlit("thistle");
    reveal_strlit("valley");
    reveal_strlit("willow");
}

/// The adjectives, in order.
pub fn adjectives() -> (r: Vec<&'static str>)
    ensures
        r@.len() == adjective_words().len(),
        forall|i: int| 0 <= i < r@.len() ==> #[trigger] r@[i]@ == adjective_words()[i],
{
    let r = vec![
        "amber",
        "brave",
        "calm",
        "clever",
        "cosy",
        "daring",
        "eager",
        "fancy",
        "gentle",
        "happy",
        "jolly",
        "lively",
        "merry",
        "proud",
        "quiet",
        "swift",
    ];
    assert(r@.len() == adjective_words().len());
    r
}

/// The nouns, in order.
pub fn nouns() -> (r: Vec<&'static str>)
    ensures
        r@.len() == noun_words().len(),
        forall|i: int| 0 <= i < r@.len() ==> #[trigger] r@[i]@ == noun_words()[i],
{
    let r = vec![
        "badger",
        "beacon",
        "comet",
        "falcon",
        "garden",
        "harbor",
        "island",
        "lantern",
        "meadow",
        "otter",
        "pebble",
        "river",
        "sparrow",
        "thistle",
        "valley",
        "willow",
    ];
    assert(r@.len() == noun_words().len());
    r
}

} // verus!
