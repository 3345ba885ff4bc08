//! Names for new teams: an adjective and a noun, each picked at random.

use vstd::prelude::*;
use vstd::string::StringExecFns;
use rand::seq::SliceRandom;

verus! {

/// The adjectives a team name may begin with.
pub open spec fn adjectives() -> Seq<Seq<char>> {
    seq![
        "Coole"@,
        "Nice"@,
        "Mausige"@,
        "Tolle"@,
        "Kleine"@,
        "Große"@,
        "Slayende"@,
        "Musikalische"@,
        "Smarte"@,
        "Achtsame"@,
        "Fleißige"@,
        "Großartige"@,
        "Lässige"@,
        "Fabelhafte"@,
        "Famose"@,
        "Charmante"@,
        "Tiefsinnige"@,
        "Fesche"@,
        "Knorke"@,
        "Schnatternde"@,
        "Urige"@,
        "Fetzige"@,
        "Rücksichtsvolle"@,
        "Funkelnde"@,
        "Glitzernde"@,
        "Flauschige"@,
        "Solidarische"@,
        "Demokratische"@,
        "Autonome"@,
        "Knuddelige"@,
        "Hochbegabte"@,
        "Emsige"@,
        "Anmutige"@,
        "Empathische"@,
        "Rücksichtsvolle"@,
        "Geduldige"@,
    ]
}

/// The nouns a team name may end with.
pub open spec fn nouns() -> Seq<Seq<char>> {
    seq![
        "Mäuse"@,
        "Tapire"@,
        "Ameisenbären"@,
        "Dackel"@,
        "Otter"@,
        "Seehunde"@,
        "Löwen"@,
        "Pandas"@,
        "Igel"@,
        "Hasen"@,
        "Koalas"@,
        "Meerschweinchen"@,
        "Frösche"@,
        "Pinguine"@,
        "Wombats"@,
        "Kängurus"@,
        "Regenwürmer"@,
        "Giraffen"@,
        "Enten"@,
        "Elefanten"@,
        "Hummeln"@,
        "Schnecken"@,
        "Flamingos"@,
        "Delphine"@,
        "Kiwis"@,
        "Numbats"@,
        "Quokkas"@,
        "Fledermäuse"@,
        "Schwane"@,
        "Ohrenkneifer"@,
        "Blutegel"@,
        "Hippos"@,
        "Ameisen"@,
        "Biber"@,
        "Katzen"@,
        "Belugawale"@,
        "Hammerhaie"@,
    ]
}

/// Whether `name` is one of the names that can be generated: an adjective of
/// the list, one space and a noun of the list.
pub open spec fn is_generated_name(name: Seq<char>) -> bool {
    exists|i: int, j: int|
        0 <= i < adjectives().len() && 0 <= j < nouns().len() && name == #[trigger] adjectives()[i]
            + " "@ + #[trigger] nouns()[j]
}

/// What the words read as.
pub open spec fn words_view(words: Seq<&'static str>) -> Seq<Seq<char>> {
    words.map_values(|w: &'static str| w@)
}

/// The list of adjectives.
fn adjective_words() -> (words: Vec<&'static str>)
    ensures
        words_view(words@) == adjectives(),
{
    let words = vec![
        "Coole",
        "Nice",
        "Mausige",
        "Tolle",
        "Kleine",
        "Große",
        "Slayende",
        "Musikalische",
        "Smarte",
        "Achtsame",
        "Fleißige",
        "Großartige",
        "Lässige",
        "Fabelhafte",
        "Famose",
        "Charmante",
        "Tiefsinnige",
        "Fesche",
        "Knorke",
        "Schnatternde",
        "Urige",
        "Fetzige",
        "Rücksichtsvolle",
        "Funkelnde",
        "Glitzernde",
        "Flauschige",
        "Solidarische",
        "Demokratische",
        "Autonome",
        "Knuddelige",
        "Hochbegabte",
        "Emsige",
        "Anmutige",
        "Empathische",
        "Rücksichtsvolle",
        "Geduldige",
    ];
    assert(words_view(words@) =~= adjectives());
    words
}

/// The list of nouns.
fn noun_words() -> (words: Vec<&'static str>)
    ensures
        words_view(words@) == nouns(),
{
    let words = vec![
        "Mäuse",
        "Tapire",
        "Ameisenbären",
        "Dackel",
        "Otter",
        "Seehunde",
        "Löwen",
        "Pandas",
        "Igel",
        "Hasen",
        "Koalas",
        "Meerschweinchen",
        "Frösche",
        "Pinguine",
        "Wombats",
        "Kängurus",
        "Regenwürmer",
        "Giraffen",
        "Enten",
        "Elefanten",
        "Hummeln",
        "Schnecken",
        "Flamingos",
        "Delphine",
        "Kiwis",
        "Numbats",
        "Quokkas",
        "Fledermäuse",
        "Schwane",
        "Ohrenkneifer",
        "Blutegel",
        "Hippos",
        "Ameisen",
        "Biber",
        "Katzen",
        "Belugawale",
        "Hammerhaie",
    ];
    assert(words_view(words@) =~= nouns());
    words
}

/// Calls `rand::seq::SliceRandom::choose` on the words, with the generator
/// that `rand::thread_rng` hands out.
///
/// Trusted: that nothing is picked from an empty list, and that what is
/// picked from another list is one of its words. Which one is left open.
#[verifier::external_body]
fn pick(words: &Vec<&'static str>) -> (word: Option<&'static str>)
    ensures
        words@.len() == 0 ==> word is None,
        words@.len() > 0 ==> word is Some && words@.contains(word.unwrap()),
{
    words.choose(&mut rand::thread_rng()).copied()
}

/// Joins an adjective and a noun into a name.
pub fn compose_name(adjective: &str, noun: &str) -> (name: String)
    ensures
        name@ == adjective@ + " "@ + noun@,
{
    String::from_str(adjective).concat(" ").concat(noun)
}

/// Makes up a name for a new team.
pub fn random_name() -> (name: String)
    ensures
        is_generated_name(name@),
{
    let adjective_list = adjective_words();
    let noun_list = noun_words();
    let adjective = pick(&adjective_list);
    let noun = pick(&noun_list);
    match (adjective, noun) {
        (Some(a), Some(n)) => {
            let name = compose_name(a, n);
            proof {
                let i = choose|i: int| 0 <= i < adjective_list@.len() && adjective_list@[i] == a;
                let j = choose|j: int| 0 <= j < noun_list@.len() && noun_list@[j] == n;
                assert(words_view(adjective_list@)[i] == a@);
                assert(words_view(noun_list@)[j] == n@);
                assert(name@ == adjectives()[i] + " "@ + nouns()[j]);
            }
            name
        },
        _ => {
            proof {
                assert(words_view(adjective_list@).len() == adjectives().len());
                assert(words_view(noun_list@).len() == nouns().len());
            }
            String::new()
        },
    }
}

} // verus!
