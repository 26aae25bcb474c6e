//! A small sample deck, used to exercise the shuffle, the draw and the
//! rendering.
use vstd::prelude::*;
use vstd::string::*;
use crate::deck::{Card, Deck, Meaning};

verus! {

fn text(s: &str) -> (r: String)
    ensures
        r@ == s@,
{
    String::from_str(s)
}

fn sample_card(
    rank: u8,
    suffix: &str,
    light: Vec<String>,
    shadow: Vec<String>,
    keywords: Vec<String>,
    fortunes: Vec<String>,
) -> (r: Card)
    ensures
        r.rank == rank,
        r.suit@ == "test_suit"@ + suffix@,
        r.name@ == "test_name"@ + suffix@,
        r.meanings.light == light,
        r.meanings.shadow == shadow,
        r.keywords == keywords,
        r.fortune_telling == fortunes,
{
    let mut suit = text("test_suit");
    suit.append(suffix);
    let mut name = text("test_name");
    name.append(suffix);
    Card {
        rank,
        suit,
        name,
        meanings: Meaning { light, shadow },
        keywords,
        fortune_telling: fortunes,
    }
}

/// The card "test_name" of suit "test_suit", rank 0, with two variants in each
/// of its lists.
pub fn return_test_card() -> (r: Card)
    ensures
        r.rank == 0,
        r.suit@ == "test_suit"@,
        r.name@ == "test_name"@,
        r.meanings.light@.len() == 2,
        r.meanings.light@[0]@ == "light_meaning"@,
        r.meanings.light@[1]@ == "light_meaning2"@,
        r.meanings.shadow@.len() == 2,
        r.meanings.shadow@[0]@ == "shadow_meaning"@,
        r.meanings.shadow@[1]@ == "shadow_meaning2"@,
        r.keywords@.len() == 2,
        r.keywords@[0]@ == "test_keyword"@,
        r.keywords@[1]@ == "test_keyword1"@,
        r.fortune_telling@.len() == 2,
        r.fortune_telling@[0]@ == "test_fortune"@,
        r.fortune_telling@[1]@ == "test_fortune1"@,
{
    proof {
        reveal_strlit("");
    }
    let r = sample_card(
        0,
        "",
        vec![text("light_meaning"), text("light_meaning2")],
        vec![text("shadow_meaning"), text("shadow_meaning2")],
        vec![text("test_keyword"), text("test_keyword1")],
        vec![text("test_fortune"), text("test_fortune1")],
    );
    assert(r.suit@ =~= "test_suit"@);
    assert(r.name@ =~= "test_name"@);
    r
}

/// The deck "test deck": `return_test_card()`, then "test_name1" and
/// "test_name2" (ranks 1 and 2, suits "test_suit1" and "test_suit2"), each of
/// these two with one variant per list.
pub fn return_test_deck() -> (r: Deck)
    ensures
        r.name@ == "test deck"@,
        r.cards@.len() == 3,
        r.cards@[0].name@ == "test_name"@,
        r.cards@[1].name@ == "test_name1"@,
        r.cards@[2].name@ == "test_name2"@,
        forall|i: int| 0 <= i < 3 ==> #[trigger] r.cards@[i].rank == i,
        r.cards@[1].fortune_telling@.len() == 1,
        r.cards@[1].fortune_telling@[0]@ == "test_fortune1"@,
        r.cards@[2].fortune_telling@.len() == 1,
        r.cards@[2].fortune_telling@[0]@ == "test_fortune2"@,
{
    let first = return_test_card();
    let second = sample_card(
        1,
        "1",
        vec![text("light_meaning1")],
        vec![text("shadow_meaning1")],
        vec![text("test_keyword1")],
        vec![text("test_fortune1")],
    );
    let third = sample_card(
        2,
        "2",
        vec![text("light_meaning2")],
        vec![text("shadow_meaning2")],
        vec![text("test_keyword2")],
        vec![text("test_fortune2")],
    );
    proof {
        reveal_strlit("test_name");
        reveal_strlit("test_name1");
        reveal_strlit("test_name2");
        reveal_strlit("1");
        reveal_strlit("2");
    }
    assert(second.name@ =~= "test_name1"@);
    assert(third.name@ =~= "test_name2"@);
    Deck { cards: vec![first, second, third], name: text("test deck") }
}

} // verus!
