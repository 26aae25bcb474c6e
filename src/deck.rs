//! Cards and decks: the seeded shuffle, the draw from the top of a deck, and
//! the rendering of a card with one text variant picked per field.
use vstd::prelude::*;
use vstd::string::*;
use crate::render::{push_titled, titled};
use rand::SeedableRng;
use rand::seq::SliceRandom;

pub mod test_utils;

verus! {

/// The two sets of interpretations of a card.
#[derive(PartialEq, Debug)]
pub struct Meaning {
    pub light: Vec<String>,
    pub shadow: Vec<String>,
}

#[derive(PartialEq, Debug)]
pub struct Card {
    pub rank: u8,
    pub suit: String,
    pub name: String,
    pub meanings: Meaning,
    pub keywords: Vec<String>,
    pub fortune_telling: Vec<String>,
}

/// An ordered sequence of cards with a display name.
#[derive(PartialEq, Debug)]
pub struct Deck {
    pub cards: Vec<Card>,
    pub name: String,
}

/// Drawing more cards than a deck holds.
#[derive(PartialEq, Eq, Debug, Clone, Copy, Structural)]
pub enum DrawError {
    NotEnoughCards,
}

/// `p` lists each of the indices `0..n` exactly once.
pub open spec fn is_index_permutation(p: Seq<int>, n: nat) -> bool {
    &&& p.len() == n
    &&& forall|i: int| 0 <= i < n ==> 0 <= #[trigger] p[i] < n
    &&& forall|i: int, j: int| 0 <= i < j < n ==> p[i] != p[j]
}

/// The sequence whose `k`-th element is `s[p[k]]`.
pub open spec fn reorder<T>(s: Seq<T>, p: Seq<int>) -> Seq<T> {
    Seq::new(p.len(), |k: int| s[p[k]])
}

/// The positions that a seeded shuffle of `len` items puts in front: after it,
/// place `k` holds the item that stood at `shuffle_order(seed, len)[k]`.
pub uninterp spec fn shuffle_order(seed: u64, len: nat) -> Seq<int>;

/// The order of a sequence of cards after shuffling it with `seed`.
pub open spec fn shuffled(cards: Seq<Card>, seed: u64) -> Seq<Card> {
    reorder(cards, shuffle_order(seed, cards.len()))
}

/// Relies on rand 0.7's `StdRng::seed_from_u64` and `SliceRandom::shuffle`:
/// a Fisher-Yates shuffle whose swaps are drawn from a generator seeded with
/// `seed` and bounded by the slice length alone, so it moves the items by one
/// permutation of their places that the seed and the length decide.
#[verifier::external_body]
fn shuffle_cards(cards: &mut Vec<Card>, seed: u64)
    ensures
        is_index_permutation(shuffle_order(seed, old(cards)@.len()), old(cards)@.len())
            && final(cards)@ == reorder(old(cards)@, shuffle_order(seed, old(cards)@.len())),
{
    let mut rng = rand::rngs::StdRng::seed_from_u64(seed);
    cards.shuffle(&mut rng);
}

/// Which variant index a generator seeded with `seed` picks from each of three
/// lists of the given lengths, chosen in turn: fortune, light, shadow.
pub uninterp spec fn variant_picks(seed: u64, fortunes: nat, lights: nat, shadows: nat) -> (
    int,
    int,
    int,
);

/// The element at `k`, or `None` for an empty list.
pub open spec fn chosen(v: Seq<String>, k: int) -> Option<String> {
    if v.len() == 0 {
        None
    } else {
        Some(v[k])
    }
}

/// `r` is the element at `k` of `v`, an index inside `v`, or `None` for an
/// empty `v`.
pub open spec fn picked_at(v: Seq<String>, k: int, r: Option<String>) -> bool {
    &&& v.len() > 0 ==> 0 <= k < v.len()
    &&& r == chosen(v, k)
}

/// Relies on rand 0.7's `StdRng::seed_from_u64` and `SliceRandom::choose`,
/// called on the three lists in turn with one generator: `choose` gives `None`
/// on an empty list and draws nothing then, else one element at an index drawn
/// below the list's length, so the three indices depend on the seed and the
/// three lengths alone.
#[verifier::external_body]
fn choose_variants(
    seed: u64,
    fortune: &Vec<String>,
    light: &Vec<String>,
    shadow: &Vec<String>,
) -> (r: (Option<String>, Option<String>, Option<String>))
    ensures
        picked_at(fortune@, variant_picks(seed, fortune@.len(), light@.len(), shadow@.len()).0, r.0),
        picked_at(light@, variant_picks(seed, fortune@.len(), light@.len(), shadow@.len()).1, r.1),
        picked_at(shadow@, variant_picks(seed, fortune@.len(), light@.len(), shadow@.len()).2, r.2),
{
    let mut rng = rand::rngs::StdRng::seed_from_u64(seed);
    let f = fortune.choose(&mut rng).cloned();
    let l = light.choose(&mut rng).cloned();
    let s = shadow.choose(&mut rng).cloned();
    (f, l, s)
}

/// The chosen variant's text, or `fallback` when there was none to choose.
pub open spec fn variant_or(v: Option<String>, fallback: Seq<char>) -> Seq<char> {
    match v {
        Some(s) => s@,
        None => fallback,
    }
}

/// The fortune line: the picked fortune, or "No Fortune".
pub open spec fn fortune_line(fortune: Option<String>) -> Seq<char> {
    variant_or(fortune, "No Fortune"@) + "\n"@
}

/// The light line: "Light: " and the picked meaning, or "No Light meaning".
pub open spec fn light_line(light: Option<String>) -> Seq<char> {
    "Light: "@ + variant_or(light, "No Light meaning"@) + "\n"@
}

/// The shadow line: "Shadow: " and the picked meaning, or "No Shadow
/// meaning".
pub open spec fn shadow_line(shadow: Option<String>) -> Seq<char> {
    "Shadow: "@ + variant_or(shadow, "No Shadow meaning"@) + "\n"@
}

/// The text block of a card named `name`, given the variants picked for it.
pub open spec fn card_lines(
    name: Seq<char>,
    fortune: Option<String>,
    light: Option<String>,
    shadow: Option<String>,
) -> Seq<char> {
    titled(name) + fortune_line(fortune) + light_line(light) + shadow_line(shadow)
}

/// The variants that `seed` picks for `card`.
pub open spec fn card_picks(card: Card, seed: u64) -> (Option<String>, Option<String>, Option<String>) {
    let k = variant_picks(
        seed,
        card.fortune_telling@.len(),
        card.meanings.light@.len(),
        card.meanings.shadow@.len(),
    );
    (
        chosen(card.fortune_telling@, k.0),
        chosen(card.meanings.light@, k.1),
        chosen(card.meanings.shadow@, k.2),
    )
}

/// The text block of `card` rendered with `seed`.
pub open spec fn card_text(card: Card, seed: u64) -> Seq<char> {
    let p = card_picks(card, seed);
    card_lines(card.name@, p.0, p.1, p.2)
}

fn push_variant(out: &mut String, v: &Option<String>, fallback: &str)
    ensures
        final(out)@ == old(out)@ + variant_or(*v, fallback@),
{
    match v {
        Some(s) => out.append(s.as_str()),
        None => out.append(fallback),
    }
}

impl Card {
    /// The card's block for the given picked variants: its name underlined,
    /// then the fortune, "Light: " and the light meaning, "Shadow: " and the
    /// shadow meaning, one per line, each with its fallback text when absent.
    pub fn print_chosen(
        &self,
        fortune: &Option<String>,
        light: &Option<String>,
        shadow: &Option<String>,
    ) -> (r: String)
        ensures
            r@ == card_lines(self.name@, *fortune, *light, *shadow),
    {
        let mut out = String::new();
        push_titled(&mut out, &self.name);
        push_variant(&mut out, fortune, "No Fortune");
        out.append("\n");
        out.append("Light: ");
        push_variant(&mut out, light, "No Light meaning");
        out.append("\n");
        out.append("Shadow: ");
        push_variant(&mut out, shadow, "No Shadow meaning");
        out.append("\n");
        assert(out@ =~= card_lines(self.name@, *fortune, *light, *shadow));
        out
    }

    /// The card's block, with the fortune, light and shadow variants picked in
    /// that order by a generator seeded with `seed`.
    pub fn print(&self, seed: u64) -> (r: String)
        ensures
            r@ == card_text(*self, seed),
    {
        let (f, l, s) = choose_variants(
            seed,
            &self.fortune_telling,
            &self.meanings.light,
            &self.meanings.shadow,
        );
        self.print_chosen(&f, &l, &s)
    }
}

impl Deck {
    /// Shuffles the cards in place; the new order depends on the seed and the
    /// old order alone.
    pub fn shuffle_deck(&mut self, seed: u64)
        ensures
            final(self).cards@ == shuffled(old(self).cards@, seed),
            is_index_permutation(shuffle_order(seed, old(self).cards@.len()), old(self).cards@.len()),
            final(self).name == old(self).name,
    {
        shuffle_cards(&mut self.cards, seed);
    }

    /// The first `count` cards, or an error when the deck holds fewer.
    pub fn draw(&self, count: usize) -> (r: Result<&[Card], DrawError>)
        ensures
            count <= self.cards@.len() ==> (r matches Ok(s) && s@ == self.cards@.subrange(0, count as int)
                && s@.len() == count),
            count > self.cards@.len() ==> r == Err::<&[Card], DrawError>(DrawError::NotEnoughCards),
    {
        if self.cards.len() < count {
            Err(DrawError::NotEnoughCards)
        } else {
            Ok(vstd::slice::slice_subrange(self.cards.as_slice(), 0, count))
        }
    }
}

/// Shuffling equal card sequences with one seed and drawing `n` cards from
/// each gives the same `n` cards: the draw depends on the seed and the deck's
/// contents alone.
pub proof fn lemma_same_seed_same_draw(a: Seq<Card>, b: Seq<Card>, seed: u64, n: int)
    requires
        a == b,
        0 <= n <= a.len(),
    ensures
        shuffled(a, seed).subrange(0, n) == shuffled(b, seed).subrange(0, n),
{
}

/// A card whose fortune, light or shadow list is empty shows the fallback
/// text on that line, whatever the seed.
pub proof fn lemma_empty_lists_fall_back(card: Card, seed: u64)
    ensures
        card_text(card, seed) == card_lines(
            card.name@,
            card_picks(card, seed).0,
            card_picks(card, seed).1,
            card_picks(card, seed).2,
        ),
        card.fortune_telling@.len() == 0 ==> fortune_line(card_picks(card, seed).0)
            == "No Fortune\n"@,
        card.meanings.light@.len() == 0 ==> light_line(card_picks(card, seed).1)
            == "Light: No Light meaning\n"@,
        card.meanings.shadow@.len() == 0 ==> shadow_line(card_picks(card, seed).2)
            == "Shadow: No Shadow meaning\n"@,
{
    reveal_strlit("No Fortune\n");
    reveal_strlit("No Fortune");
    reveal_strlit("\n");
    reveal_strlit("Light: No Light meaning\n");
    reveal_strlit("Light: ");
    reveal_strlit("No Light meaning");
    reveal_strlit("Shadow: No Shadow meaning\n");
    reveal_strlit("Shadow: ");
    reveal_strlit("No Shadow meaning");
    assert("No Fortune"@ + "\n"@ =~= "No Fortune\n"@);
    assert("Light: "@ + "No Light meaning"@ + "\n"@ =~= "Light: No Light meaning\n"@);
    assert("Shadow: "@ + "No Shadow meaning"@ + "\n"@ =~= "Shadow: No Shadow meaning\n"@);
}

} // verus!
