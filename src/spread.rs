//! Spreads of positions, and a spread filled with cards drawn from a shuffled
//! deck, paired in storage order.
use vstd::prelude::*;
use vstd::string::*;
use crate::deck::{card_text, shuffled, Card, Deck, DrawError};
use crate::deck::{card_lines, card_picks};
use crate::render::{lemma_titled_prefix, push_titled, starts_with_underlined, titled};

verus! {

#[derive(PartialEq, Eq, Debug, Clone, Copy, Structural)]
pub enum PosOrientation {
    Horizontal,
    Vertical,
}

/// One place of a spread. Only the name and the meaning are rendered; the
/// order, orientation and coordinates are layout hints.
#[derive(PartialEq, Debug)]
pub struct Position {
    pub order: u8,
    pub name: String,
    pub meaning: String,
    pub orientation: PosOrientation,
    pub x_pos: u8,
    pub y_pos: u8,
}

/// An ordered sequence of positions with a bounding box hint and a display
/// name.
#[derive(PartialEq, Debug)]
pub struct Spread {
    pub positions: Vec<Position>,
    pub position_x_size: u8,
    pub position_y_size: u8,
    pub name: String,
}

/// A spread paired with the cards drawn for it, borrowed from the deck they
/// were drawn from.
#[derive(PartialEq, Debug)]
pub struct FilledSpread<'a> {
    pub spread: Spread,
    pub cards: &'a [Card],
}

/// The block of a position: its name underlined, then its meaning.
pub open spec fn position_text(pos: Position) -> Seq<char> {
    titled(pos.name@) + pos.meaning@ + "\n"@
}

/// The line shown after each block of an interactive reading, before it waits.
pub open spec fn pause_prompt() -> Seq<char> {
    "Press ENTER to draw next card\n"@
}

/// The text for one position and its card: the position's block, a blank
/// line, the card's block, a blank line, a line of thirty `=` and a blank line,
/// then the pause prompt in an interactive reading.
pub open spec fn pair_text(pos: Position, card: Card, seed: u64, interactive: bool) -> Seq<char> {
    position_text(pos) + "\n"@ + card_text(card, seed) + "\n"@ + separator() + "\n"@ + "\n"@ + (
    if interactive {
        pause_prompt()
    } else {
        Seq::empty()
    })
}

/// Thirty `=`.
pub open spec fn separator() -> Seq<char> {
    Seq::new(30, |i: int| '=')
}

/// Number of (position, card) pairs that a filled spread renders.
pub open spec fn pair_count(positions: nat, cards: nat) -> nat {
    if positions <= cards {
        positions
    } else {
        cards
    }
}

impl Position {
    /// The position's name underlined by dashes, then its meaning.
    pub fn print(&self) -> (r: String)
        ensures
            r@ == position_text(*self),
    {
        let mut out = String::new();
        push_titled(&mut out, &self.name);
        out.append(self.meaning.as_str());
        out.append("\n");
        out
    }
}

fn push_separator(out: &mut String)
    ensures
        final(out)@ == old(out)@ + separator(),
{
    let ghost start = out@;
    let mut i: usize = 0;
    while i < 30
        invariant
            i <= 30,
            out@ == start + Seq::new(i as nat, |j: int| '='),
        decreases 30 - i,
    {
        proof {
            reveal_strlit("=");
        }
        out.append("=");
        i = i + 1;
        assert(out@ =~= start + Seq::new(i as nat, |j: int| '='));
    }
    assert(out@ =~= start + separator());
}

impl<'a> FilledSpread<'a> {
    /// Shuffles `deck` with `seed` and pairs the spread's positions, in
    /// storage order, with as many cards from the top of the shuffled deck;
    /// fails when the deck holds fewer cards than the spread has positions.
    pub fn new(spread: Spread, deck: &'a mut Deck, seed: u64) -> (r: Result<FilledSpread<'a>, DrawError>)
        ensures
            final(deck).cards@ == shuffled(old(deck).cards@, seed),
            final(deck).name == old(deck).name,
            spread.positions@.len() <= old(deck).cards@.len() ==> (r matches Ok(f) && f.spread == spread
                && f.cards@ == shuffled(old(deck).cards@, seed).subrange(
                0,
                spread.positions@.len() as int,
            )),
            spread.positions@.len() > old(deck).cards@.len() ==> r == Err::<FilledSpread<'a>, DrawError>(
                DrawError::NotEnoughCards,
            ),
    {
        deck.shuffle_deck(seed);
        let pos_count = spread.positions.len();
        let d: &'a Deck = deck;
        match d.draw(pos_count) {
            Ok(cards) => Ok(FilledSpread { spread, cards }),
            Err(e) => Err(e),
        }
    }

    /// One text per (position, card) pair, in storage order, for as many
    /// pairs as the shorter of the two holds. Each is meant to be written out
    /// whole; in an interactive reading each ends with the pause prompt, and
    /// the reader is waited for after it.
    pub fn print(&self, interactive: bool, seed: u64) -> (r: Vec<String>)
        ensures
            r@.len() == pair_count(self.spread.positions@.len(), self.cards@.len()),
            forall|i: int|
                0 <= i < r@.len() ==> #[trigger] r@[i]@ == pair_text(
                    self.spread.positions@[i],
                    self.cards@[i],
                    seed,
                    interactive,
                ),
    {
        let n_pos = self.spread.positions.len();
        let n_cards = self.cards.len();
        let n: usize = if n_pos <= n_cards {
            n_pos
        } else {
            n_cards
        };
        let mut blocks: Vec<String> = Vec::new();
        let mut i: usize = 0;
        while i < n
            invariant
                n == pair_count(self.spread.positions@.len(), self.cards@.len()),
                n <= self.spread.positions@.len(),
                n <= self.cards@.len(),
                i <= n,
                blocks@.len() == i,
                forall|j: int|
                    0 <= j < i ==> #[trigger] blocks@[j]@ == pair_text(
                        self.spread.positions@[j],
                        self.cards@[j],
                        seed,
                        interactive,
                    ),
            decreases n - i,
        {
            let pos = &self.spread.positions[i];
            let card = &self.cards[i];
            let mut text = pos.print();
            text.append("\n");
            let card_block = card.print(seed);
            text.append(card_block.as_str());
            text.append("\n");
            push_separator(&mut text);
            text.append("\n");
            text.append("\n");
            if interactive {
                text.append("Press ENTER to draw next card\n");
            }
            assert(text@ =~= pair_text(*pos, *card, seed, interactive));
            blocks.push(text);
            i = i + 1;
        }
        blocks
    }
}

/// Every rendered title, of a position or of a card, is followed by a line of
/// exactly as many dashes as the title has characters: in the blocks of each
/// and in the text of the pair they form.
pub proof fn lemma_titles_underlined(pos: Position, card: Card, seed: u64, interactive: bool)
    ensures
        starts_with_underlined(position_text(pos), pos.name@),
        starts_with_underlined(card_text(card, seed), card.name@),
        starts_with_underlined(pair_text(pos, card, seed, interactive), pos.name@),
        starts_with_underlined(
            pair_text(pos, card, seed, interactive).subrange(
                position_text(pos).len() as int + 1,
                pair_text(pos, card, seed, interactive).len() as int,
            ),
            card.name@,
        ),
{
    let p = card_picks(card, seed);
    let pos_rest = pos.meaning@ + "\n"@;
    let card_rest = card_lines(card.name@, p.0, p.1, p.2).subrange(
        titled(card.name@).len() as int,
        card_text(card, seed).len() as int,
    );
    assert(position_text(pos) =~= titled(pos.name@) + pos_rest);
    lemma_titled_prefix(pos.name@, pos_rest);
    assert(card_text(card, seed) =~= titled(card.name@) + card_rest);
    lemma_titled_prefix(card.name@, card_rest);
    let whole = pair_text(pos, card, seed, interactive);
    let after = whole.subrange(position_text(pos).len() as int + 1, whole.len() as int);
    let pair_rest = whole.subrange(titled(pos.name@).len() as int, whole.len() as int);
    assert(whole =~= titled(pos.name@) + pair_rest);
    lemma_titled_prefix(pos.name@, pair_rest);
    reveal_strlit("\n");
    let after_rest = after.subrange(titled(card.name@).len() as int, after.len() as int);
    assert(after =~= titled(card.name@) + after_rest);
    lemma_titled_prefix(card.name@, after_rest);
}

} // verus!
