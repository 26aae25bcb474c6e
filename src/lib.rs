//! A terminal divination reading: decks of cards and spreads of positions,
//! a seeded shuffle and draw, and the rendering of a filled spread as text.
use vstd::prelude::*;

pub mod default_files;
pub mod deck;
pub mod render;
pub mod spread;
pub mod stored_element;
