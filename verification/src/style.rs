//! Style selection: pure rules mapping a row's final position to its
//! background band and an entry's kind to its name color, kept separate
//! from line formatting so the rules are checkable on their own.

use vstd::prelude::*;

use crate::entry::EntryType;
use crate::is_even;

verus! {

/// The background style of a rendered row.
#[derive(Clone, Copy, PartialEq, Eq, Structural, Debug)]
pub enum RowBackground {
    /// The band used on even final positions.
    BrightBlack,
    /// The band used on odd final positions.
    Black,
}

/// The foreground color of the name field.
#[derive(Clone, Copy, PartialEq, Eq, Structural, Debug)]
pub enum NameColor {
    /// Used for file entries.
    Green,
    /// Used for directory entries.
    Blue,
}

/// The background band for a row at the given final position: the bands
/// alternate by position parity.
pub open spec fn row_background_of(position: nat) -> RowBackground {
    if position % 2 == 0 {
        RowBackground::BrightBlack
    } else {
        RowBackground::Black
    }
}

/// The name color for an entry of the given kind.
pub open spec fn name_color_of(kind: EntryType) -> NameColor {
    match kind {
        EntryType::File => NameColor::Green,
        EntryType::Dir => NameColor::Blue,
    }
}

/// Selects the background band for a row by the parity of its final
/// position.
pub fn row_background(position: usize) -> (r: RowBackground)
    ensures
        r == row_background_of(position as nat),
{
    if is_even(position) {
        RowBackground::BrightBlack
    } else {
        RowBackground::Black
    }
}

/// Selects the name color for an entry kind.
pub fn name_color(kind: EntryType) -> (r: NameColor)
    ensures
        r == name_color_of(kind),
{
    match kind {
        EntryType::File => NameColor::Green,
        EntryType::Dir => NameColor::Blue,
    }
}

/// Banding: rows two positions apart share a background, and adjacent
/// rows never do.
pub proof fn lemma_row_banding(position: nat)
    ensures
        row_background_of(position) == row_background_of(position + 2),
        row_background_of(position) != row_background_of(position + 1),
{
}

} // verus!
