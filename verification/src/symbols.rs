//! The 5×5 symbol tables used to draw a graph.
//!
//! Each character shows two consecutive samples, each quantized to a level
//! in `0..=4`. The character for a pair sits at index `left * 5 + right`,
//! where `left` is the older sample and `right` the newer one.
use vstd::prelude::*;

verus! {

/// Which family of characters a graph is drawn with.
#[derive(Debug, Clone, Copy, PartialEq, Eq, Structural)]
pub enum SymbolSet {
    /// Braille dot patterns: 4×2 dots per cell, the smoothest curve.
    Braille,
    /// Half-block characters: twice the vertical resolution of a cell.
    Block,
    /// Shade characters, which every terminal can show.
    TTY,
}

impl Default for SymbolSet {
    fn default() -> (s: Self)
        ensures
            s == SymbolSet::Braille,
    {
        SymbolSet::Braille
    }
}

/// Braille characters for a graph that grows upwards.
pub const BRAILLE_UP: [char; 25] = [
    ' ', '⢀', '⢠', '⢰', '⢸',
    '⡀', '⣀', '⣠', '⣰', '⣸',
    '⡄', '⣄', '⣤', '⣴', '⣼',
    '⡆', '⣆', '⣦', '⣶', '⣾',
    '⡇', '⣇', '⣧', '⣷', '⣿',
];

/// Braille characters for a graph that hangs downwards.
pub const BRAILLE_DOWN: [char; 25] = [
    ' ', '⠈', '⠘', '⠸', '⢸',
    '⠁', '⠉', '⠙', '⠹', '⢹',
    '⠃', '⠋', '⠛', '⠻', '⢻',
    '⠇', '⠏', '⠟', '⠿', '⢿',
    '⡇', '⡏', '⡟', '⡿', '⣿',
];

/// Half-block characters for a graph that grows upwards.
pub const BLOCK_UP: [char; 25] = [
    ' ', '▗', '▗', '▐', '▐',
    '▖', '▄', '▄', '▟', '▟',
    '▖', '▄', '▄', '▟', '▟',
    '▌', '▙', '▙', '█', '█',
    '▌', '▙', '▙', '█', '█',
];

/// Half-block characters for a graph that hangs downwards.
pub const BLOCK_DOWN: [char; 25] = [
    ' ', '▝', '▝', '▐', '▐',
    '▘', '▀', '▀', '▜', '▜',
    '▘', '▀', '▀', '▜', '▜',
    '▌', '▛', '▛', '█', '█',
    '▌', '▛', '▛', '█', '█',
];

/// Shade characters; the same table serves both directions.
pub const TTY: [char; 25] = [
    ' ', '░', '░', '▒', '▒',
    '░', '░', '▒', '▒', '█',
    '░', '▒', '▒', '▒', '█',
    '▒', '▒', '▒', '█', '█',
    '▒', '█', '█', '█', '█',
];

/// The table that `set` uses, upwards or (with `invert`) downwards.
pub open spec fn symbol_table(set: SymbolSet, invert: bool) -> Seq<char> {
    match set {
        SymbolSet::Braille => if invert { BRAILLE_DOWN@ } else { BRAILLE_UP@ },
        SymbolSet::Block => if invert { BLOCK_DOWN@ } else { BLOCK_UP@ },
        SymbolSet::TTY => TTY@,
    }
}

impl SymbolSet {
    /// The 25-entry lookup table of this set; `invert` selects the table
    /// for a graph drawn top-down.
    pub fn table(&self, invert: bool) -> (t: &'static [char; 25])
        ensures
            t@ == symbol_table(*self, invert),
            t@.len() == 25,
            t@[0] == ' ',
    {
        match (self, invert) {
            (SymbolSet::Braille, false) => &BRAILLE_UP,
            (SymbolSet::Braille, true) => &BRAILLE_DOWN,
            (SymbolSet::Block, false) => &BLOCK_UP,
            (SymbolSet::Block, true) => &BLOCK_DOWN,
            (SymbolSet::TTY, _) => &TTY,
        }
    }
}

/// Every table has 25 entries, shows two zero samples as a blank and two
/// full samples as a mark; the shade table serves both directions, while
/// the braille and block tables differ between them.
pub proof fn lemma_tables(set: SymbolSet, invert: bool)
    ensures
        symbol_table(set, invert).len() == 25,
        symbol_table(set, invert)[0] == ' ',
        symbol_table(set, invert)[24] != ' ',
        symbol_table(SymbolSet::TTY, true) == symbol_table(SymbolSet::TTY, false),
        set != SymbolSet::TTY ==> symbol_table(set, true) != symbol_table(set, false),
{
    assert(BRAILLE_UP@[1] != BRAILLE_DOWN@[1]);
    assert(BLOCK_UP@[1] != BLOCK_DOWN@[1]);
}

/// The tables as the characters each set draws, row by row of left level:
/// the upright braille and block tables fill from the bottom, the inverted
/// ones from the top, and the shade table darkens with both levels.
pub proof fn lemma_table_contents()
    ensures
        symbol_table(SymbolSet::Braille, false) == seq![
                ' ', '⢀', '⢠', '⢰', '⢸',
                '⡀', '⣀', '⣠', '⣰', '⣸',
                '⡄', '⣄', '⣤', '⣴', '⣼',
                '⡆', '⣆', '⣦', '⣶', '⣾',
                '⡇', '⣇', '⣧', '⣷', '⣿',
            ],
        symbol_table(SymbolSet::Braille, true) == seq![
                ' ', '⠈', '⠘', '⠸', '⢸',
                '⠁', '⠉', '⠙', '⠹', '⢹',
                '⠃', '⠋', '⠛', '⠻', '⢻',
                '⠇', '⠏', '⠟', '⠿', '⢿',
                '⡇', '⡏', '⡟', '⡿', '⣿',
            ],
        symbol_table(SymbolSet::Block, false) == seq![
                ' ', '▗', '▗', '▐', '▐',
                '▖', '▄', '▄', '▟', '▟',
                '▖', '▄', '▄', '▟', '▟',
                '▌', '▙', '▙', '█', '█',
                '▌', '▙', '▙', '█', '█',
            ],
        symbol_table(SymbolSet::Block, true) == seq![
                ' ', '▝', '▝', '▐', '▐',
                '▘', '▀', '▀', '▜', '▜',
                '▘', '▀', '▀', '▜', '▜',
                '▌', '▛', '▛', '█', '█',
                '▌', '▛', '▛', '█', '█',
            ],
        symbol_table(SymbolSet::TTY, false) == seq![
                ' ', '░', '░', '▒', '▒',
                '░', '░', '▒', '▒', '█',
                '░', '▒', '▒', '▒', '█',
                '▒', '▒', '▒', '█', '█',
                '▒', '█', '█', '█', '█',
            ],
{
    assert(symbol_table(SymbolSet::Braille, false) =~= seq![
                ' ', '⢀', '⢠', '⢰', '⢸',
                '⡀', '⣀', '⣠', '⣰', '⣸',
                '⡄', '⣄', '⣤', '⣴', '⣼',
                '⡆', '⣆', '⣦', '⣶', '⣾',
                '⡇', '⣇', '⣧', '⣷', '⣿',
            ]);
    assert(symbol_table(SymbolSet::Braille, true) =~= seq![
                ' ', '⠈', '⠘', '⠸', '⢸',
                '⠁', '⠉', '⠙', '⠹', '⢹',
                '⠃', '⠋', '⠛', '⠻', '⢻',
                '⠇', '⠏', '⠟', '⠿', '⢿',
                '⡇', '⡏', '⡟', '⡿', '⣿',
            ]);
    assert(symbol_table(SymbolSet::Block, false) =~= seq![
                ' ', '▗', '▗', '▐', '▐',
                '▖', '▄', '▄', '▟', '▟',
                '▖', '▄', '▄', '▟', '▟',
                '▌', '▙', '▙', '█', '█',
                '▌', '▙', '▙', '█', '█',
            ]);
    assert(symbol_table(SymbolSet::Block, true) =~= seq![
                ' ', '▝', '▝', '▐', '▐',
                '▘', '▀', '▀', '▜', '▜',
                '▘', '▀', '▀', '▜', '▜',
                '▌', '▛', '▛', '█', '█',
                '▌', '▛', '▛', '█', '█',
            ]);
    assert(symbol_table(SymbolSet::TTY, false) =~= seq![
                ' ', '░', '░', '▒', '▒',
                '░', '░', '▒', '▒', '█',
                '░', '▒', '▒', '▒', '█',
                '▒', '▒', '▒', '█', '█',
                '▒', '█', '█', '█', '█',
            ]);
}

} // verus!
