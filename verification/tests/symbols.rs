use macmon_graph::symbols::{SymbolSet, BLOCK_DOWN, BLOCK_UP, BRAILLE_DOWN, BRAILLE_UP, TTY};

#[test]
fn braille_corners() {
    assert_eq!(BRAILLE_UP[0], ' '); // both zero
    assert_eq!(BRAILLE_UP[24], '⣿'); // both max (4*5+4)
    assert_eq!(BRAILLE_UP[4], '⢸'); // left=0, right=4
    assert_eq!(BRAILLE_UP[20], '⡇'); // left=4, right=0
}

#[test]
fn table_selection() {
    let t = SymbolSet::Braille.table(false);
    assert_eq!(t[0], ' ');
    let t = SymbolSet::Braille.table(true);
    assert_eq!(t[0], ' ');
    assert_ne!(t[1], BRAILLE_UP[1]); // inverted uses different chars
}

#[test]
fn each_set_picks_its_tables() {
    assert_eq!(SymbolSet::Braille.table(false), &BRAILLE_UP);
    assert_eq!(SymbolSet::Braille.table(true), &BRAILLE_DOWN);
    assert_eq!(SymbolSet::Block.table(false), &BLOCK_UP);
    assert_eq!(SymbolSet::Block.table(true), &BLOCK_DOWN);
    assert_eq!(SymbolSet::TTY.table(false), &TTY);
    assert_eq!(SymbolSet::TTY.table(true), &TTY);
}

#[test]
fn blank_and_full_corners() {
    for set in [SymbolSet::Braille, SymbolSet::Block, SymbolSet::TTY] {
        for invert in [false, true] {
            let t = set.table(invert);
            assert_eq!(t[0], ' ');
            assert_ne!(t[24], ' ');
        }
    }
    assert_eq!(BLOCK_UP[24], '█');
    assert_eq!(BRAILLE_DOWN[24], '⣿');
    assert_eq!(TTY[24], '█');
    assert_eq!(SymbolSet::default(), SymbolSet::Braille);
}
