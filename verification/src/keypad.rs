//! The mapping from a QWERTY keyboard to the hexadecimal CHIP-8 keypad.
//!
//! ```text
//!     Keyboard                    Chip-8
//!     +---+---+---+---+           +---+---+---+---+
//!     | 1 | 2 | 3 | 4 |           | 1 | 2 | 3 | C |
//!     +---+---+---+---+           +---+---+---+---+
//!     | Q | W | E | R |           | 4 | 5 | 6 | D |
//!     +---+---+---+---+     =>    +---+---+---+---+
//!     | A | S | D | F |           | 7 | 8 | 9 | E |
//!     +---+---+---+---+           +---+---+---+---+
//!     | Z | X | C | V |           | A | 0 | B | F |
//!     +---+---+---+---+           +---+---+---+---+
//! ```

use vstd::prelude::*;

verus! {

/// The keypad button bound to the keyboard key labelled `c`
/// (lower-case letters and digits), if any.
pub open spec fn keypad_button(c: char) -> Option<usize> {
    if c == '1' { Some(0x1usize) }
    else if c == '2' { Some(0x2usize) }
    else if c == '3' { Some(0x3usize) }
    else if c == '4' { Some(0xCusize) }
    else if c == 'q' { Some(0x4usize) }
    else if c == 'w' { Some(0x5usize) }
    else if c == 'e' { Some(0x6usize) }
    else if c == 'r' { Some(0xDusize) }
    else if c == 'a' { Some(0x7usize) }
    else if c == 's' { Some(0x8usize) }
    else if c == 'd' { Some(0x9usize) }
    else if c == 'f' { Some(0xEusize) }
    else if c == 'z' { Some(0xAusize) }
    else if c == 'x' { Some(0x0usize) }
    else if c == 'c' { Some(0xBusize) }
    else if c == 'v' { Some(0xFusize) }
    else { None }
}

/// The keypad button bound to a key whose label is `key`: a key label is a
/// single character, so anything longer or empty has no button.
pub open spec fn key_label_button(key: Seq<char>) -> Option<usize> {
    if key.len() == 1 { keypad_button(key[0]) } else { None }
}

/// The keyboard keys, row by row as they sit on the keyboard.
pub open spec fn keyboard_grid() -> Seq<char> {
    seq!['1', '2', '3', '4', 'q', 'w', 'e', 'r', 'a', 's', 'd', 'f', 'z', 'x', 'c', 'v']
}

/// The keypad buttons, row by row as they sit on the CHIP-8 keypad.
pub open spec fn keypad_grid() -> Seq<usize> {
    seq![0x1usize, 0x2, 0x3, 0xC, 0x4, 0x5, 0x6, 0xD, 0x7, 0x8, 0x9, 0xE, 0xA, 0x0, 0xB, 0xF]
}

/// The key at a given row and column of the keyboard block presses the
/// button at the same row and column of the keypad, and no other key
/// presses anything.
pub proof fn law_keypad_layout(c: char)
    ensures
        forall|k: int| 0 <= k < 16 ==> keypad_button(#[trigger] keyboard_grid()[k]) == Some(keypad_grid()[k]),
        keypad_button(c) is Some ==> keyboard_grid().contains(c),
{
    assert(keyboard_grid()[0] == '1' && keyboard_grid()[1] == '2' && keyboard_grid()[2] == '3');
    assert(keyboard_grid()[3] == '4' && keyboard_grid()[4] == 'q' && keyboard_grid()[5] == 'w');
    assert(keyboard_grid()[6] == 'e' && keyboard_grid()[7] == 'r' && keyboard_grid()[8] == 'a');
    assert(keyboard_grid()[9] == 's' && keyboard_grid()[10] == 'd' && keyboard_grid()[11] == 'f');
    assert(keyboard_grid()[12] == 'z' && keyboard_grid()[13] == 'x' && keyboard_grid()[14] == 'c');
    assert(keyboard_grid()[15] == 'v');
}

/// No two keys share a button, and every one of the sixteen buttons has
/// a key.
pub proof fn law_keypad_is_one_to_one(c1: char, c2: char, b: usize)
    requires
        b < 16,
    ensures
        keypad_button(c1) is Some && keypad_button(c1) == keypad_button(c2) ==> c1 == c2,
        exists|c: char| keypad_button(c) == Some(b),
{
    if b == 0x0 { assert(keypad_button('x') == Some(b)); }
    else if b == 0x1 { assert(keypad_button('1') == Some(b)); }
    else if b == 0x2 { assert(keypad_button('2') == Some(b)); }
    else if b == 0x3 { assert(keypad_button('3') == Some(b)); }
    else if b == 0x4 { assert(keypad_button('q') == Some(b)); }
    else if b == 0x5 { assert(keypad_button('w') == Some(b)); }
    else if b == 0x6 { assert(keypad_button('e') == Some(b)); }
    else if b == 0x7 { assert(keypad_button('a') == Some(b)); }
    else if b == 0x8 { assert(keypad_button('s') == Some(b)); }
    else if b == 0x9 { assert(keypad_button('d') == Some(b)); }
    else if b == 0xA { assert(keypad_button('z') == Some(b)); }
    else if b == 0xB { assert(keypad_button('c') == Some(b)); }
    else if b == 0xC { assert(keypad_button('4') == Some(b)); }
    else if b == 0xD { assert(keypad_button('r') == Some(b)); }
    else if b == 0xE { assert(keypad_button('f') == Some(b)); }
    else { assert(keypad_button('v') == Some(b)); }
}

/// Maps the label of a keyboard key (as a browser reports it, e.g. `"q"`)
/// to the CHIP-8 keypad button it stands for.
pub fn key_to_button(key: &str) -> (button: Option<usize>)
    ensures
        button == key_label_button(key@),
        button matches Some(b) ==> b < 16,
{
    let mut chars = key.chars();
    let first = chars.next();
    let second = chars.next();
    match (first, second) {
        (Some(c), None) => {
            match c {
                '1' => Some(0x1),
                '2' => Some(0x2),
                '3' => Some(0x3),
                '4' => Some(0xC),
                'q' => Some(0x4),
                'w' => Some(0x5),
                'e' => Some(0x6),
                'r' => Some(0xD),
                'a' => Some(0x7),
                's' => Some(0x8),
                'd' => Some(0x9),
                'f' => Some(0xE),
                'z' => Some(0xA),
                'x' => Some(0x0),
                'c' => Some(0xB),
                'v' => Some(0xF),
                _ => None,
            }
        },
        _ => None,
    }
}

} // verus!
