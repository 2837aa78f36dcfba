use vstd::prelude::*;

use crate::event::{codepoint_of, is_raw_key, Event, EventSource};

verus! {

/// A decoded key press.
#[derive(Copy, Clone, PartialEq, Eq, Structural, Hash, Debug)]
pub enum Key {
    Tab,
    Enter,
    Esc,
    Backspace,
    Right,
    Left,
    Up,
    Down,
    Delete,
    Insert,
    Home,
    End,
    PageUp,
    PageDown,
    CtrlLeft,
    CtrlRight,
    AltLeft,
    AltRight,
    Char(char),
    Ctrl(char),
    F(u32),
    /// A special code with no key of its own; the decoder does not produce
    /// it, and reports such codes as `None`.
    Unknown(u16),
}

/// The key that a special code stands for, if any.
///
/// Codes 1 to 26 are Ctrl with the letters `a` to `z`, except for 9 (Tab) and
/// 13 (Enter); 27 is Esc; 28 to 31 are Ctrl with `\`, `]`, `6` and `/`; 32 is
/// the space character; 127 is Backspace; the block from 65514 up holds the
/// navigation keys and, from 65524 on, the function keys in descending order.
pub open spec fn special_code_key(code: u16) -> Option<Key> {
    if code == 9 {
        Some(Key::Tab)
    } else if code == 13 {
        Some(Key::Enter)
    } else if 1 <= code <= 26 {
        Some(Key::Ctrl(((code + 96) as u32) as char))
    } else if code == 27 {
        Some(Key::Esc)
    } else if code == 28 {
        Some(Key::Ctrl('\\'))
    } else if code == 29 {
        Some(Key::Ctrl(']'))
    } else if code == 30 {
        Some(Key::Ctrl('6'))
    } else if code == 31 {
        Some(Key::Ctrl('/'))
    } else if code == 32 {
        Some(Key::Char(' '))
    } else if code == 127 {
        Some(Key::Backspace)
    } else if code == 65514 {
        Some(Key::Right)
    } else if code == 65515 {
        Some(Key::Left)
    } else if code == 65516 {
        Some(Key::Down)
    } else if code == 65517 {
        Some(Key::Up)
    } else if code == 65518 {
        Some(Key::PageDown)
    } else if code == 65519 {
        Some(Key::PageUp)
    } else if code == 65520 {
        Some(Key::End)
    } else if code == 65521 {
        Some(Key::Home)
    } else if code == 65522 {
        Some(Key::Delete)
    } else if code == 65523 {
        Some(Key::Insert)
    } else if code >= 65524 {
        Some(Key::F((65536 - code) as u32))
    } else {
        None
    }
}

/// Whether `ch` is a Unicode scalar value, that is a valid `char`.
pub open spec fn is_scalar_value(ch: u32) -> bool {
    ch <= 0x10FFFF && !(0xD800 <= ch <= 0xDFFF)
}

/// The key of a plain character event with codepoint `ch`.
pub open spec fn char_key(ch: u32) -> Option<Key> {
    if is_scalar_value(ch) {
        Some(Key::Char(ch as char))
    } else {
        None
    }
}

/// The escape sequence `ESC [ 1 ; m d` of a modified arrow key, as codepoints.
pub open spec fn csi_arrow(modifier: char, direction: char) -> Seq<u32> {
    seq![0x1Bu32, '[' as u32, '1' as u32, ';' as u32, modifier as u32, direction as u32]
}

/// The key of a chord that began with `start`: one of the four modified arrow
/// sequences matched exactly, else what the special code `start` stands for.
pub open spec fn chord_key(chord: Seq<u32>, start: u16) -> Option<Key> {
    if chord == csi_arrow('3', 'C') {
        Some(Key::AltRight)
    } else if chord == csi_arrow('3', 'D') {
        Some(Key::AltLeft)
    } else if chord == csi_arrow('5', 'C') {
        Some(Key::CtrlRight)
    } else if chord == csi_arrow('5', 'D') {
        Some(Key::CtrlLeft)
    } else {
        special_code_key(start)
    }
}

/// How many raw key events stand at the front of `p`, before the first event
/// of another kind.
pub open spec fn raw_run_len(p: Seq<Event>) -> nat
    decreases p.len(),
{
    if p.len() == 0 {
        0
    } else if is_raw_key(p[0]) {
        1 + raw_run_len(p.drop_first())
    } else {
        0
    }
}

/// The chord read from `start` while the events `p` wait: `start`, then the
/// codepoints of the raw key events at the front of `p`.
pub open spec fn chord_of(start: u16, p: Seq<Event>) -> Seq<u32> {
    seq![start as u32] + p.take(raw_run_len(p) as int).map_values(|e: Event| codepoint_of(e))
}

/// What still waits after a chord was read while the events `p` waited: the
/// raw key events at the front are used up, and so is the event that ended
/// the chord, if one did.
pub open spec fn after_chord(p: Seq<Event>) -> Seq<Event> {
    if raw_run_len(p) < p.len() {
        p.skip(raw_run_len(p) as int + 1)
    } else {
        Seq::empty()
    }
}

/// Relies on `char::from_u32`: a `char` exactly for Unicode scalar values,
/// holding that value.
#[verifier::external_body]
fn char_from_u32(ch: u32) -> (r: Option<char>)
    ensures
        r == (if is_scalar_value(ch) {
            Some(ch as char)
        } else {
            None::<char>
        }),
{
    char::from_u32(ch)
}

/// Whether `chord` is the sequence `ESC [ 1 ; modifier direction`.
fn is_csi_arrow(chord: &[u32], modifier: char, direction: char) -> (r: bool)
    ensures
        r == (chord@ == csi_arrow(modifier, direction)),
{
    let r = chord.len() == 6 && chord[0] == 0x1B && chord[1] == '[' as u32 && chord[2] == '1' as u32
        && chord[3] == ';' as u32 && chord[4] == modifier as u32 && chord[5] == direction as u32;
    proof {
        if r {
            assert(chord@ =~= csi_arrow(modifier, direction));
        }
    }
    r
}

/// Exactly the codes 1 to 32, 127 and 65514 to 65535 stand for a key; every
/// other code stands for none.
pub proof fn lemma_special_code_domain(code: u16)
    ensures
        special_code_key(code) is Some <==> (1 <= code <= 32 || code == 127 || code >= 65514),
{
}

/// Codes 1 to 26 are Ctrl with the letter `code + 96`, except that 9 is Tab
/// and 13 is Enter.
pub proof fn lemma_ctrl_letters(code: u16)
    requires
        1 <= code <= 26,
    ensures
        code == 9 ==> special_code_key(code) == Some(Key::Tab),
        code == 13 ==> special_code_key(code) == Some(Key::Enter),
        code != 9 && code != 13 ==> (special_code_key(code) matches Some(Key::Ctrl(c)) && c as u32
            == code + 96),
        special_code_key(1) == Some(Key::Ctrl('a')),
        special_code_key(26) == Some(Key::Ctrl('z')),
{
}

/// The function keys run backwards: 65535 is F1, 65524 is F12, and of two
/// codes in that block the smaller has the larger index.
pub proof fn lemma_function_keys_descend(a: u16, b: u16)
    requires
        65524 <= a < b,
    ensures
        special_code_key(a) matches Some(Key::F(i)) && (special_code_key(b) matches Some(Key::F(j))
            && i > j && 1 <= j && i <= 12),
        special_code_key(65535) == Some(Key::F(1)),
        special_code_key(65524) == Some(Key::F(12)),
{
}

/// A chord never waits: where no raw key event is waiting, the chord is the
/// start alone, and a chord started by escape decodes to `Esc`.
pub proof fn lemma_chord_without_followers(start: u16, p: Seq<Event>)
    requires
        p.len() == 0 || !is_raw_key(p[0]),
    ensures
        chord_of(start, p) == seq![start as u32],
        after_chord(p) == (if p.len() == 0 {
            p
        } else {
            p.drop_first()
        }),
        chord_key(chord_of(0x1B, p), 0x1B) == Some(Key::Esc),
{
    assert(raw_run_len(p) == 0);
    assert(chord_of(start, p) =~= seq![start as u32]);
    assert(chord_of(0x1B, p) =~= seq![0x1Bu32]);
    assert(seq![0x1Bu32].len() != csi_arrow('3', 'C').len());
    if p.len() == 0 {
        assert(after_chord(p) =~= p);
    } else {
        assert(after_chord(p) =~= p.drop_first());
    }
}

/// An escape chord that is none of the four modified arrow sequences falls
/// back to `Esc`.
pub proof fn lemma_unmatched_escape_chord(chord: Seq<u32>)
    requires
        chord != csi_arrow('3', 'C'),
        chord != csi_arrow('3', 'D'),
        chord != csi_arrow('5', 'C'),
        chord != csi_arrow('5', 'D'),
    ensures
        chord_key(chord, 0x1B) == Some(Key::Esc),
{
}

impl Key {
    /// Looks up the key for a special code; `None` where the code has none.
    pub fn from_special_code(code: u16) -> (r: Option<Key>)
        ensures
            r == special_code_key(code),
    {
        match code {
            1 => Some(Key::Ctrl('a')),
            2 => Some(Key::Ctrl('b')),
            3 => Some(Key::Ctrl('c')),
            4 => Some(Key::Ctrl('d')),
            5 => Some(Key::Ctrl('e')),
            6 => Some(Key::Ctrl('f')),
            7 => Some(Key::Ctrl('g')),
            8 => Some(Key::Ctrl('h')),
            9 => Some(Key::Tab),
            10 => Some(Key::Ctrl('j')),
            11 => Some(Key::Ctrl('k')),
            12 => Some(Key::Ctrl('l')),
            13 => Some(Key::Enter),
            14 => Some(Key::Ctrl('n')),
            15 => Some(Key::Ctrl('o')),
            16 => Some(Key::Ctrl('p')),
            17 => Some(Key::Ctrl('q')),
            18 => Some(Key::Ctrl('r')),
            19 => Some(Key::Ctrl('s')),
            20 => Some(Key::Ctrl('t')),
            21 => Some(Key::Ctrl('u')),
            22 => Some(Key::Ctrl('v')),
            23 => Some(Key::Ctrl('w')),
            24 => Some(Key::Ctrl('x')),
            25 => Some(Key::Ctrl('y')),
            26 => Some(Key::Ctrl('z')),
            27 => Some(Key::Esc),
            28 => Some(Key::Ctrl('\\')),
            29 => Some(Key::Ctrl(']')),
            30 => Some(Key::Ctrl('6')),
            31 => Some(Key::Ctrl('/')),
            32 => Some(Key::Char(' ')),
            127 => Some(Key::Backspace),
            65514 => Some(Key::Right),
            65515 => Some(Key::Left),
            65516 => Some(Key::Down),
            65517 => Some(Key::Up),
            65535 => Some(Key::F(1)),
            65534 => Some(Key::F(2)),
            65533 => Some(Key::F(3)),
            65532 => Some(Key::F(4)),
            65531 => Some(Key::F(5)),
            65530 => Some(Key::F(6)),
            65529 => Some(Key::F(7)),
            65528 => Some(Key::F(8)),
            65527 => Some(Key::F(9)),
            65526 => Some(Key::F(10)),
            65525 => Some(Key::F(11)),
            65524 => Some(Key::F(12)),
            65523 => Some(Key::Insert),
            65522 => Some(Key::Delete),
            65521 => Some(Key::Home),
            65520 => Some(Key::End),
            65519 => Some(Key::PageUp),
            65518 => Some(Key::PageDown),
            _ => None,
        }
    }

    /// Classifies a chord that began with `start`: the four modified arrow
    /// sequences are matched exactly, and anything else falls back to the key
    /// of the special code `start`.
    pub fn classify_chord(chord: &[u32], start: u16) -> (r: Option<Key>)
        ensures
            r == chord_key(chord@, start),
    {
        if is_csi_arrow(chord, '3', 'C') {
            Some(Key::AltRight)
        } else if is_csi_arrow(chord, '3', 'D') {
            Some(Key::AltLeft)
        } else if is_csi_arrow(chord, '5', 'C') {
            Some(Key::CtrlRight)
        } else if is_csi_arrow(chord, '5', 'D') {
            Some(Key::CtrlLeft)
        } else {
            Key::from_special_code(start)
        }
    }

    /// Reads a chord from `rb` that begins with `start`, and classifies it.
    pub fn from_chord(rb: &mut EventSource, start: u16) -> (r: Option<Key>)
        ensures
            r == chord_key(chord_of(start, old(rb)@), start),
            final(rb)@ == after_chord(old(rb)@),
    {
        let chord = Key::get_chord(rb, start);
        Key::classify_chord(chord.as_slice(), start)
    }

    /// Reads a chord: `start`, then the codepoint of each raw key event that
    /// is already waiting in `rb`. It never waits: the chord ends at the first
    /// peek that yields no raw key event.
    pub fn get_chord(rb: &mut EventSource, start: u16) -> (r: Vec<u32>)
        ensures
            r@ == chord_of(start, old(rb)@),
            final(rb)@ == after_chord(old(rb)@),
    {
        let ghost orig = rb@;
        let mut chord: Vec<u32> = Vec::new();
        chord.push(start as u32);
        let ghost mut k: int = 0;
        let mut more = true;
        while more
            invariant
                0 <= k <= orig.len(),
                chord@ == seq![start as u32] + orig.take(k).map_values(
                    |e: Event| codepoint_of(e),
                ),
                more ==> rb@ == orig.skip(k) && raw_run_len(orig) == k + raw_run_len(rb@),
                !more ==> k == raw_run_len(orig) && rb@ == after_chord(orig),
            decreases orig.len() - k + (if more { 1int } else { 0 }),
        {
            let ghost before = rb@;
            match rb.peek_event() {
                Some(Event::KeyEventRaw(_, _, ch)) => {
                    proof {
                        assert(orig.take(k + 1).map_values(|e: Event| codepoint_of(e))
                            =~= orig.take(k).map_values(|e: Event| codepoint_of(e)).push(ch));
                        assert(orig.skip(k).drop_first() =~= orig.skip(k + 1));
                    }
                    chord.push(ch);
                    proof {
                        assert(chord@ =~= seq![start as u32] + orig.take(k + 1).map_values(
                            |e: Event| codepoint_of(e),
                        ));
                        k = k + 1;
                    }
                },
                _ => {
                    proof {
                        assert(raw_run_len(before) == 0);
                        if before.len() > 0 {
                            assert(orig.skip(k).drop_first() =~= orig.skip(k + 1));
                        }
                    }
                    more = false;
                },
            }
        }
        chord
    }

    /// Decodes one raw event. A plain character (special code 0) gives
    /// `Char`, escape (0x1B) starts a chord read from `rb`, any other special
    /// code is looked up; an event that is no raw key event gives `None`.
    pub fn from_event(rb: &mut EventSource, event: Event) -> (r: Option<Key>)
        ensures
            !is_raw_key(event) ==> r is None && final(rb)@ == old(rb)@,
            event matches Event::KeyEventRaw(_, 0, ch) ==> r == char_key(ch) && final(rb)@ == old(
                rb,
            )@,
            event matches Event::KeyEventRaw(_, 0x1B, _) ==> r == chord_key(
                chord_of(0x1B, old(rb)@),
                0x1B,
            ) && final(rb)@ == after_chord(old(rb)@),
            event matches Event::KeyEventRaw(_, k, _) ==> (k != 0 && k != 0x1B ==> r
                == special_code_key(k) && final(rb)@ == old(rb)@),
    {
        match event {
            Event::KeyEventRaw(_, k, ch) => {
                if k == 0 {
                    match char_from_u32(ch) {
                        Some(c) => Some(Key::Char(c)),
                        None => None,
                    }
                } else if k == 0x1B {
                    Key::from_chord(rb, 0x1B)
                } else {
                    Key::from_special_code(k)
                }
            },
            _ => None,
        }
    }
}

} // verus!

