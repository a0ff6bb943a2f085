use vstd::prelude::*;

verus! {

/// Set-1 make codes of the shift keys, and the break codes sent on their release.
pub const LEFT_SHIFT: u8 = 0x2A;
pub const RIGHT_SHIFT: u8 = 0x36;
pub const LEFT_SHIFT_RELEASE: u8 = 0xAA;
pub const RIGHT_SHIFT_RELEASE: u8 = 0xB6;

/// The characters of a printing key on a US layout, without and with shift,
/// by its set-1 make code.
pub open spec fn key_pair(code: u8) -> Option<(char, char)> {
    match code {
        0x02 => Some(('1', '!')),
        0x03 => Some(('2', '@')),
        0x04 => Some(('3', '#')),
        0x05 => Some(('4', '$')),
        0x06 => Some(('5', '%')),
        0x07 => Some(('6', '^')),
        0x08 => Some(('7', '&')),
        0x09 => Some(('8', '*')),
        0x0A => Some(('9', '(')),
        0x0B => Some(('0', ')')),
        0x0C => Some(('-', '_')),
        0x0D => Some(('=', '+')),
        0x10 => Some(('q', 'Q')),
        0x11 => Some(('w', 'W')),
        0x12 => Some(('e', 'E')),
        0x13 => Some(('r', 'R')),
        0x14 => Some(('t', 'T')),
        0x15 => Some(('y', 'Y')),
        0x16 => Some(('u', 'U')),
        0x17 => Some(('i', 'I')),
        0x18 => Some(('o', 'O')),
        0x19 => Some(('p', 'P')),
        0x1A => Some(('[', '{')),
        0x1B => Some((']', '}')),
        0x1C => Some(('\n', '\n')),
        0x1E => Some(('a', 'A')),
        0x1F => Some(('s', 'S')),
        0x20 => Some(('d', 'D')),
        0x21 => Some(('f', 'F')),
        0x22 => Some(('g', 'G')),
        0x23 => Some(('h', 'H')),
        0x24 => Some(('j', 'J')),
        0x25 => Some(('k', 'K')),
        0x26 => Some(('l', 'L')),
        0x27 => Some((';', ':')),
        0x28 => Some(('\'', '"')),
        0x29 => Some(('`', '~')),
        0x2B => Some(('\\', '|')),
        0x2C => Some(('z', 'Z')),
        0x2D => Some(('x', 'X')),
        0x2E => Some(('c', 'C')),
        0x2F => Some(('v', 'V')),
        0x30 => Some(('b', 'B')),
        0x31 => Some(('n', 'N')),
        0x32 => Some(('m', 'M')),
        0x33 => Some((',', '<')),
        0x34 => Some(('.', '>')),
        0x35 => Some(('/', '?')),
        0x39 => Some((' ', ' ')),
        _ => None,
    }
}

fn key_chars(code: u8) -> (r: Option<(char, char)>)
    ensures
        r == key_pair(code),
{
    match code {
        0x02 => Some(('1', '!')),
        0x03 => Some(('2', '@')),
        0x04 => Some(('3', '#')),
        0x05 => Some(('4', '$')),
        0x06 => Some(('5', '%')),
        0x07 => Some(('6', '^')),
        0x08 => Some(('7', '&')),
        0x09 => Some(('8', '*')),
        0x0A => Some(('9', '(')),
        0x0B => Some(('0', ')')),
        0x0C => Some(('-', '_')),
        0x0D => Some(('=', '+')),
        0x10 => Some(('q', 'Q')),
        0x11 => Some(('w', 'W')),
        0x12 => Some(('e', 'E')),
        0x13 => Some(('r', 'R')),
        0x14 => Some(('t', 'T')),
        0x15 => Some(('y', 'Y')),
        0x16 => Some(('u', 'U')),
        0x17 => Some(('i', 'I')),
        0x18 => Some(('o', 'O')),
        0x19 => Some(('p', 'P')),
        0x1A => Some(('[', '{')),
        0x1B => Some((']', '}')),
        0x1C => Some(('\n', '\n')),
        0x1E => Some(('a', 'A')),
        0x1F => Some(('s', 'S')),
        0x20 => Some(('d', 'D')),
        0x21 => Some(('f', 'F')),
        0x22 => Some(('g', 'G')),
        0x23 => Some(('h', 'H')),
        0x24 => Some(('j', 'J')),
        0x25 => Some(('k', 'K')),
        0x26 => Some(('l', 'L')),
        0x27 => Some((';', ':')),
        0x28 => Some(('\'', '"')),
        0x29 => Some(('`', '~')),
        0x2B => Some(('\\', '|')),
        0x2C => Some(('z', 'Z')),
        0x2D => Some(('x', 'X')),
        0x2E => Some(('c', 'C')),
        0x2F => Some(('v', 'V')),
        0x30 => Some(('b', 'B')),
        0x31 => Some(('n', 'N')),
        0x32 => Some(('m', 'M')),
        0x33 => Some((',', '<')),
        0x34 => Some(('.', '>')),
        0x35 => Some(('/', '?')),
        0x39 => Some((' ', ' ')),
        _ => None,
    }
}

/// Modifier state of the scan-code decoder.
#[derive(Debug, Clone, Copy, PartialEq, Eq, Structural)]
pub struct Decoder {
    pub left_shift: bool,
    pub right_shift: bool,
}

/// One decoding step: the state after scan code `code`, and the character it types.
/// Shift presses and releases change the state; a release of any other key, or a key
/// without a character, types nothing.
pub open spec fn decode_step(d: Decoder, code: u8) -> (Decoder, Option<char>) {
    if code == LEFT_SHIFT {
        (Decoder { left_shift: true, ..d }, None)
    } else if code == LEFT_SHIFT_RELEASE {
        (Decoder { left_shift: false, ..d }, None)
    } else if code == RIGHT_SHIFT {
        (Decoder { right_shift: true, ..d }, None)
    } else if code == RIGHT_SHIFT_RELEASE {
        (Decoder { right_shift: false, ..d }, None)
    } else {
        match key_pair(code) {
            Some((lower, upper)) => (d, Some(if d.left_shift || d.right_shift { upper } else { lower })),
            None => (d, None),
        }
    }
}

/// The decoder state after the scan codes `codes`.
pub open spec fn decode_state(d: Decoder, codes: Seq<u8>) -> Decoder
    decreases codes.len(),
{
    if codes.len() == 0 {
        d
    } else {
        decode_step(decode_state(d, codes.drop_last()), codes.last()).0
    }
}

/// The characters that the scan codes `codes` type, in order.
pub open spec fn decode_text(d: Decoder, codes: Seq<u8>) -> Seq<char>
    decreases codes.len(),
{
    if codes.len() == 0 {
        Seq::empty()
    } else {
        let prev = decode_text(d, codes.drop_last());
        match decode_step(decode_state(d, codes.drop_last()), codes.last()).1 {
            Some(c) => prev.push(c),
            None => prev,
        }
    }
}

impl Decoder {
    /// A decoder with no modifier held.
    pub fn new() -> (d: Decoder)
        ensures
            !d.left_shift && !d.right_shift,
    {
        Decoder { left_shift: false, right_shift: false }
    }

    /// Feeds one scan code; returns the character it types, if any.
    pub fn process(&mut self, code: u8) -> (r: Option<char>)
        ensures
            (*final(self), r) == decode_step(*old(self), code),
    {
        if code == LEFT_SHIFT {
            self.left_shift = true;
            None
        } else if code == LEFT_SHIFT_RELEASE {
            self.left_shift = false;
            None
        } else if code == RIGHT_SHIFT {
            self.right_shift = true;
            None
        } else if code == RIGHT_SHIFT_RELEASE {
            self.right_shift = false;
            None
        } else {
            match key_chars(code) {
                Some((lower, upper)) => Some(if self.left_shift || self.right_shift { upper } else { lower }),
                None => None,
            }
        }
    }
}

} // verus!
