use vstd::prelude::*;
use vstd::string::StringExecFns;
use crate::machine::Chip8;

verus! {

/// The upper-case hexadecimal digit for a value below sixteen.
pub open spec fn hex_digit(value: int) -> char {
    if value < 10 {
        ('0' as u8 + value) as char
    } else {
        ('A' as u8 + value - 10) as char
    }
}

/// The two hexadecimal digits of a byte.
pub open spec fn hex_byte(byte: u8) -> Seq<char> {
    seq![hex_digit(byte as int / 16), hex_digit(byte as int % 16)]
}

/// The label in front of a line: the address in three hexadecimal digits
/// between `0x` and a colon and a space.
pub open spec fn dump_label(address: int) -> Seq<char> {
    seq![
        '0',
        'x',
        hex_digit(address / 256 % 16),
        hex_digit(address / 16 % 16),
        hex_digit(address % 16),
        ':',
        ' ',
    ]
}

/// The bytes of a line: two digits and a space for each.
pub open spec fn dump_bytes(bytes: Seq<u8>) -> Seq<char>
    decreases bytes.len(),
{
    if bytes.len() == 0 {
        Seq::empty()
    } else {
        dump_bytes(bytes.drop_last()) + hex_byte(bytes.last()) + seq![' ']
    }
}

/// One line: the label, the bytes and a line feed.
pub open spec fn dump_line(address: int, bytes: Seq<u8>) -> Seq<char> {
    dump_label(address) + dump_bytes(bytes) + seq!['\n']
}

/// The end of the line that starts at `start`: sixteen bytes on, or `end`
/// where that comes first.
pub open spec fn line_end(start: int, end: int) -> int {
    if start + 16 < end {
        start + 16
    } else {
        end
    }
}

/// The memory from `start` up to `end` as text, sixteen bytes to a line.
pub open spec fn dump(memory: Seq<u8>, start: int, end: int) -> Seq<char>
    decreases end - start,
{
    if start >= end {
        Seq::empty()
    } else {
        dump_line(start, memory.subrange(start, line_end(start, end))) + dump(
            memory,
            line_end(start, end),
            end,
        )
    }
}

/// The text of one hexadecimal digit.
fn hex_digit_text(value: u8) -> (text: &'static str)
    requires
        value < 16,
    ensures
        text@ == seq![hex_digit(value as int)],
{
    proof {
        reveal_strlit("0");
        reveal_strlit("1");
        reveal_strlit("2");
        reveal_strlit("3");
        reveal_strlit("4");
        reveal_strlit("5");
        reveal_strlit("6");
        reveal_strlit("7");
        reveal_strlit("8");
        reveal_strlit("9");
        reveal_strlit("A");
        reveal_strlit("B");
        reveal_strlit("C");
        reveal_strlit("D");
        reveal_strlit("E");
        reveal_strlit("F");
    }
    let text: &'static str = match value {
        0 => "0",
        1 => "1",
        2 => "2",
        3 => "3",
        4 => "4",
        5 => "5",
        6 => "6",
        7 => "7",
        8 => "8",
        9 => "9",
        10 => "A",
        11 => "B",
        12 => "C",
        13 => "D",
        14 => "E",
        _ => "F",
    };
    text
}

/// Appends the label of the line at `address`.
fn push_label(text: &mut String, address: usize)
    requires
        address < 4096,
    ensures
        final(text)@ == old(text)@ + dump_label(address as int),
{
    proof {
        reveal_strlit("0x");
        reveal_strlit(": ");
    }
    text.append("0x");
    text.append(hex_digit_text((address / 256 % 16) as u8));
    text.append(hex_digit_text((address / 16 % 16) as u8));
    text.append(hex_digit_text((address % 16) as u8));
    text.append(": ");
}

/// Appends the two digits of `byte` and a space.
fn push_byte(text: &mut String, byte: u8)
    ensures
        final(text)@ == old(text)@ + hex_byte(byte) + seq![' '],
{
    proof {
        reveal_strlit(" ");
    }
    text.append(hex_digit_text(byte / 16));
    text.append(hex_digit_text(byte % 16));
    text.append(" ");
}

impl Chip8 {
    /// The memory from `start` up to `end` as text: on each line the
    /// address of its first byte and up to sixteen bytes in hexadecimal.
    pub fn memory_hexdump(&self, start: u16, end: u16) -> (text: String)
        requires
            start <= end <= 4096,
        ensures
            text@ == dump(self@.memory, start as int, end as int),
    {
        let memory: &[u8; 4096] = self.memory();
        let end: usize = end as usize;
        let mut text: String = String::new();
        let mut line: usize = start as usize;
        while line < end
            invariant
                start <= line <= end <= 4096,
                memory@ == self@.memory,
                text@ + dump(memory@, line as int, end as int) == dump(
                    memory@,
                    start as int,
                    end as int,
                ),
            decreases end - line,
        {
            let stop: usize = if line + 16 < end {
                line + 16
            } else {
                end
            };
            let ghost before = text@;
            push_label(&mut text, line);
            let mut at: usize = line;
            while at < stop
                invariant
                    line <= at <= stop <= 4096,
                    text@ == before + dump_label(line as int) + dump_bytes(
                        memory@.subrange(line as int, at as int),
                    ),
                decreases stop - at,
            {
                push_byte(&mut text, memory[at]);
                proof {
                    let now = memory@.subrange(line as int, at + 1);
                    assert(now.drop_last() =~= memory@.subrange(line as int, at as int));
                }
                at += 1;
            }
            proof {
                reveal_strlit("\n");
            }
            text.append("\n");
            line = stop;
        }
        text
    }
}

} // verus!
