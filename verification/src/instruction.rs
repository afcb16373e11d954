use vstd::prelude::*;
use crate::error::Chip8Error;

verus! {

/// One decoded instruction: the operation together with its operands.
///
/// Register operands `x` and `y` are register numbers, `byte` is an
/// immediate value, `addr` a twelve-bit address and `rows` a sprite height.
#[derive(Clone, Copy, Debug, PartialEq, Eq, Structural)]
pub enum Instruction {
    /// `00E0`: clear the display.
    Cls,
    /// `00EE`: return from a subroutine.
    Ret,
    /// `1nnn`: jump to `addr`.
    Jp { addr: u16 },
    /// `2nnn`: call the subroutine at `addr`.
    Call { addr: u16 },
    /// `3xnn`: skip the next instruction if `Vx == byte`.
    SeByte { x: u8, byte: u8 },
    /// `4xnn`: skip the next instruction if `Vx != byte`.
    SneByte { x: u8, byte: u8 },
    /// `5xy_`: skip the next instruction if `Vx == Vy`.
    SeReg { x: u8, y: u8 },
    /// `6xnn`: `Vx = byte`.
    LdByte { x: u8, byte: u8 },
    /// `7xnn`: `Vx = Vx + byte`, wrapping, flags untouched.
    AddByte { x: u8, byte: u8 },
    /// `8xy0`: `Vx = Vy`.
    LdReg { x: u8, y: u8 },
    /// `8xy1`: `Vx = Vx | Vy`.
    Or { x: u8, y: u8 },
    /// `8xy2`: `Vx = Vx & Vy`.
    And { x: u8, y: u8 },
    /// `8xy3`: `Vx = Vx ^ Vy`.
    Xor { x: u8, y: u8 },
    /// `8xy4`: `Vx = Vx + Vy`, then `VF` = carry.
    AddReg { x: u8, y: u8 },
    /// `8xy5`: `VF` = no borrow, then `Vx = Vx - Vy`.
    Sub { x: u8, y: u8 },
    /// `8xy6`: `VF` = low bit of the source, then `Vx` = source shifted right.
    Shr { x: u8, y: u8 },
    /// `8xy7`: `VF` = no borrow, then `Vx = Vy - Vx`.
    Subn { x: u8, y: u8 },
    /// `8xyE`: `VF` = high bit of the source, then `Vx` = source shifted left.
    Shl { x: u8, y: u8 },
    /// `9xy0`: skip the next instruction if `Vx != Vy`.
    SneReg { x: u8, y: u8 },
    /// `Annn`: `I = addr`.
    LdI { addr: u16 },
    /// `Bnnn`: jump to `V0 + addr`.
    JpV0 { addr: u16 },
    /// `Cxnn`: `Vx` = random byte `& byte`.
    Rnd { x: u8, byte: u8 },
    /// `Dxyn`: draw a sprite of `rows` rows at `(Vx, Vy)`.
    Drw { x: u8, y: u8, rows: u8 },
    /// `Ex9E`: skip the next instruction if key `Vx` is pressed.
    Skp { x: u8 },
    /// `ExA1`: skip the next instruction if key `Vx` is not pressed.
    Sknp { x: u8 },
    /// `Fx07`: `Vx` = delay timer.
    LdVxDt { x: u8 },
    /// `Fx0A`: wait for a key and store it in `Vx`.
    LdVxK { x: u8 },
    /// `Fx15`: delay timer = `Vx`.
    LdDtVx { x: u8 },
    /// `Fx18`: sound timer = `Vx`.
    LdStVx { x: u8 },
    /// `Fx1E`: `I = I + Vx`.
    AddI { x: u8 },
    /// `Fx29`: `I` = address of the glyph for `Vx`.
    LdF { x: u8 },
    /// `Fx33`: store the decimal digits of `Vx` at `I`, `I + 1`, `I + 2`.
    LdB { x: u8 },
    /// `Fx55`: store `V0..=Vx` at `I..`.
    StoreRegs { x: u8 },
    /// `Fx65`: load `V0..=Vx` from `I..`.
    LoadRegs { x: u8 },
    /// Any other word of the `F` family: it has no effect.
    Ignored { word: u16 },
}

/// The opcode family: the high nibble of the word.
pub open spec fn family_of(word: u16) -> int {
    word as int / 4096
}

/// The `x` operand: bits 8 to 11.
pub open spec fn x_of(word: u16) -> u8 {
    ((word as int / 256) % 16) as u8
}

/// The `y` operand: bits 4 to 7.
pub open spec fn y_of(word: u16) -> u8 {
    ((word as int / 16) % 16) as u8
}

/// The `n` operand: bits 0 to 3.
pub open spec fn n_of(word: u16) -> u8 {
    (word as int % 16) as u8
}

/// The `nn` operand: bits 0 to 7.
pub open spec fn nn_of(word: u16) -> u8 {
    (word as int % 256) as u8
}

/// The `nnn` operand: bits 0 to 11.
pub open spec fn nnn_of(word: u16) -> u16 {
    (word as int % 4096) as u16
}

/// The instruction table of the `8` family, selected by `n`.
pub open spec fn decode_arithmetic(word: u16) -> Result<Instruction, Chip8Error> {
    let x = x_of(word);
    let y = y_of(word);
    let n = n_of(word);
    if n == 0x0 {
        Ok(Instruction::LdReg { x, y })
    } else if n == 0x1 {
        Ok(Instruction::Or { x, y })
    } else if n == 0x2 {
        Ok(Instruction::And { x, y })
    } else if n == 0x3 {
        Ok(Instruction::Xor { x, y })
    } else if n == 0x4 {
        Ok(Instruction::AddReg { x, y })
    } else if n == 0x5 {
        Ok(Instruction::Sub { x, y })
    } else if n == 0x6 {
        Ok(Instruction::Shr { x, y })
    } else if n == 0x7 {
        Ok(Instruction::Subn { x, y })
    } else if n == 0xE {
        Ok(Instruction::Shl { x, y })
    } else {
        Err(Chip8Error::IllegalInstruction(word))
    }
}

/// The instruction table of the `F` family, selected by `nn`.
pub open spec fn decode_misc(word: u16) -> Instruction {
    let x = x_of(word);
    let nn = nn_of(word);
    if nn == 0x07 {
        Instruction::LdVxDt { x }
    } else if nn == 0x0A {
        Instruction::LdVxK { x }
    } else if nn == 0x15 {
        Instruction::LdDtVx { x }
    } else if nn == 0x18 {
        Instruction::LdStVx { x }
    } else if nn == 0x1E {
        Instruction::AddI { x }
    } else if nn == 0x29 {
        Instruction::LdF { x }
    } else if nn == 0x33 {
        Instruction::LdB { x }
    } else if nn == 0x55 {
        Instruction::StoreRegs { x }
    } else if nn == 0x65 {
        Instruction::LoadRegs { x }
    } else {
        Instruction::Ignored { word }
    }
}

/// The instruction that a word stands for, or `IllegalInstruction` with the
/// word where it stands for none.
///
/// Dispatch is by family, then by `nn` in the families `0`, `E` and `F` and
/// by `n` in the families `8` and `9`. A word of the `F` family with an
/// unassigned `nn` decodes to [`Instruction::Ignored`].
pub open spec fn decode_spec(word: u16) -> Result<Instruction, Chip8Error> {
    let family = family_of(word);
    let x = x_of(word);
    let y = y_of(word);
    let n = n_of(word);
    let nn = nn_of(word);
    let nnn = nnn_of(word);
    if family == 0x0 {
        if nn == 0xE0 {
            Ok(Instruction::Cls)
        } else if nn == 0xEE {
            Ok(Instruction::Ret)
        } else {
            Err(Chip8Error::IllegalInstruction(word))
        }
    } else if family == 0x1 {
        Ok(Instruction::Jp { addr: nnn })
    } else if family == 0x2 {
        Ok(Instruction::Call { addr: nnn })
    } else if family == 0x3 {
        Ok(Instruction::SeByte { x, byte: nn })
    } else if family == 0x4 {
        Ok(Instruction::SneByte { x, byte: nn })
    } else if family == 0x5 {
        Ok(Instruction::SeReg { x, y })
    } else if family == 0x6 {
        Ok(Instruction::LdByte { x, byte: nn })
    } else if family == 0x7 {
        Ok(Instruction::AddByte { x, byte: nn })
    } else if family == 0x8 {
        decode_arithmetic(word)
    } else if family == 0x9 {
        if n == 0 {
            Ok(Instruction::SneReg { x, y })
        } else {
            Err(Chip8Error::IllegalInstruction(word))
        }
    } else if family == 0xA {
        Ok(Instruction::LdI { addr: nnn })
    } else if family == 0xB {
        Ok(Instruction::JpV0 { addr: nnn })
    } else if family == 0xC {
        Ok(Instruction::Rnd { x, byte: nn })
    } else if family == 0xD {
        Ok(Instruction::Drw { x, y, rows: n })
    } else if family == 0xE {
        if nn == 0x9E {
            Ok(Instruction::Skp { x })
        } else if nn == 0xA1 {
            Ok(Instruction::Sknp { x })
        } else {
            Err(Chip8Error::IllegalInstruction(word))
        }
    } else {
        Ok(decode_misc(word))
    }
}

impl Instruction {
    /// Whether the instruction only reads and writes registers.
    pub open spec fn is_arithmetic(self) -> bool {
        match self {
            Instruction::LdByte { .. }
            | Instruction::AddByte { .. }
            | Instruction::LdReg { .. }
            | Instruction::Or { .. }
            | Instruction::And { .. }
            | Instruction::Xor { .. }
            | Instruction::AddReg { .. }
            | Instruction::Sub { .. }
            | Instruction::Subn { .. }
            | Instruction::Shr { .. }
            | Instruction::Shl { .. }
            | Instruction::LdVxDt { .. }
            | Instruction::Rnd { .. } => true,
            _ => false,
        }
    }

    /// Whether the instruction moves the program counter or the stack.
    pub open spec fn is_control(self) -> bool {
        match self {
            Instruction::Ret
            | Instruction::Jp { .. }
            | Instruction::Call { .. }
            | Instruction::SeByte { .. }
            | Instruction::SneByte { .. }
            | Instruction::SeReg { .. }
            | Instruction::SneReg { .. }
            | Instruction::JpV0 { .. }
            | Instruction::Skp { .. }
            | Instruction::Sknp { .. }
            | Instruction::LdVxK { .. } => true,
            _ => false,
        }
    }

    /// Every register operand names one of the sixteen registers, every
    /// address has twelve bits and a sprite has at most fifteen rows.
    pub open spec fn wf(self) -> bool {
        match self {
            Instruction::Cls | Instruction::Ret => true,
            Instruction::Jp { addr }
            | Instruction::Call { addr }
            | Instruction::LdI { addr }
            | Instruction::JpV0 { addr } => addr < 4096,
            Instruction::SeByte { x, .. }
            | Instruction::SneByte { x, .. }
            | Instruction::LdByte { x, .. }
            | Instruction::AddByte { x, .. }
            | Instruction::Rnd { x, .. } => x < 16,
            Instruction::SeReg { x, y }
            | Instruction::LdReg { x, y }
            | Instruction::Or { x, y }
            | Instruction::And { x, y }
            | Instruction::Xor { x, y }
            | Instruction::AddReg { x, y }
            | Instruction::Sub { x, y }
            | Instruction::Shr { x, y }
            | Instruction::Subn { x, y }
            | Instruction::Shl { x, y }
            | Instruction::SneReg { x, y } => x < 16 && y < 16,
            Instruction::Drw { x, y, rows } => x < 16 && y < 16 && rows < 16,
            Instruction::Skp { x }
            | Instruction::Sknp { x }
            | Instruction::LdVxDt { x }
            | Instruction::LdVxK { x }
            | Instruction::LdDtVx { x }
            | Instruction::LdStVx { x }
            | Instruction::AddI { x }
            | Instruction::LdF { x }
            | Instruction::LdB { x }
            | Instruction::StoreRegs { x }
            | Instruction::LoadRegs { x } => x < 16,
            Instruction::Ignored { .. } => true,
        }
    }
}

impl Instruction {
    /// The word that stands for the instruction.
    pub open spec fn encode(self) -> u16 {
        match self {
            Instruction::Cls => 0x00E0,
            Instruction::Ret => 0x00EE,
            Instruction::Jp { addr } => word(0x1, 0, 0, addr as int),
            Instruction::Call { addr } => word(0x2, 0, 0, addr as int),
            Instruction::SeByte { x, byte } => word(0x3, x as int, 0, byte as int),
            Instruction::SneByte { x, byte } => word(0x4, x as int, 0, byte as int),
            Instruction::SeReg { x, y } => word(0x5, x as int, y as int, 0),
            Instruction::LdByte { x, byte } => word(0x6, x as int, 0, byte as int),
            Instruction::AddByte { x, byte } => word(0x7, x as int, 0, byte as int),
            Instruction::LdReg { x, y } => word(0x8, x as int, y as int, 0x0),
            Instruction::Or { x, y } => word(0x8, x as int, y as int, 0x1),
            Instruction::And { x, y } => word(0x8, x as int, y as int, 0x2),
            Instruction::Xor { x, y } => word(0x8, x as int, y as int, 0x3),
            Instruction::AddReg { x, y } => word(0x8, x as int, y as int, 0x4),
            Instruction::Sub { x, y } => word(0x8, x as int, y as int, 0x5),
            Instruction::Shr { x, y } => word(0x8, x as int, y as int, 0x6),
            Instruction::Subn { x, y } => word(0x8, x as int, y as int, 0x7),
            Instruction::Shl { x, y } => word(0x8, x as int, y as int, 0xE),
            Instruction::SneReg { x, y } => word(0x9, x as int, y as int, 0),
            Instruction::LdI { addr } => word(0xA, 0, 0, addr as int),
            Instruction::JpV0 { addr } => word(0xB, 0, 0, addr as int),
            Instruction::Rnd { x, byte } => word(0xC, x as int, 0, byte as int),
            Instruction::Drw { x, y, rows } => word(0xD, x as int, y as int, rows as int),
            Instruction::Skp { x } => word(0xE, x as int, 0, 0x9E),
            Instruction::Sknp { x } => word(0xE, x as int, 0, 0xA1),
            Instruction::LdVxDt { x } => word(0xF, x as int, 0, 0x07),
            Instruction::LdVxK { x } => word(0xF, x as int, 0, 0x0A),
            Instruction::LdDtVx { x } => word(0xF, x as int, 0, 0x15),
            Instruction::LdStVx { x } => word(0xF, x as int, 0, 0x18),
            Instruction::AddI { x } => word(0xF, x as int, 0, 0x1E),
            Instruction::LdF { x } => word(0xF, x as int, 0, 0x29),
            Instruction::LdB { x } => word(0xF, x as int, 0, 0x33),
            Instruction::StoreRegs { x } => word(0xF, x as int, 0, 0x55),
            Instruction::LoadRegs { x } => word(0xF, x as int, 0, 0x65),
            Instruction::Ignored { word } => word,
        }
    }
}

/// The word made of a family, an `x`, a `y` and what stands below them.
pub open spec fn word(family: int, x: int, y: int, low: int) -> u16 {
    (family * 4096 + x * 256 + y * 16 + low) as u16
}

/// The fields of a word that was put together from a family, an `x`, a `y`
/// and an `n` are those four.
pub proof fn lemma_word_fields(family: int, x: int, y: int, n: int)
    requires
        0 <= family < 16,
        0 <= x < 16,
        0 <= y < 16,
        0 <= n < 16,
    ensures
        family_of(word(family, x, y, n)) == family,
        x_of(word(family, x, y, n)) == x,
        y_of(word(family, x, y, n)) == y,
        n_of(word(family, x, y, n)) == n,
        nn_of(word(family, x, y, n)) == y * 16 + n,
        nnn_of(word(family, x, y, n)) == x * 256 + y * 16 + n,
{
    lemma_nibbles(family as u16, x as u16, y as u16, n as u16);
}

/// Four nibbles put together come apart again.
proof fn lemma_nibbles(a: u16, b: u16, c: u16, d: u16)
    by (bit_vector)
    requires
        a < 16,
        b < 16,
        c < 16,
        d < 16,
    ensures
        a * 4096 + b * 256 + c * 16 + d < 0x10000,
        (a * 4096 + b * 256 + c * 16 + d) / 4096 == a,
        ((a * 4096 + b * 256 + c * 16 + d) / 256) % 16 == b,
        ((a * 4096 + b * 256 + c * 16 + d) / 16) % 16 == c,
        (a * 4096 + b * 256 + c * 16 + d) % 16 == d,
        (a * 4096 + b * 256 + c * 16 + d) % 256 == c * 16 + d,
        (a * 4096 + b * 256 + c * 16 + d) % 4096 == b * 256 + c * 16 + d,
{
}

/// Decoding the word of a well-formed instruction gives the instruction
/// back.
pub proof fn lemma_decode_encode(ins: Instruction)
    requires
        ins.wf(),
        !(ins is Ignored),
    ensures
        decode_spec(ins.encode()) == Ok::<Instruction, Chip8Error>(ins),
{
    match ins {
        Instruction::Cls => {
            lemma_word_fields(0, 0, 0xE, 0);
        },
        Instruction::Ret => {
            lemma_word_fields(0, 0, 0xE, 0xE);
        },
        Instruction::Jp { addr } => {
            lemma_split_address(0x1, addr);
        },
        Instruction::Call { addr } => {
            lemma_split_address(0x2, addr);
        },
        Instruction::LdI { addr } => {
            lemma_split_address(0xA, addr);
        },
        Instruction::JpV0 { addr } => {
            lemma_split_address(0xB, addr);
        },
        Instruction::SeByte { x, byte } => {
            lemma_split_byte(0x3, x, byte);
        },
        Instruction::SneByte { x, byte } => {
            lemma_split_byte(0x4, x, byte);
        },
        Instruction::LdByte { x, byte } => {
            lemma_split_byte(0x6, x, byte);
        },
        Instruction::AddByte { x, byte } => {
            lemma_split_byte(0x7, x, byte);
        },
        Instruction::Rnd { x, byte } => {
            lemma_split_byte(0xC, x, byte);
        },
        Instruction::SeReg { x, y } => {
            lemma_word_fields(0x5, x as int, y as int, 0);
        },
        Instruction::SneReg { x, y } => {
            lemma_word_fields(0x9, x as int, y as int, 0);
        },
        Instruction::LdReg { x, y } => {
            lemma_word_fields(0x8, x as int, y as int, 0x0);
        },
        Instruction::Or { x, y } => {
            lemma_word_fields(0x8, x as int, y as int, 0x1);
        },
        Instruction::And { x, y } => {
            lemma_word_fields(0x8, x as int, y as int, 0x2);
        },
        Instruction::Xor { x, y } => {
            lemma_word_fields(0x8, x as int, y as int, 0x3);
        },
        Instruction::AddReg { x, y } => {
            lemma_word_fields(0x8, x as int, y as int, 0x4);
        },
        Instruction::Sub { x, y } => {
            lemma_word_fields(0x8, x as int, y as int, 0x5);
        },
        Instruction::Shr { x, y } => {
            lemma_word_fields(0x8, x as int, y as int, 0x6);
        },
        Instruction::Subn { x, y } => {
            lemma_word_fields(0x8, x as int, y as int, 0x7);
        },
        Instruction::Shl { x, y } => {
            lemma_word_fields(0x8, x as int, y as int, 0xE);
        },
        Instruction::Drw { x, y, rows } => {
            lemma_word_fields(0xD, x as int, y as int, rows as int);
        },
        Instruction::Skp { x } => {
            lemma_split_byte(0xE, x, 0x9E);
        },
        Instruction::Sknp { x } => {
            lemma_split_byte(0xE, x, 0xA1);
        },
        Instruction::LdVxDt { x } => {
            lemma_split_byte(0xF, x, 0x07);
        },
        Instruction::LdVxK { x } => {
            lemma_split_byte(0xF, x, 0x0A);
        },
        Instruction::LdDtVx { x } => {
            lemma_split_byte(0xF, x, 0x15);
        },
        Instruction::LdStVx { x } => {
            lemma_split_byte(0xF, x, 0x18);
        },
        Instruction::AddI { x } => {
            lemma_split_byte(0xF, x, 0x1E);
        },
        Instruction::LdF { x } => {
            lemma_split_byte(0xF, x, 0x29);
        },
        Instruction::LdB { x } => {
            lemma_split_byte(0xF, x, 0x33);
        },
        Instruction::StoreRegs { x } => {
            lemma_split_byte(0xF, x, 0x55);
        },
        Instruction::LoadRegs { x } => {
            lemma_split_byte(0xF, x, 0x65);
        },
        Instruction::Ignored { .. } => {},
    }
}

/// Whatever a word decodes to is well formed.
pub proof fn lemma_decoded_well_formed(word: u16)
    ensures
        decode_spec(word) matches Ok(ins) ==> ins.wf(),
{
}

/// A word with a byte below `x` has that byte as its `nn`.
proof fn lemma_split_byte(family: int, x: u8, byte: u8)
    requires
        0 <= family < 16,
        x < 16,
    ensures
        family_of(word(family, x as int, 0, byte as int)) == family,
        x_of(word(family, x as int, 0, byte as int)) == x,
        nn_of(word(family, x as int, 0, byte as int)) == byte,
        n_of(word(family, x as int, 0, byte as int)) == byte % 16,
{
    lemma_word_fields(family, x as int, byte as int / 16, byte as int % 16);
}

/// A word with an address below the family has that address as its `nnn`.
proof fn lemma_split_address(family: int, addr: u16)
    requires
        0 <= family < 16,
        addr < 4096,
    ensures
        family_of(word(family, 0, 0, addr as int)) == family,
        nnn_of(word(family, 0, 0, addr as int)) == addr,
{
    lemma_word_fields(family, addr as int / 256, (addr as int / 16) % 16, addr as int % 16);
}

/// Splitting a word with masks and shifts gives the fields that the
/// specification defines by division.
proof fn lemma_fields(word: u16)
    ensures
        (word >> 12) as int == family_of(word),
        ((word & 0x0F00) >> 8) as u8 == x_of(word),
        ((word & 0x00F0) >> 4) as u8 == y_of(word),
        (word & 0x000F) as u8 == n_of(word),
        (word & 0x00FF) as u8 == nn_of(word),
        (word & 0x0FFF) == nnn_of(word),
        x_of(word) < 16,
        y_of(word) < 16,
        n_of(word) < 16,
        nnn_of(word) < 4096,
        0 <= family_of(word) < 16,
{
    assert((word >> 12) == word / 4096) by (bit_vector);
    assert(((word & 0x0F00) >> 8) == (word / 256) % 16) by (bit_vector);
    assert(((word & 0x00F0) >> 4) == (word / 16) % 16) by (bit_vector);
    assert((word & 0x000F) == word % 16) by (bit_vector);
    assert((word & 0x00FF) == word % 256) by (bit_vector);
    assert((word & 0x0FFF) == word % 4096) by (bit_vector);
}

/// Decodes one instruction word.
pub fn decode(word: u16) -> (r: Result<Instruction, Chip8Error>)
    ensures
        r == decode_spec(word),
        r matches Ok(ins) ==> ins.wf(),
{
    proof {
        lemma_fields(word);
    }
    let family: u16 = word >> 12;
    let x: u8 = ((word & 0x0F00) >> 8) as u8;
    let y: u8 = ((word & 0x00F0) >> 4) as u8;
    let n: u8 = (word & 0x000F) as u8;
    let nn: u8 = (word & 0x00FF) as u8;
    let nnn: u16 = word & 0x0FFF;
    match family {
        0x0 => match nn {
            0xE0 => Ok(Instruction::Cls),
            0xEE => Ok(Instruction::Ret),
            _ => Err(Chip8Error::IllegalInstruction(word)),
        },
        0x1 => Ok(Instruction::Jp { addr: nnn }),
        0x2 => Ok(Instruction::Call { addr: nnn }),
        0x3 => Ok(Instruction::SeByte { x, byte: nn }),
        0x4 => Ok(Instruction::SneByte { x, byte: nn }),
        0x5 => Ok(Instruction::SeReg { x, y }),
        0x6 => Ok(Instruction::LdByte { x, byte: nn }),
        0x7 => Ok(Instruction::AddByte { x, byte: nn }),
        0x8 => match n {
            0x0 => Ok(Instruction::LdReg { x, y }),
            0x1 => Ok(Instruction::Or { x, y }),
            0x2 => Ok(Instruction::And { x, y }),
            0x3 => Ok(Instruction::Xor { x, y }),
            0x4 => Ok(Instruction::AddReg { x, y }),
            0x5 => Ok(Instruction::Sub { x, y }),
            0x6 => Ok(Instruction::Shr { x, y }),
            0x7 => Ok(Instruction::Subn { x, y }),
            0xE => Ok(Instruction::Shl { x, y }),
            _ => Err(Chip8Error::IllegalInstruction(word)),
        },
        0x9 => match n {
            0x0 => Ok(Instruction::SneReg { x, y }),
            _ => Err(Chip8Error::IllegalInstruction(word)),
        },
        0xA => Ok(Instruction::LdI { addr: nnn }),
        0xB => Ok(Instruction::JpV0 { addr: nnn }),
        0xC => Ok(Instruction::Rnd { x, byte: nn }),
        0xD => Ok(Instruction::Drw { x, y, rows: n }),
        0xE => match nn {
            0x9E => Ok(Instruction::Skp { x }),
            0xA1 => Ok(Instruction::Sknp { x }),
            _ => Err(Chip8Error::IllegalInstruction(word)),
        },
        _ => match nn {
            0x07 => Ok(Instruction::LdVxDt { x }),
            0x0A => Ok(Instruction::LdVxK { x }),
            0x15 => Ok(Instruction::LdDtVx { x }),
            0x18 => Ok(Instruction::LdStVx { x }),
            0x1E => Ok(Instruction::AddI { x }),
            0x29 => Ok(Instruction::LdF { x }),
            0x33 => Ok(Instruction::LdB { x }),
            0x55 => Ok(Instruction::StoreRegs { x }),
            0x65 => Ok(Instruction::LoadRegs { x }),
            _ => Ok(Instruction::Ignored { word }),
        },
    }
}

} // verus!
