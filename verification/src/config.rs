use vstd::prelude::*;
use vstd::std_specs::iter::IteratorSpec;
use vstd::string::StrSliceExecFns;

verus! {

/// The scale factor that is used where none is given or the one given is
/// no number.
pub const DEFAULT_SCALE_FACTOR: u32 = 2;

/// The delay between two cycles, in milliseconds, that is used where none
/// is given or the one given is no number.
pub const DEFAULT_CYCLE_DELAY: u32 = 3;

/// Whether `c` is one of the digits `0` to `9`.
pub open spec fn is_digit(c: char) -> bool {
    '0' <= c <= '9'
}

/// The value of the digit `c`.
pub open spec fn digit_value(c: char) -> nat {
    (c as u32 - '0' as u32) as nat
}

/// The number that a sequence of digits writes in base ten.
pub open spec fn decimal_value(digits: Seq<char>) -> nat
    decreases digits.len(),
{
    if digits.len() == 0 {
        0
    } else {
        decimal_value(digits.drop_last()) * 10 + digit_value(digits.last())
    }
}

/// Whether every character of the sequence is a digit.
pub open spec fn all_digits(digits: Seq<char>) -> bool {
    forall|i: int| 0 <= i < digits.len() ==> is_digit(#[trigger] digits[i])
}

/// The text without the plus sign that may lead it.
pub open spec fn unsigned_part(text: Seq<char>) -> Seq<char> {
    if text.len() > 0 && text[0] == '+' {
        text.drop_first()
    } else {
        text
    }
}

/// The number that `text` writes: an optional plus sign and then one or
/// more digits whose value fits in 32 bits. Any other text writes none.
pub open spec fn parse_decimal(text: Seq<char>) -> Option<u32> {
    let digits = unsigned_part(text);
    if digits.len() > 0 && all_digits(digits) && decimal_value(digits) <= u32::MAX {
        Some(decimal_value(digits) as u32)
    } else {
        None
    }
}

/// A sequence of digits writes at least what any of its beginnings writes.
proof fn lemma_decimal_value_grows(digits: Seq<char>, k: int)
    requires
        0 <= k <= digits.len(),
    ensures
        decimal_value(digits.take(k)) <= decimal_value(digits),
    decreases digits.len(),
{
    if k == digits.len() {
        assert(digits.take(k) =~= digits);
    } else {
        lemma_decimal_value_grows(digits.drop_last(), k);
        assert(digits.drop_last().take(k) =~= digits.take(k));
    }
}

/// Reads a number in base ten.
pub fn parse_u32(text: &str) -> (r: Option<u32>)
    ensures
        r == parse_decimal(text@),
{
    let len: usize = text.unicode_len();
    let mut i: usize = 0;
    if len > 0 && text.get_char(0) == '+' {
        i = 1;
    }
    if i == len {
        return None;
    }
    let ghost digits = unsigned_part(text@);
    let start: usize = i;
    let mut value: u32 = 0;
    while i < len
        invariant
            start <= i <= len,
            start <= 1,
            len == text@.len(),
            digits == text@.subrange(start as int, len as int),
            digits == unsigned_part(text@),
            all_digits(digits.take(i - start)),
            value == decimal_value(digits.take(i - start)),
        decreases len - i,
    {
        let c: char = text.get_char(i);
        let ghost next = digits.take(i - start + 1);
        proof {
            assert(next.drop_last() =~= digits.take(i - start));
            lemma_decimal_value_grows(digits, i - start + 1);
        }
        if !(c >= '0' && c <= '9') {
            return None;
        }
        let digit: u32 = c as u32 - '0' as u32;
        let tens: u32 = match value.checked_mul(10) {
            Some(tens) => tens,
            None => {
                return None;
            },
        };
        value = match tens.checked_add(digit) {
            Some(sum) => sum,
            None => {
                return None;
            },
        };
        i += 1;
    }
    assert(digits.take(len - start) =~= digits);
    Some(value)
}

/// What the command line asks for.
#[derive(Debug)]
pub struct Config {
    /// Path of the program image.
    pub file_path: String,
    /// Side of one display cell on the screen, in pixels.
    pub video_scale_factor: u32,
    /// Time between two cycles, in milliseconds.
    pub cycle_delay: u32,
}

/// The number that the text writes, or `default` where there is no text
/// or it writes no number.
pub open spec fn number_or(text: Option<Seq<char>>, default: u32) -> u32 {
    match text {
        Some(text) => match parse_decimal(text) {
            Some(value) => value,
            None => default,
        },
        None => default,
    }
}

/// Argument `i` as text, if there is one.
pub open spec fn argument(args: Seq<String>, i: int) -> Option<Seq<char>> {
    if 0 <= i < args.len() {
        Some(args[i]@)
    } else {
        None
    }
}

/// The text of an argument that may be missing.
pub open spec fn text_of(argument: Option<String>) -> Option<Seq<char>> {
    match argument {
        Some(text) => Some(text@),
        None => None,
    }
}

/// Reads the number of an argument that may be missing.
fn read_number_or(argument: &Option<String>, default: u32) -> (value: u32)
    ensures
        value == number_or(text_of(*argument), default),
{
    match argument {
        Some(text) => match parse_u32(text.as_str()) {
            Some(value) => value,
            None => default,
        },
        None => default,
    }
}

impl Config {
    /// Whether `result` is what the arguments `args` ask for: an error
    /// where the path is missing, and else the path with the two numbers
    /// or their defaults.
    pub open spec fn reads(args: Seq<String>, result: Result<Config, &'static str>) -> bool {
        if args.len() < 2 {
            result matches Err(message) && message@ == "Didnt get a file path"@
        } else {
            result matches Ok(config) && config.file_path@ == args[1]@
                && config.video_scale_factor == number_or(argument(args, 2), DEFAULT_SCALE_FACTOR)
                && config.cycle_delay == number_or(argument(args, 3), DEFAULT_CYCLE_DELAY)
        }
    }

    /// The configuration for a path and the texts of the two optional
    /// arguments. A scale factor or a delay that is missing or writes no
    /// number takes its default.
    pub fn from_parts(
        file_path: String,
        scale: Option<String>,
        delay: Option<String>,
    ) -> (config: Config)
        ensures
            config.file_path@ == file_path@,
            config.video_scale_factor == number_or(text_of(scale), DEFAULT_SCALE_FACTOR),
            config.cycle_delay == number_or(text_of(delay), DEFAULT_CYCLE_DELAY),
    {
        let video_scale_factor: u32 = read_number_or(&scale, DEFAULT_SCALE_FACTOR);
        let cycle_delay: u32 = read_number_or(&delay, DEFAULT_CYCLE_DELAY);
        Config { file_path, video_scale_factor, cycle_delay }
    }

    /// Reads the arguments of the program: its own name, the path of the
    /// program image, and then, both optional, the scale factor and the
    /// delay between two cycles.
    ///
    /// Without a path there is no configuration. What is promised of the
    /// configuration is promised for arguments that come one after the
    /// other and then end; how it is made of the arguments once they are
    /// taken is said by [`Config::from_parts`].
    pub fn build(mut args: impl Iterator<Item = String>) -> (r: Result<Config, &'static str>)
        ensures
            args.obeys_prophetic_iter_laws() ==> Config::reads(args.remaining(), r),
            r matches Err(message) ==> message@ == "Didnt get a file path"@,
    {
        let _ = args.next();
        let file_path: String = match args.next() {
            Some(arg) => arg,
            None => {
                return Err("Didnt get a file path");
            },
        };
        let scale: Option<String> = args.next();
        let delay: Option<String> = args.next();
        Ok(Config::from_parts(file_path, scale, delay))
    }
}

} // verus!
