//! Command-line options.
use vstd::prelude::*;

use crate::text::{lower_of, lowercase, same_text};

verus! {

/// What the command line asks for.
#[derive(Debug)]
pub struct CommandLineOptions {
    /// `-c`: console.
    pub console: String,
    /// `-d`: file for the cartridge ROM.
    pub filename: String,
    /// `-a`: file for save RAM.
    pub savefile: String,
    /// `-m`: NES mapper.
    pub mapper: String,
    /// `-x`: PRG-ROM size in KB.
    pub prg_size: u16,
    /// `-y`: CHR-ROM size in KB.
    pub chr_size: u16,
}

/// The consoles this host dumps.
#[derive(Debug, Clone, Copy, PartialEq, Eq, Structural)]
pub enum Console {
    Nes,
    Snes,
    Gb,
    Gba,
    Genesis,
}

/// The console a lower-case name stands for.
pub open spec fn spec_console_named(s: Seq<char>) -> Option<Console> {
    if s == "nes"@ {
        Some(Console::Nes)
    } else if s == "snes"@ {
        Some(Console::Snes)
    } else if s == "gb"@ {
        Some(Console::Gb)
    } else if s == "gba"@ {
        Some(Console::Gba)
    } else if s == "genesis"@ {
        Some(Console::Genesis)
    } else {
        None
    }
}

/// The console named by `lower`, a name already in lower case.
pub fn console_named(lower: &String) -> (r: Option<Console>)
    ensures
        r == spec_console_named(lower@),
{
    if same_text(lower, "nes") {
        Some(Console::Nes)
    } else if same_text(lower, "snes") {
        Some(Console::Snes)
    } else if same_text(lower, "gb") {
        Some(Console::Gb)
    } else if same_text(lower, "gba") {
        Some(Console::Gba)
    } else if same_text(lower, "genesis") {
        Some(Console::Genesis)
    } else {
        None
    }
}

/// The console named by `name`, in any case.
pub fn parse_console(name: &str) -> (r: Option<Console>)
    ensures
        r == spec_console_named(lower_of(name@)),
{
    let lower = lowercase(name);
    console_named(&lower)
}

/// Why the command line was refused.
#[derive(Debug, PartialEq, Eq)]
pub enum CliError {
    /// Fewer than two arguments.
    NotEnoughArguments,
    /// `-h` or `--help`.
    Help,
    /// An option at this position lacks its value.
    MissingValue(usize),
    /// A size that is not a decimal number from 0 to 65535.
    InvalidNumber(String),
}

/// The value of a decimal digit character.
pub open spec fn digit_value(c: char) -> int {
    c as int - '0' as int
}

pub open spec fn is_digit(c: char) -> bool {
    '0' <= c && c <= '9'
}

/// The number the decimal digits `s` spell.
pub open spec fn spec_decimal(s: Seq<char>) -> int
    decreases s.len(),
{
    if s.len() == 0 {
        0
    } else {
        spec_decimal(s.drop_last()) * 10 + digit_value(s.last())
    }
}

/// The digits of `s` after an optional leading `+`.
pub open spec fn spec_unsigned_digits(s: Seq<char>) -> Seq<char> {
    if s.len() > 0 && s[0] == '+' {
        s.subrange(1, s.len() as int)
    } else {
        s
    }
}

/// The 16-bit number `s` writes in decimal, with an optional leading `+`.
pub open spec fn spec_parse_u16(s: Seq<char>) -> Option<u16> {
    let d = spec_unsigned_digits(s);
    if d.len() > 0 && (forall|i: int| 0 <= i < d.len() ==> is_digit(#[trigger] d[i])) && spec_decimal(d) <= 0xFFFF {
        Some(spec_decimal(d) as u16)
    } else {
        None
    }
}

proof fn lemma_decimal_nonneg(s: Seq<char>)
    requires
        forall|i: int| 0 <= i < s.len() ==> is_digit(#[trigger] s[i]),
    ensures
        spec_decimal(s) >= 0,
    decreases s.len(),
{
    if s.len() > 0 {
        lemma_decimal_nonneg(s.drop_last());
    }
}

/// Reads `s` as a decimal number from 0 to 65535.
pub fn parse_u16(s: &str) -> (r: Option<u16>)
    ensures
        r == spec_parse_u16(s@),
{
    let n: usize = s.unicode_len();
    let mut start: usize = 0;
    if n > 0 && s.get_char(0) == '+' {
        start = 1;
    }
    let ghost d = spec_unsigned_digits(s@);
    assert(d =~= s@.subrange(start as int, n as int));
    if start >= n {
        return None;
    }
    let mut value: u32 = 0;
    let mut capped: bool = false;
    let mut i: usize = start;
    while i < n
        invariant
            start <= i <= n,
            n == s@.len(),
            d == s@.subrange(start as int, n as int),
            d == spec_unsigned_digits(s@),
            forall|j: int| 0 <= j < i - start ==> is_digit(#[trigger] d[j]),
            !capped ==> value as int == spec_decimal(d.subrange(0, i - start)),
            !capped ==> value <= 0xFFFF,
            capped ==> spec_decimal(d.subrange(0, i - start)) > 0xFFFF,
        decreases n - i,
    {
        let c = s.get_char(i);
        if c < '0' || c > '9' {
            assert(!is_digit(d[i - start]));
            assert(!(forall|j: int| 0 <= j < d.len() ==> is_digit(#[trigger] d[j])));
            return None;
        }
        let dv: u32 = (c as u32) - ('0' as u32);
        proof {
            let p = d.subrange(0, i - start + 1);
            assert(p.drop_last() =~= d.subrange(0, i - start));
            assert(p.last() == c);
            lemma_decimal_nonneg(d.subrange(0, i - start));
        }
        if !capped {
            value = value * 10 + dv;
            if value > 0xFFFF {
                capped = true;
            }
        }
        i = i + 1;
    }
    assert(d.subrange(0, n - start) =~= d);
    if capped {
        None
    } else {
        Some(value as u16)
    }
}

/// Reads a size argument; anything but a decimal number from 0 to 65535 is
/// refused, naming the argument.
pub fn parse_number(argument: &String) -> (r: Result<u16, CliError>)
    ensures
        spec_parse_u16(argument@) matches Some(v) ==> r == Ok::<u16, CliError>(v),
        spec_parse_u16(argument@) is None ==> (r matches Err(CliError::InvalidNumber(a)) && a@ == argument@),
{
    match parse_u16(argument.as_str()) {
        Some(v) => Ok(v),
        None => Err(CliError::InvalidNumber(argument.clone())),
    }
}

/// The options as plain values.
pub struct OptionsModel {
    pub console: Seq<char>,
    pub filename: Seq<char>,
    pub savefile: Seq<char>,
    pub mapper: Seq<char>,
    pub prg_size: u16,
    pub chr_size: u16,
}

pub open spec fn takes_value(a: Seq<char>) -> bool {
    a == "-c"@ || a == "-d"@ || a == "-a"@ || a == "-m"@ || a == "-x"@ || a == "-y"@
}

/// Reading the arguments from position `i` on, with options `o` so far: help
/// stops with `Help`; an option that takes a value sets it from the next
/// argument, or stops with `MissingValue` at its position when there is
/// none; a size that does not parse stops with `InvalidNumber`; anything
/// else is skipped. A later option overrides an earlier one.
pub open spec fn spec_parse_from(args: Seq<Seq<char>>, i: nat, o: OptionsModel) -> Result<OptionsModel, CliError>
    decreases args.len() - i,
{
    if i >= args.len() {
        Ok(o)
    } else {
        let a = args[i as int];
        if a == "-h"@ || a == "--help"@ {
            Err(CliError::Help)
        } else if takes_value(a) {
            if i + 1 >= args.len() {
                Err(CliError::MissingValue(i as usize))
            } else {
                let v = args[i + 1 as int];
                if a == "-x"@ || a == "-y"@ {
                    match spec_parse_u16(v) {
                        None => Err(CliError::InvalidNumber(arbitrary())),
                        Some(n) => spec_parse_from(
                            args,
                            i + 2,
                            if a == "-x"@ {
                                OptionsModel { prg_size: n, ..o }
                            } else {
                                OptionsModel { chr_size: n, ..o }
                            },
                        ),
                    }
                } else {
                    spec_parse_from(
                        args,
                        i + 2,
                        if a == "-c"@ {
                            OptionsModel { console: v, ..o }
                        } else if a == "-d"@ {
                            OptionsModel { filename: v, ..o }
                        } else if a == "-a"@ {
                            OptionsModel { savefile: v, ..o }
                        } else {
                            OptionsModel { mapper: v, ..o }
                        },
                    )
                }
            }
        } else {
            spec_parse_from(args, i + 1, o)
        }
    }
}

pub open spec fn spec_model(o: CommandLineOptions) -> OptionsModel {
    OptionsModel {
        console: o.console@,
        filename: o.filename@,
        savefile: o.savefile@,
        mapper: o.mapper@,
        prg_size: o.prg_size,
        chr_size: o.chr_size,
    }
}

pub open spec fn spec_empty_options() -> OptionsModel {
    OptionsModel {
        console: Seq::empty(),
        filename: Seq::empty(),
        savefile: Seq::empty(),
        mapper: Seq::empty(),
        prg_size: 0,
        chr_size: 0,
    }
}

/// Whether two results agree, with an invalid number compared by kind only.
pub open spec fn same_outcome(r: Result<CommandLineOptions, CliError>, m: Result<OptionsModel, CliError>) -> bool {
    match (r, m) {
        (Ok(o), Ok(mo)) => spec_model(o) == mo,
        (Err(CliError::InvalidNumber(_)), Err(CliError::InvalidNumber(_))) => true,
        (Err(e), Err(f)) => e == f,
        _ => false,
    }
}

/// Reads the command line `args`, the program name first. Fewer than two
/// arguments is `NotEnoughArguments`; otherwise every argument is read in
/// turn from the first as `spec_parse_from` says, from empty options.
pub fn parse_command_line(args: &Vec<String>) -> (r: Result<CommandLineOptions, CliError>)
    ensures
        args@.len() < 2 ==> r == Err::<CommandLineOptions, CliError>(CliError::NotEnoughArguments),
        args@.len() >= 2 ==> same_outcome(
            r,
            spec_parse_from(args@.map_values(|s: String| s@), 0, spec_empty_options()),
        ),
{
    if args.len() < 2 {
        return Err(CliError::NotEnoughArguments);
    }
    let ghost view = args@.map_values(|s: String| s@);
    let mut console = String::new();
    let mut filename = String::new();
    let mut savefile = String::new();
    let mut mapper = String::new();
    let mut prg_size: u16 = 0;
    let mut chr_size: u16 = 0;
    let mut i: usize = 0;
    while i < args.len()
        invariant
            2 <= args@.len(),
            i <= args@.len(),
            view == args@.map_values(|s: String| s@),
            spec_parse_from(view, 0, spec_empty_options()) == spec_parse_from(
                view,
                i as nat,
                OptionsModel {
                    console: console@,
                    filename: filename@,
                    savefile: savefile@,
                    mapper: mapper@,
                    prg_size,
                    chr_size,
                },
            ),
        decreases args@.len() - i,
    {
        let a = &args[i];
        assert(view[i as int] == a@);
        if same_text(a, "-h") || same_text(a, "--help") {
            return Err(CliError::Help);
        }
        let is_c = same_text(a, "-c");
        let is_d = same_text(a, "-d");
        let is_a = same_text(a, "-a");
        let is_m = same_text(a, "-m");
        let is_x = same_text(a, "-x");
        let is_y = same_text(a, "-y");
        if is_c || is_d || is_a || is_m || is_x || is_y {
            if i + 1 >= args.len() {
                return Err(CliError::MissingValue(i));
            }
            let v = &args[i + 1];
            assert(view[i + 1] == v@);
            if is_x || is_y {
                let n = parse_number(v)?;
                if is_x {
                    prg_size = n;
                } else {
                    chr_size = n;
                }
            } else if is_c {
                console = v.clone();
            } else if is_d {
                filename = v.clone();
            } else if is_a {
                savefile = v.clone();
            } else {
                mapper = v.clone();
            }
            i = i + 2;
        } else {
            i = i + 1;
        }
    }
    Ok(CommandLineOptions { console, filename, savefile, mapper, prg_size, chr_size })
}

} // verus!
