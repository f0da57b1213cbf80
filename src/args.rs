use vstd::prelude::*;

verus! {

/// Benchmark settings: grid resolution, number of lines, number of passes.
#[derive(Debug, Clone, Copy, PartialEq, Eq)]
pub struct Config {
    pub resolucion: u32,
    pub lineas: u32,
    pub veces: u32,
}

/// Fewer than three arguments follow the program name.
pub const MISSING_ARGS: &'static str =
    "Faltan argumentos. El comando se llama de la forma ./tarea2 <resolución> <# líneas> <# veces>";

/// The resolution is not an integer.
pub const BAD_RESOLUTION: &'static str =
    "El argumento #1 no se pudo convertir a entero. Todos los argumentos deben ser números enteros.";

/// The line count is not an integer.
pub const BAD_LINE_COUNT: &'static str =
    "El argumento #2 no se pudo convertir a entero. Todos los argumentos deben ser números enteros.";

/// The repeat count is not an integer.
pub const BAD_REPEAT_COUNT: &'static str =
    "El argumento #3 no se pudo convertir a entero. Todos los argumentos deben ser números enteros.";

/// Whether every character of `s` is an ASCII decimal digit.
pub open spec fn all_digits(s: Seq<char>) -> bool {
    forall|i: int| 0 <= i < s.len() ==> '0' <= #[trigger] s[i] <= '9'
}

/// The value of a string of decimal digits, most significant first.
pub open spec fn digits_value(s: Seq<char>) -> int
    decreases s.len(),
{
    if s.len() == 0 {
        0
    } else {
        10 * digits_value(s.drop_last()) + (s.last() as int - '0' as int)
    }
}

/// What `s` denotes as a `u32` in decimal: an optional `+` followed by one or
/// more ASCII digits whose value fits in 32 bits; `None` for anything else.
pub open spec fn decimal_u32(s: Seq<char>) -> Option<u32> {
    let digits = if s.len() > 0 && s[0] == '+' {
        s.drop_first()
    } else {
        s
    };
    if digits.len() > 0 && all_digits(digits) && digits_value(digits) <= u32::MAX {
        Some(digits_value(digits) as u32)
    } else {
        None
    }
}

/// Relies on `str::parse::<u32>` (u32's `FromStr`), which accepts exactly an
/// optional `+` followed by ASCII digits, and fails on a value over `u32::MAX`.
#[verifier::external_body]
fn parse_u32(s: &str) -> (r: Option<u32>)
    ensures
        r == decimal_u32(s@),
{
    s.parse::<u32>().ok()
}

/// The outcome of reading `args`, where `args[0]` is the program name and the
/// next three are resolution, line count and repeat count.
pub open spec fn args_outcome(args: Seq<Seq<char>>) -> Result<Config, &'static str> {
    if args.len() < 4 {
        Err(MISSING_ARGS)
    } else if decimal_u32(args[1]) is None {
        Err(BAD_RESOLUTION)
    } else if decimal_u32(args[2]) is None {
        Err(BAD_LINE_COUNT)
    } else if decimal_u32(args[3]) is None {
        Err(BAD_REPEAT_COUNT)
    } else {
        Ok(
            Config {
                resolucion: decimal_u32(args[1])->Some_0,
                lineas: decimal_u32(args[2])->Some_0,
                veces: decimal_u32(args[3])->Some_0,
            },
        )
    }
}

/// Reads the benchmark settings from the command line. Arguments past the
/// fourth are ignored; the first one that fails to parse names the error.
pub fn parse_args(args: &[String]) -> (r: Result<Config, &str>)
    ensures
        r == args_outcome(args@.map_values(|a: String| a@)),
{
    let ghost views = args@.map_values(|a: String| a@);
    if args.len() < 4 {
        return Err(MISSING_ARGS);
    }
    assert(views[1] == args@[1]@ && views[2] == args@[2]@ && views[3] == args@[3]@);
    let resolucion = match parse_u32(args[1].as_str()) {
        Some(v) => v,
        None => return Err(BAD_RESOLUTION),
    };
    let lineas = match parse_u32(args[2].as_str()) {
        Some(v) => v,
        None => return Err(BAD_LINE_COUNT),
    };
    let veces = match parse_u32(args[3].as_str()) {
        Some(v) => v,
        None => return Err(BAD_REPEAT_COUNT),
    };
    Ok(Config { resolucion, lineas, veces })
}

} // verus!
