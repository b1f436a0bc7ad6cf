use vstd::prelude::*;
use vstd::string::StrSliceExecFns;

verus! {

/// Why a numeric argument was not accepted.
#[derive(Clone, Copy, Debug, PartialEq, Eq, Structural)]
pub enum NumError {
    /// The text is empty.
    Empty,
    /// Some character is not a digit of the radix (a lone `+` included).
    InvalidDigit,
    /// The digits are valid but the number exceeds the target type.
    Overflow,
}

/// The value of `c` as a digit (`0`-`9`, then `a`-`z` or `A`-`Z` from ten up);
/// 99 for any other character.
pub open spec fn digit_value(c: char) -> nat {
    let u = c as u32;
    if 48 <= u <= 57 {
        (u - 48) as nat
    } else if 97 <= u <= 122 {
        (u - 97 + 10) as nat
    } else if 65 <= u <= 90 {
        (u - 65 + 10) as nat
    } else {
        99
    }
}

pub open spec fn is_digit(c: char, radix: u32) -> bool {
    digit_value(c) < radix
}

pub open spec fn all_digits(d: Seq<char>, radix: u32) -> bool {
    forall|i: int| 0 <= i < d.len() ==> is_digit(#[trigger] d[i], radix)
}

/// The number that the digit string `d` denotes in base `radix`.
pub open spec fn digits_value(d: Seq<char>, radix: u32) -> nat
    decreases d.len(),
{
    if d.len() == 0 {
        0
    } else {
        (digits_value(d.drop_last(), radix) * radix + digit_value(d.last())) as nat
    }
}

/// The text without one leading `+`, if it has one.
pub open spec fn strip_plus(s: Seq<char>) -> Seq<char> {
    if s.len() > 0 && s[0] == '+' {
        s.drop_first()
    } else {
        s
    }
}

/// What reading `s` as an unsigned number in base `radix`, no larger than
/// `max`, gives.
pub open spec fn parse_spec(s: Seq<char>, radix: u32, max: nat) -> Result<nat, NumError> {
    let d = strip_plus(s);
    if s.len() == 0 {
        Err(NumError::Empty)
    } else if d.len() == 0 || !all_digits(d, radix) {
        Err(NumError::InvalidDigit)
    } else if digits_value(d, radix) > max {
        Err(NumError::Overflow)
    } else {
        Ok(digits_value(d, radix))
    }
}

proof fn lemma_value_grows(d: Seq<char>, radix: u32)
    requires
        d.len() > 0,
        radix >= 1,
    ensures
        digits_value(d, radix) >= digits_value(d.drop_last(), radix),
{
    let p = digits_value(d.drop_last(), radix);
    assert(p * radix >= p) by (nonlinear_arith)
        requires
            radix >= 1,
            p >= 0,
    ;
}

fn digit_of(c: char) -> (r: u32)
    ensures
        r == digit_value(c),
{
    let u = c as u32;
    if 48 <= u && u <= 57 {
        u - 48
    } else if 97 <= u && u <= 122 {
        u - 97 + 10
    } else if 65 <= u && u <= 90 {
        u - 65 + 10
    } else {
        99
    }
}

/// Reads `s` as an unsigned number in base `radix` that is at most `max`:
/// one leading `+` is allowed, every other character must be a digit.
pub fn parse_unsigned(s: &str, radix: u32, max: u64) -> (r: Result<u64, NumError>)
    requires
        2 <= radix <= 36,
    ensures
        match r {
            Ok(v) => parse_spec(s@, radix, max as nat) == Ok::<nat, NumError>(v as nat),
            Err(e) => parse_spec(s@, radix, max as nat) == Err::<nat, NumError>(e),
        },
{
    let n = s.unicode_len();
    if n == 0 {
        return Err(NumError::Empty);
    }
    let start: usize = if s.get_char(0) == '+' {
        1
    } else {
        0
    };
    let ghost d = strip_plus(s@);
    assert(d == s@.subrange(start as int, n as int));
    if start == n {
        return Err(NumError::InvalidDigit);
    }
    let mut acc: u64 = 0;
    let mut over = false;
    let mut i: usize = start;
    while i < n
        invariant
            2 <= radix <= 36,
            n == s@.len(),
            start <= i <= n,
            d == s@.subrange(start as int, n as int),
            d == strip_plus(s@),
            all_digits(s@.subrange(start as int, i as int), radix),
            !over ==> acc == digits_value(s@.subrange(start as int, i as int), radix) && acc <= max,
            over ==> digits_value(s@.subrange(start as int, i as int), radix) > max,
        decreases n - i,
    {
        let c = s.get_char(i);
        let dv = digit_of(c);
        if dv >= radix {
            assert(d[i - start] == c);
            assert(!is_digit(d[i - start], radix));
            assert(!all_digits(d, radix));
            return Err(NumError::InvalidDigit);
        }
        let ghost prev = s@.subrange(start as int, i as int);
        let ghost next = s@.subrange(start as int, i + 1);
        assert(next.drop_last() == prev);
        assert(next.last() == c);
        assert(all_digits(next, radix)) by {
            assert forall|j: int| 0 <= j < next.len() implies is_digit(#[trigger] next[j], radix) by {
                if j < prev.len() {
                    assert(next[j] == prev[j]);
                }
            }
        }
        proof {
            lemma_value_grows(next, radix);
        }
        if !over {
            assert(acc as u128 * radix as u128 <= 36 * 0xffff_ffff_ffff_ffffu128) by (nonlinear_arith)
                requires
                    acc <= 0xffff_ffff_ffff_ffffu64,
                    radix <= 36,
            ;
            let wide: u128 = acc as u128 * radix as u128 + dv as u128;
            if wide > max as u128 {
                over = true;
            } else {
                acc = wide as u64;
            }
        }
        i = i + 1;
    }
    assert(s@.subrange(start as int, n as int) == d);
    if over {
        Err(NumError::Overflow)
    } else {
        Ok(acc)
    }
}

/// Reads an overlay network identifier: hexadecimal digits, at most 64 bits.
pub fn parse_network_id(s: &str) -> (r: Result<u64, NumError>)
    ensures
        match r {
            Ok(v) => parse_spec(s@, 16, u64::MAX as nat) == Ok::<nat, NumError>(v as nat),
            Err(e) => parse_spec(s@, 16, u64::MAX as nat) == Err::<nat, NumError>(e),
        },
{
    parse_unsigned(s, 16, u64::MAX)
}

/// Reads a TCP port number: decimal digits, at most 65535.
pub fn parse_port(s: &str) -> (r: Result<u16, NumError>)
    ensures
        match r {
            Ok(v) => parse_spec(s@, 10, u16::MAX as nat) == Ok::<nat, NumError>(v as nat),
            Err(e) => parse_spec(s@, 10, u16::MAX as nat) == Err::<nat, NumError>(e),
        },
{
    match parse_unsigned(s, 10, u16::MAX as u64) {
        Ok(v) => Ok(v as u16),
        Err(e) => Err(e),
    }
}

/// The number of command-line words, the program name included.
pub const ARG_COUNT: usize = 5;

/// What the command line asks for.
pub struct ProxyArgs {
    /// Where the overlay node keeps its identity and state.
    pub storage_path: String,
    /// The overlay network to join.
    pub network_id: u64,
    /// The port to accept clients on, at the assigned overlay address.
    pub listen_port: u16,
    /// The upstream `address:port`, as written.
    pub target: String,
}

/// Why the command line was not accepted.
#[derive(Clone, Copy, Debug, PartialEq, Eq, Structural)]
pub enum ArgsError {
    WrongCount,
    BadNetworkId(NumError),
    BadListenPort(NumError),
}

/// What `parse_args` gives for the words `a` (program name first).
pub open spec fn args_outcome(a: Seq<Seq<char>>, r: Result<ProxyArgs, ArgsError>) -> bool {
    if a.len() != ARG_COUNT {
        r == Err::<ProxyArgs, ArgsError>(ArgsError::WrongCount)
    } else {
        match parse_spec(a[2], 16, u64::MAX as nat) {
            Err(e) => r == Err::<ProxyArgs, ArgsError>(ArgsError::BadNetworkId(e)),
            Ok(id) => match parse_spec(a[3], 10, u16::MAX as nat) {
                Err(e) => r == Err::<ProxyArgs, ArgsError>(ArgsError::BadListenPort(e)),
                Ok(port) => match r {
                    Ok(p) => {
                        &&& p.storage_path@ == a[1]
                        &&& p.network_id == id
                        &&& p.listen_port == port
                        &&& p.target@ == a[4]
                    },
                    Err(_) => false,
                },
            },
        }
    }
}

pub open spec fn words_view(args: Seq<String>) -> Seq<Seq<char>> {
    args.map_values(|w: String| w@)
}

/// Reads `<storage_path> <network_id_hex> <listen_port> <target>` after the
/// program name.
pub fn parse_args(args: &Vec<String>) -> (r: Result<ProxyArgs, ArgsError>)
    ensures
        args_outcome(words_view(args@), r),
{
    if args.len() != ARG_COUNT {
        return Err(ArgsError::WrongCount);
    }
    let network_id = match parse_network_id(args[2].as_str()) {
        Ok(v) => v,
        Err(e) => {
            return Err(ArgsError::BadNetworkId(e));
        },
    };
    let listen_port = match parse_port(args[3].as_str()) {
        Ok(v) => v,
        Err(e) => {
            return Err(ArgsError::BadListenPort(e));
        },
    };
    Ok(ProxyArgs {
        storage_path: args[1].clone(),
        network_id,
        listen_port,
        target: args[4].clone(),
    })
}

} // verus!
