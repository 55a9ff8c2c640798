use vstd::prelude::*;

verus! {

/// The operation that a grid cell stands for outside string mode.
#[derive(Clone, Copy, Debug, PartialEq, Eq, Structural)]
pub enum Op {
    /// `v`: turn down, if moving horizontally.
    TurnDown,
    /// `^`: turn up, if moving horizontally.
    TurnUp,
    /// `<`: turn left, if moving vertically.
    TurnLeft,
    /// `>`: turn right, if moving vertically.
    TurnRight,
    /// `+`: pop a, pop b, push b + a (wrapping).
    Add,
    /// `-`: pop a, pop b, push b - a (wrapping).
    Sub,
    /// `*`: pop a, pop b, push b * a (wrapping).
    Mul,
    /// `/`: pop a, pop b, push b / a.
    Div,
    /// `%`: pop a, pop b, push b % a.
    Rem,
    /// `0`-`9`, `a`-`f`: push the digit's value.
    Digit(u64),
    /// `,`: pop a value and hand it out.
    Print,
    /// `"`: enter string mode.
    StringMode,
    /// `;`: pop a value and stop with it.
    Exit,
    /// `!`: pop a, push 1 if a is 0, else 0.
    Not,
    /// `` ` ``: pop a, pop b, push 1 if b > a, else 0.
    Greater,
    /// `:`: push a copy of the top.
    Dup,
    /// `$`: pop and drop the top.
    Drop,
    /// `&`: exchange the top two values.
    Swap,
    /// `|`: while moving horizontally, pop a value and reverse if it is nonzero.
    MirrorH,
    /// `_`: while moving vertically, pop a value and reverse if it is nonzero.
    MirrorV,
    /// `s`: pop an address, pop a value, store the value at the address.
    Store,
    /// `r`: pop an address, push the value stored there.
    Recall,
    /// `n` or `√`: pop a, push the integer square root of a.
    Sqrt,
    /// `o`: pop a, pop b, push b, a, b.
    Over,
    /// Any other character.
    Nop,
}

pub open spec fn is_hex_digit(c: char) -> bool {
    ('0' <= c && c <= '9') || ('a' <= c && c <= 'f')
}

/// The value of a lowercase hexadecimal digit.
pub open spec fn hex_value(c: char) -> u64 {
    if '0' <= c && c <= '9' {
        (c as int - '0' as int) as u64
    } else {
        (c as int - 'a' as int + 10) as u64
    }
}

/// The operation of each character.
pub open spec fn op_of(c: char) -> Op {
    if is_hex_digit(c) {
        Op::Digit(hex_value(c))
    } else {
        match c {
            'v' => Op::TurnDown,
            '^' => Op::TurnUp,
            '<' => Op::TurnLeft,
            '>' => Op::TurnRight,
            '+' => Op::Add,
            '-' => Op::Sub,
            '*' => Op::Mul,
            '/' => Op::Div,
            '%' => Op::Rem,
            ',' => Op::Print,
            '"' => Op::StringMode,
            ';' => Op::Exit,
            '!' => Op::Not,
            '`' => Op::Greater,
            ':' => Op::Dup,
            '$' => Op::Drop,
            '&' => Op::Swap,
            '|' => Op::MirrorH,
            '_' => Op::MirrorV,
            's' => Op::Store,
            'r' => Op::Recall,
            'n' => Op::Sqrt,
            '\u{221a}' => Op::Sqrt,
            'o' => Op::Over,
            _ => Op::Nop,
        }
    }
}

/// The value that string mode pushes for the character after a backslash.
pub open spec fn escape_value(c: char) -> u64 {
    match c {
        'n' => '\n' as u64,
        't' => '\t' as u64,
        'r' => '\r' as u64,
        _ => c as u64,
    }
}

/// The value of a lowercase hexadecimal digit.
pub fn digit_value(c: char) -> (r: u64)
    requires
        is_hex_digit(c),
    ensures
        r == hex_value(c),
{
    if '0' <= c && c <= '9' {
        (c as u32 - '0' as u32) as u64
    } else {
        (c as u32 - 'a' as u32 + 10) as u64
    }
}

/// Decodes one grid cell.
pub fn decode(c: char) -> (r: Op)
    ensures
        r == op_of(c),
{
    if ('0' <= c && c <= '9') || ('a' <= c && c <= 'f') {
        return Op::Digit(digit_value(c));
    }
    match c {
        'v' => Op::TurnDown,
        '^' => Op::TurnUp,
        '<' => Op::TurnLeft,
        '>' => Op::TurnRight,
        '+' => Op::Add,
        '-' => Op::Sub,
        '*' => Op::Mul,
        '/' => Op::Div,
        '%' => Op::Rem,
        ',' => Op::Print,
        '"' => Op::StringMode,
        ';' => Op::Exit,
        '!' => Op::Not,
        '`' => Op::Greater,
        ':' => Op::Dup,
        '$' => Op::Drop,
        '&' => Op::Swap,
        '|' => Op::MirrorH,
        '_' => Op::MirrorV,
        's' => Op::Store,
        'r' => Op::Recall,
        'n' => Op::Sqrt,
        '\u{221a}' => Op::Sqrt,
        'o' => Op::Over,
        _ => Op::Nop,
    }
}

/// The value pushed for the character that follows a backslash in string mode.
pub fn escape(c: char) -> (r: u64)
    ensures
        r == escape_value(c),
{
    match c {
        'n' => '\n' as u64,
        't' => '\t' as u64,
        'r' => '\r' as u64,
        _ => c as u64,
    }
}

/// `r` is the integer square root of `a`.
pub open spec fn is_floor_sqrt(a: u64, r: u64) -> bool {
    r * r <= a < (r + 1) * (r + 1)
}

/// The largest integer whose square is at most `a`.
pub open spec fn floor_sqrt(a: u64) -> u64 {
    choose|r: u64| is_floor_sqrt(a, r)
}

/// At most one integer is the square root of `a`.
pub proof fn lemma_floor_sqrt_unique(a: u64, r: u64, s: u64)
    requires
        is_floor_sqrt(a, r),
        is_floor_sqrt(a, s),
    ensures
        r == s,
{
    if r < s {
        assert((r + 1) * (r + 1) <= s * s) by (nonlinear_arith)
            requires
                r + 1 <= s,
        ;
    } else if s < r {
        assert((s + 1) * (s + 1) <= r * r) by (nonlinear_arith)
            requires
                s + 1 <= r,
        ;
    }
}

/// The integer square root, by bisection.
pub fn isqrt(a: u64) -> (r: u64)
    ensures
        r == floor_sqrt(a),
{
    let mut lo: u64 = 0;
    let mut hi: u64 = 0x1_0000_0000;
    assert(a < hi * hi);
    while hi - lo > 1
        invariant
            lo < hi <= 0x1_0000_0000,
            lo * lo <= a,
            a < hi * hi,
        decreases hi - lo,
    {
        let mid: u64 = lo + (hi - lo) / 2;
        assert(mid * mid <= 0xffff_ffff * 0xffff_ffff) by (nonlinear_arith)
            requires
                mid < 0x1_0000_0000,
        ;
        if mid * mid <= a {
            lo = mid;
        } else {
            hi = mid;
        }
    }
    proof {
        assert(is_floor_sqrt(a, lo));
        lemma_floor_sqrt_unique(a, lo, floor_sqrt(a));
    }
    lo
}

} // verus!
