use vstd::prelude::*;

verus! {

/// Width of the numeric fields on the screen.
pub const FIELD_WIDTH: usize = 7;

pub open spec fn digit_char(d: int) -> char
    recommends
        0 <= d < 10,
{
    ((d + 48) as u8) as char
}

/// Decimal digits of `n`, without leading zeros.
pub open spec fn decimal(n: nat) -> Seq<char>
    decreases n,
{
    if n < 10 {
        seq![digit_char(n as int)]
    } else {
        decimal(n / 10).push(digit_char((n % 10) as int))
    }
}

/// `s` right-aligned in a field of `width` characters.
pub open spec fn pad_left(s: Seq<char>, width: nat) -> Seq<char> {
    if s.len() >= width {
        s
    } else {
        Seq::new((width - s.len()) as nat, |i: int| ' ') + s
    }
}

pub open spec fn sign(x: int) -> Seq<char> {
    if x < 0 {
        seq!['-']
    } else {
        Seq::empty()
    }
}

pub open spec fn magnitude(x: int) -> nat {
    if x < 0 {
        (-x) as nat
    } else {
        x as nat
    }
}

/// A temperature in tenths of a degree, with one decimal.
pub open spec fn tenths_text(t: int) -> Seq<char> {
    sign(t) + decimal(magnitude(t) / 10) + seq!['.', digit_char((magnitude(t) % 10) as int)]
}

/// The temperature field: the value right-aligned, or a dashed placeholder.
pub open spec fn temperature_field(t: Option<i16>) -> Seq<char> {
    match t {
        Some(v) => pad_left(tenths_text(v as int), FIELD_WIDTH as nat),
        None => pad_left(seq!['-', '.', '-'], FIELD_WIDTH as nat),
    }
}

/// The dissolved-solids field: the value right-aligned, or a dash placeholder.
pub open spec fn tds_field(v: Option<i64>) -> Seq<char> {
    match v {
        Some(x) => pad_left(sign(x as int) + decimal(magnitude(x as int)), FIELD_WIDTH as nat),
        None => pad_left(seq!['-'], FIELD_WIDTH as nat),
    }
}

pub open spec fn two_digits(n: int) -> Seq<char> {
    seq![digit_char(n / 10), digit_char(n % 10)]
}

/// Local date and time as `MM/DD HH:MM`.
pub open spec fn clock_text(month: int, day: int, hour: int, minute: int) -> Seq<char> {
    two_digits(month) + seq!['/'] + two_digits(day) + seq![' '] + two_digits(hour) + seq![':']
        + two_digits(minute)
}

fn digit(d: u64) -> (c: char)
    requires
        d < 10,
    ensures
        c == digit_char(d as int),
{
    ((d as u8) + 48) as char
}

fn push_decimal(out: &mut Vec<char>, n: u64)
    ensures
        final(out)@ == old(out)@ + decimal(n as nat),
    decreases n,
{
    if n >= 10 {
        push_decimal(out, n / 10);
    }
    out.push(digit(n % 10));
    proof {
        if n < 10 {
            assert(n % 10 == n);
        }
    }
}

fn push_sign_magnitude(out: &mut Vec<char>, x: i64) -> (m: u64)
    ensures
        m == magnitude(x as int),
        final(out)@ == old(out)@ + sign(x as int),
{
    if x < 0 {
        out.push('-');
        (-(x as i128)) as u64
    } else {
        x as u64
    }
}

fn pad_to_width(s: Vec<char>) -> (r: Vec<char>)
    ensures
        r@ == pad_left(s@, FIELD_WIDTH as nat),
{
    if s.len() >= FIELD_WIDTH {
        return s;
    }
    let fill = FIELD_WIDTH - s.len();
    let mut r: Vec<char> = Vec::new();
    let mut i: usize = 0;
    while i < fill
        invariant
            i <= fill,
            r@ == Seq::new(i as nat, |k: int| ' '),
        decreases fill - i,
    {
        r.push(' ');
        i = i + 1;
        assert(r@ =~= Seq::new(i as nat, |k: int| ' '));
    }
    let mut j: usize = 0;
    while j < s.len()
        invariant
            j <= s.len(),
            r@ == Seq::new(fill as nat, |k: int| ' ') + s@.take(j as int),
        decreases s.len() - j,
    {
        r.push(s[j]);
        j = j + 1;
        assert(r@ =~= Seq::new(fill as nat, |k: int| ' ') + s@.take(j as int));
    }
    assert(s@.take(s.len() as int) =~= s@);
    r
}

/// The temperature field of the screen, for the latest temperature in tenths of a
/// degree Celsius, if any.
pub fn temperature_text(temperature: Option<i16>) -> (r: Vec<char>)
    ensures
        r@ == temperature_field(temperature),
{
    let mut s: Vec<char> = Vec::new();
    match temperature {
        Some(t) => {
            let m = push_sign_magnitude(&mut s, t as i64);
            push_decimal(&mut s, m / 10);
            s.push('.');
            s.push(digit(m % 10));
            assert(s@ =~= tenths_text(t as int));
        },
        None => {
            s.push('-');
            s.push('.');
            s.push('-');
            assert(s@ =~= seq!['-', '.', '-']);
        },
    }
    pad_to_width(s)
}

/// The dissolved-solids field of the screen, for the latest value in ppm, if any.
pub fn tds_text(tds: Option<i64>) -> (r: Vec<char>)
    ensures
        r@ == tds_field(tds),
{
    let mut s: Vec<char> = Vec::new();
    match tds {
        Some(x) => {
            let m = push_sign_magnitude(&mut s, x);
            push_decimal(&mut s, m);
        },
        None => {
            s.push('-');
            assert(s@ =~= seq!['-']);
        },
    }
    pad_to_width(s)
}

fn push_two_digits(out: &mut Vec<char>, n: u32)
    requires
        n < 100,
    ensures
        final(out)@ == old(out)@ + two_digits(n as int),
{
    out.push(digit((n / 10) as u64));
    out.push(digit((n % 10) as u64));
}

/// The clock line of the screen, `MM/DD HH:MM`, for a local date and time.
pub fn clock_line(month: u32, day: u32, hour: u32, minute: u32) -> (r: Vec<char>)
    requires
        1 <= month <= 12,
        1 <= day <= 31,
        hour < 24,
        minute < 60,
    ensures
        r@ == clock_text(month as int, day as int, hour as int, minute as int),
{
    let mut s: Vec<char> = Vec::new();
    push_two_digits(&mut s, month);
    s.push('/');
    push_two_digits(&mut s, day);
    s.push(' ');
    push_two_digits(&mut s, hour);
    s.push(':');
    push_two_digits(&mut s, minute);
    assert(s@ =~= clock_text(month as int, day as int, hour as int, minute as int));
    s
}

} // verus!
