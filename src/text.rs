use vstd::prelude::*;

verus! {

/// The inner width of the frame, in characters.
pub const UI_WIDTH: usize = 50;

/// `n` copies of `c`.
pub open spec fn repeat(c: char, n: nat) -> Seq<char> {
    Seq::new(n, |_i: int| c)
}

/// Appends `n` copies of the one-character string `piece`.
pub(crate) fn push_repeat(out: &mut String, piece: &str, n: usize)
    requires
        piece@.len() == 1,
    ensures
        final(out)@ == old(out)@ + repeat(piece@[0], n as nat),
{
    let ghost start = out@;
    let mut i: usize = 0;
    while i < n
        invariant
            i <= n,
            piece@.len() == 1,
            out@ == start + repeat(piece@[0], i as nat),
        decreases n - i,
    {
        out.append(piece);
        i += 1;
        assert(out@ =~= start + repeat(piece@[0], i as nat));
    }
}

/// A frame border: `left`, then `UI_WIDTH` horizontal lines, then `right`.
pub open spec fn border(left: char, right: char) -> Seq<char> {
    seq![left] + repeat('─', UI_WIDTH as nat) + seq![right]
}

fn border_line(left: &str, right: &str) -> (r: String)
    requires
        left@.len() == 1,
        right@.len() == 1,
    ensures
        r@ == border(left@[0], right@[0]),
{
    let mut s = String::from_str(left);
    proof {
        reveal_strlit("─");
    }
    push_repeat(&mut s, "─", UI_WIDTH);
    s.append(right);
    assert(s@ =~= border(left@[0], right@[0]));
    s
}

pub fn frame_top() -> (r: String)
    ensures
        r@ == border('╭', '╮'),
{
    proof {
        reveal_strlit("╭");
        reveal_strlit("╮");
    }
    border_line("╭", "╮")
}

pub fn frame_bottom() -> (r: String)
    ensures
        r@ == border('╰', '╯'),
{
    proof {
        reveal_strlit("╰");
        reveal_strlit("╯");
    }
    border_line("╰", "╯")
}

pub fn frame_sep() -> (r: String)
    ensures
        r@ == border('│', '│'),
{
    proof {
        reveal_strlit("│");
    }
    border_line("│", "│")
}

/// `s` cut or padded with spaces on the right to exactly `UI_WIDTH`.
pub open spec fn fit(s: Seq<char>) -> Seq<char> {
    if s.len() >= UI_WIDTH {
        s.subrange(0, UI_WIDTH as int)
    } else {
        s + repeat(' ', (UI_WIDTH - s.len()) as nat)
    }
}

/// `s` between two vertical frame lines, cut or padded to the frame's width.
pub fn frame_line(s: &str) -> (r: String)
    ensures
        r@ == seq!['│'] + fit(s@) + seq!['│'],
        r@.len() == UI_WIDTH + 2,
{
    proof {
        reveal_strlit("│");
        reveal_strlit(" ");
    }
    let mut out = String::from_str("│");
    let len = s.unicode_len();
    if len >= UI_WIDTH {
        out.append(s.substring_char(0, UI_WIDTH));
    } else {
        out.append(s);
        push_repeat(&mut out, " ", UI_WIDTH - len);
    }
    out.append("│");
    assert(out@ =~= seq!['│'] + fit(s@) + seq!['│']);
    out
}

/// `s` centred in the frame's width (an odd space goes right), or cut to
/// that width.
pub open spec fn centred(s: Seq<char>) -> Seq<char> {
    if s.len() >= UI_WIDTH {
        s.subrange(0, UI_WIDTH as int)
    } else {
        let pad = (UI_WIDTH - s.len()) / 2;
        repeat(' ', pad as nat) + s + repeat(' ', (UI_WIDTH - pad - s.len()) as nat)
    }
}

pub fn center_text(s: &str) -> (r: String)
    ensures
        r@ == centred(s@),
        r@.len() == UI_WIDTH,
{
    proof {
        reveal_strlit(" ");
    }
    let len = s.unicode_len();
    if len >= UI_WIDTH {
        String::from_str(s.substring_char(0, UI_WIDTH))
    } else {
        let pad = (UI_WIDTH - len) / 2;
        let mut out = String::new();
        push_repeat(&mut out, " ", pad);
        out.append(s);
        push_repeat(&mut out, " ", UI_WIDTH - pad - len);
        assert(out@ =~= centred(s@));
        out
    }
}

/// The decimal digit for `d < 10`.
pub open spec fn digit_char(d: nat) -> char {
    if d == 0 {
        '0'
    } else     if d == 1 {
        '1'
    } else     if d == 2 {
        '2'
    } else     if d == 3 {
        '3'
    } else     if d == 4 {
        '4'
    } else     if d == 5 {
        '5'
    } else     if d == 6 {
        '6'
    } else     if d == 7 {
        '7'
    } else     if d == 8 {
        '8'
    } else {
        '9'
    }
}

fn push_digit(out: &mut String, d: u64)
    requires
        d < 10,
    ensures
        final(out)@ == old(out)@.push(digit_char(d as nat)),
{
    proof {
        reveal_strlit("0");
        reveal_strlit("1");
        reveal_strlit("2");
        reveal_strlit("3");
        reveal_strlit("4");
        reveal_strlit("5");
        reveal_strlit("6");
        reveal_strlit("7");
        reveal_strlit("8");
        reveal_strlit("9");
    }
    let ghost start = out@;
    match d {
        0 => out.append("0"),
        1 => out.append("1"),
        2 => out.append("2"),
        3 => out.append("3"),
        4 => out.append("4"),
        5 => out.append("5"),
        6 => out.append("6"),
        7 => out.append("7"),
        8 => out.append("8"),
        _ => out.append("9"),
    }
    assert(out@ =~= start.push(digit_char(d as nat)));
}

/// The decimal numeral of `n`, without leading zeros.
pub open spec fn decimal(n: nat) -> Seq<char>
    decreases n,
{
    if n < 10 {
        seq![digit_char(n)]
    } else {
        decimal(n / 10).push(digit_char(n % 10))
    }
}

pub proof fn lemma_decimal_len(n: nat)
    ensures
        n < 10 ==> decimal(n).len() == 1,
        10 <= n < 100 ==> decimal(n).len() == 2,
        100 <= n < 1000 ==> decimal(n).len() == 3,
    decreases n,
{
    if n >= 10 {
        lemma_decimal_len(n / 10);
    }
}

pub(crate) fn push_decimal(out: &mut String, n: u64)
    ensures
        final(out)@ == old(out)@ + decimal(n as nat),
    decreases n,
{
    let ghost start = out@;
    if n >= 10 {
        push_decimal(out, n / 10);
    }
    push_digit(out, n % 10);
    assert(out@ =~= start + decimal(n as nat));
}

/// `n` in two digits, with a leading zero below 10.
pub open spec fn two_digits(n: nat) -> Seq<char> {
    if n < 10 {
        seq!['0'] + decimal(n)
    } else {
        decimal(n)
    }
}

fn push_two_digits(out: &mut String, n: u64)
    ensures
        final(out)@ == old(out)@ + two_digits(n as nat),
{
    proof {
        reveal_strlit("0");
    }
    let ghost start = out@;
    if n < 10 {
        out.append("0");
    }
    push_decimal(out, n);
    assert(out@ =~= start + two_digits(n as nat));
}

/// A duration of `ms` milliseconds as `MM:SS`, or `H:MM:SS` from one hour
/// on; the milliseconds are dropped.
pub open spec fn duration_text(ms: u64) -> Seq<char> {
    let secs = ms / 1000;
    let h = secs / 3600;
    let m = secs % 3600 / 60;
    let s = secs % 60;
    if h > 0 {
        decimal(h as nat) + seq![':'] + two_digits(m as nat) + seq![':'] + two_digits(s as nat)
    } else {
        two_digits(m as nat) + seq![':'] + two_digits(s as nat)
    }
}

pub fn format_duration(ms: u64) -> (r: String)
    ensures
        r@ == duration_text(ms),
{
    proof {
        reveal_strlit(":");
    }
    let secs = ms / 1000;
    let h = secs / 3600;
    let m = secs % 3600 / 60;
    let s = secs % 60;
    let mut out = String::new();
    if h > 0 {
        push_decimal(&mut out, h);
        out.append(":");
    }
    push_two_digits(&mut out, m);
    out.append(":");
    push_two_digits(&mut out, s);
    assert(out@ =~= duration_text(ms));
    out
}

} // verus!
