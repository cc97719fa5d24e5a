//! Rendering and scanning of the text that the commands print and read.
use vstd::prelude::*;

verus! {

/// The character of a digit, for bases up to sixteen.
pub open spec fn digit_char(d: nat) -> char {
    if d == 0 {
        '0'
    } else if d == 1 {
        '1'
    } else if d == 2 {
        '2'
    } else if d == 3 {
        '3'
    } else if d == 4 {
        '4'
    } else if d == 5 {
        '5'
    } else if d == 6 {
        '6'
    } else if d == 7 {
        '7'
    } else if d == 8 {
        '8'
    } else if d == 9 {
        '9'
    } else if d == 10 {
        'a'
    } else if d == 11 {
        'b'
    } else if d == 12 {
        'c'
    } else if d == 13 {
        'd'
    } else if d == 14 {
        'e'
    } else {
        'f'
    }
}

/// A number in the given base, most significant digit first, without leading zeros.
pub open spec fn digits(n: nat, base: nat) -> Seq<char>
    decreases n,
{
    if base < 2 || n < base {
        seq![digit_char(n)]
    } else {
        proof {
            assert(n / base < n) by (nonlinear_arith)
                requires
                    base >= 2,
                    n >= base,
            ;
        }
        digits(n / base, base).push(digit_char(n % base))
    }
}

/// A natural number in decimal.
pub open spec fn dec(n: nat) -> Seq<char> {
    digits(n, 10)
}

/// An integer in decimal, with a minus sign where it is negative.
pub open spec fn dec_int(n: int) -> Seq<char> {
    if n < 0 {
        seq!['-'] + dec((-n) as nat)
    } else {
        dec(n as nat)
    }
}

/// A natural number in lower-case hexadecimal.
pub open spec fn hex(n: nat) -> Seq<char> {
    digits(n, 16)
}

/// `n` copies of `c`.
pub open spec fn fill(c: char, n: int) -> Seq<char> {
    Seq::new(
        if n < 0 {
            0
        } else {
            n as nat
        },
        |i: int| c,
    )
}

/// `s` moved to the right end of a field of `width` characters.
pub open spec fn right(s: Seq<char>, width: int) -> Seq<char> {
    fill(' ', width - s.len()) + s
}

/// `s` at the left end of a field of `width` characters.
pub open spec fn left(s: Seq<char>, width: int) -> Seq<char> {
    s + fill(' ', width - s.len())
}

/// A number in hexadecimal with at least two digits.
pub open spec fn hex2(n: nat) -> Seq<char> {
    fill('0', 2 - hex(n).len()) + hex(n)
}

/// The parts in order, with `sep` between each two neighbours.
pub open spec fn join(parts: Seq<Seq<char>>, sep: Seq<char>) -> Seq<char>
    decreases parts.len(),
{
    if parts.len() == 0 {
        Seq::empty()
    } else if parts.len() == 1 {
        parts[0]
    } else {
        join(parts.drop_last(), sep) + sep + parts.last()
    }
}

fn digit_str(d: u64) -> (s: &'static str)
    requires
        d < 16,
    ensures
        s@ == seq![digit_char(d as nat)],
{
    proof {
        reveal_strlit("0");
        reveal_strlit("1");
        reveal_strlit("2");
        reveal_strlit("3");
        reveal_strlit("4");
        reveal_strlit("5");
        reveal_strlit("6");
        reveal_strlit("7");
        reveal_strlit("8");
        reveal_strlit("9");
        reveal_strlit("a");
        reveal_strlit("b");
        reveal_strlit("c");
        reveal_strlit("d");
        reveal_strlit("e");
        reveal_strlit("f");
    }
    if d == 0 {
        "0"
    } else if d == 1 {
        "1"
    } else if d == 2 {
        "2"
    } else if d == 3 {
        "3"
    } else if d == 4 {
        "4"
    } else if d == 5 {
        "5"
    } else if d == 6 {
        "6"
    } else if d == 7 {
        "7"
    } else if d == 8 {
        "8"
    } else if d == 9 {
        "9"
    } else if d == 10 {
        "a"
    } else if d == 11 {
        "b"
    } else if d == 12 {
        "c"
    } else if d == 13 {
        "d"
    } else if d == 14 {
        "e"
    } else {
        "f"
    }
}

fn push_digits(out: &mut String, n: u64, base: u64)
    requires
        2 <= base <= 16,
    ensures
        final(out)@ == old(out)@ + digits(n as nat, base as nat),
    decreases n,
{
    if n < base {
        out.append(digit_str(n));
    } else {
        let high: u64 = n / base;
        let low: u64 = n % base;
        proof {
            assert(high < n) by (nonlinear_arith)
                requires
                    high == n / base,
                    base >= 2,
                    n >= base,
            ;
            assert(low < base) by (nonlinear_arith)
                requires
                    low == n % base,
                    base >= 2,
            ;
        }
        push_digits(out, high, base);
        out.append(digit_str(low));
        assert(out@ =~= old(out)@ + digits(n as nat, base as nat));
    }
}

fn push_blanks(out: &mut String, n: usize)
    ensures
        final(out)@ == old(out)@ + fill(' ', n as int),
{
    let mut i: usize = 0;
    assert(out@ =~= old(out)@ + fill(' ', 0));
    proof {
        reveal_strlit(" ");
    }
    assert(" "@ =~= seq![' ']);
    while i < n
        invariant
            i <= n,
            " "@ == seq![' '],
            out@ == old(out)@ + fill(' ', i as int),
        decreases n - i,
    {
        out.append(" ");
        i = i + 1;
        assert(out@ =~= old(out)@ + fill(' ', i as int));
    }
}

/// A piece of text under construction.
pub struct Line {
    buf: String,
}

impl View for Line {
    type V = Seq<char>;

    closed spec fn view(&self) -> Seq<char> {
        self.buf@
    }
}

impl Line {
    /// Text that begins with `s`.
    pub fn new(s: &str) -> (line: Line)
        ensures
            line@ == s@,
    {
        Line { buf: String::from_str(s) }
    }

    /// Text that begins with `n` in decimal.
    pub fn number(n: u32) -> (line: Line)
        ensures
            line@ == dec(n as nat),
    {
        Line { buf: decimal(n) }
    }

    /// Text that begins with `n` in decimal.
    pub fn long_number(n: u64) -> (line: Line)
        ensures
            line@ == dec(n as nat),
    {
        let mut buf: String = String::new();
        push_digits(&mut buf, n, 10);
        assert(buf@ =~= dec(n as nat));
        Line { buf }
    }

    /// Appends `s`.
    pub fn text(self, s: &str) -> (line: Line)
        ensures
            line@ == self@ + s@,
    {
        Line { buf: self.buf.concat(s) }
    }

    /// Appends `n` in decimal.
    pub fn num(self, n: u32) -> (line: Line)
        ensures
            line@ == self@ + dec(n as nat),
    {
        let mut buf: String = self.buf;
        push_digits(&mut buf, n as u64, 10);
        Line { buf }
    }

    /// Appends `n` in decimal.
    pub fn count(self, n: usize) -> (line: Line)
        ensures
            line@ == self@ + dec(n as nat),
    {
        let mut buf: String = self.buf;
        push_digits(&mut buf, n as u64, 10);
        Line { buf }
    }

    /// Appends `n` in decimal.
    pub fn long(self, n: u64) -> (line: Line)
        ensures
            line@ == self@ + dec(n as nat),
    {
        let mut buf: String = self.buf;
        push_digits(&mut buf, n, 10);
        Line { buf }
    }

    /// Appends `n` in decimal, with its sign where it is negative.
    pub fn signed(self, n: i32) -> (line: Line)
        ensures
            line@ == self@ + dec_int(n as int),
    {
        let mut buf: String = self.buf;
        if n < 0 {
            proof {
                reveal_strlit("-");
            }
            buf.append("-");
            push_digits(&mut buf, (-(n as i64)) as u64, 10);
            assert(buf@ =~= self@ + dec_int(n as int));
        } else {
            push_digits(&mut buf, n as u64, 10);
        }
        Line { buf }
    }

    /// Appends `n` in hexadecimal.
    pub fn hex(self, n: u32) -> (line: Line)
        ensures
            line@ == self@ + hex(n as nat),
    {
        let mut buf: String = self.buf;
        push_digits(&mut buf, n as u64, 16);
        Line { buf }
    }

    /// Appends `n` in hexadecimal with at least two digits.
    pub fn hex2(self, n: u32) -> (line: Line)
        ensures
            line@ == self@ + hex2(n as nat),
    {
        let mut buf: String = self.buf;
        if n < 16 {
            proof {
                reveal_strlit("0");
                assert(hex(n as nat) =~= seq![digit_char(n as nat)]);
            }
            buf.append("0");
        } else {
            proof {
                lemma_digits_nonempty(n as nat / 16, 16);
            }
        }
        push_digits(&mut buf, n as u64, 16);
        assert(buf@ =~= self@ + hex2(n as nat));
        Line { buf }
    }

    /// Appends `s` at the right end of a field of `width` characters.
    pub fn right(self, s: &str, width: usize) -> (line: Line)
        ensures
            line@ == self@ + right(s@, width as int),
    {
        let mut buf: String = self.buf;
        let len: usize = s.unicode_len();
        if len < width {
            push_blanks(&mut buf, width - len);
        }
        buf.append(s);
        assert(buf@ =~= self@ + right(s@, width as int));
        Line { buf }
    }

    /// Appends `s` at the left end of a field of `width` characters.
    pub fn left(self, s: &str, width: usize) -> (line: Line)
        ensures
            line@ == self@ + left(s@, width as int),
    {
        let mut buf: String = self.buf;
        let len: usize = s.unicode_len();
        buf.append(s);
        if len < width {
            push_blanks(&mut buf, width - len);
        }
        assert(buf@ =~= self@ + left(s@, width as int));
        Line { buf }
    }

    /// The finished text.
    pub fn done(self) -> (s: String)
        ensures
            s@ == self@,
    {
        self.buf
    }
}

proof fn lemma_digits_nonempty(n: nat, base: nat)
    ensures
        digits(n, base).len() > 0,
{
}

/// `n` in decimal.
pub fn decimal(n: u32) -> (s: String)
    ensures
        s@ == dec(n as nat),
{
    let mut s: String = String::new();
    push_digits(&mut s, n as u64, 10);
    assert(s@ =~= dec(n as nat));
    s
}

/// `n` in decimal, with its sign where it is negative.
pub fn decimal_int(n: i32) -> (s: String)
    ensures
        s@ == dec_int(n as int),
{
    let s: String = Line::new("").signed(n).done();
    proof {
        reveal_strlit("");
        assert(s@ =~= dec_int(n as int));
    }
    s
}

/// The parts in order, with `sep` between each two neighbours.
pub fn joined(parts: &Vec<String>, sep: &str) -> (s: String)
    ensures
        s@ == join(parts.deep_view(), sep@),
{
    let mut s: String = String::new();
    let mut i: usize = 0;
    assert(parts.deep_view().take(0) =~= Seq::empty());
    while i < parts.len()
        invariant
            i <= parts.len(),
            s@ == join(parts.deep_view().take(i as int), sep@),
        decreases parts.len() - i,
    {
        if i > 0 {
            s.append(sep);
        }
        s.append(parts[i].as_str());
        proof {
            let upto = parts.deep_view().take(i + 1);
            assert(upto.drop_last() =~= parts.deep_view().take(i as int));
            assert(upto.last() == parts[i as int]@);
            if i == 0 {
                assert(s@ =~= upto[0]);
            }
        }
        i = i + 1;
    }
    assert(parts.deep_view().take(i as int) =~= parts.deep_view());
    s
}

} // verus!
