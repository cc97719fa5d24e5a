//! Laws of scanning: what the suite reads, and that it reads what it writes.
use vstd::prelude::*;

use crate::cu::mask_value;
use crate::laws_text::{
    digit_worth, is_hexadecimal, law_hexadecimal_reads_back, law_mask_has_two_digits, worth,
};
use crate::scan::{
    after_slash, file_name, find_from, first_word, hex_digit, hex_u32, hex_value, is_space,
    labelled_word, last_component, line_end, skip_space, strip_0x, strip_dashes, strip_slashes,
    trim, trim_end, word_after, word_end,
};
use crate::text::{hex, hex2};

verus! {

/// Law: each of the sixteen digits, of either case, has its place among them as its value, and no
/// other character has one.
pub proof fn law_hex_digits(c: char, v: nat)
    ensures
        hex_digit(c) == Some(v) <==> v < 16 && (c == "0123456789abcdef"@[v as int] || c
            == "0123456789ABCDEF"@[v as int]),
{
    reveal_strlit("0123456789abcdef");
    reveal_strlit("0123456789ABCDEF");
    if v < 16 {
        assert(v == 0 || v == 1 || v == 2 || v == 3 || v == 4 || v == 5 || v == 6 || v == 7 || v
            == 8 || v == 9 || v == 10 || v == 11 || v == 12 || v == 13 || v == 14 || v == 15);
    }
}

/// Law: a hexadecimal number has a value where each character is a digit, each digit worth sixteen
/// times what is behind it.
pub proof fn law_hex_places(s: Seq<char>, c: char)
    ensures
        hex_value(Seq::<char>::empty()) == Some(0nat),
        hex_value(s.push(c)) is Some <==> hex_value(s) is Some && hex_digit(c) is Some,
        hex_value(s.push(c)) matches Some(n) ==> n == 16 * hex_value(s)->0 + hex_digit(c)->0,
{
    assert(s.push(c).drop_last() =~= s);
}

/// Law: a hexadecimal number is refused only where it is empty, holds what is no digit, or does not
/// fit in 32 bits; one plus sign may stand before it.
pub proof fn law_hex_number(s: Seq<char>, n: u32)
    ensures
        ({
            let t = if s.len() > 0 && s[0] == '+' {
                s.skip(1)
            } else {
                s
            };
            hex_u32(s) == Some(n) <==> t.len() > 0 && hex_value(t) == Some(n as nat)
        }),
{
    if s.len() > 0 && s[0] == '+' {
        assert(s.skip(1) =~= s.drop_first());
    }
}

/// Digits as they are written have the value they are worth.
proof fn lemma_written_value(s: Seq<char>)
    requires
        forall|i: int| 0 <= i < s.len() ==> is_hexadecimal(#[trigger] s[i]),
    ensures
        worth(s, 16) >= 0,
        hex_value(s) == Some(worth(s, 16) as nat),
    decreases s.len(),
{
    if s.len() > 0 {
        let t = s.drop_last();
        assert forall|i: int| 0 <= i < t.len() implies is_hexadecimal(#[trigger] t[i]) by {
            assert(t[i] == s[i]);
        }
        lemma_written_value(t);
        assert(is_hexadecimal(s[s.len() - 1]));
        assert(hex_digit(s.last()) == Some(digit_worth(s.last()) as nat));
    }
}

/// Law: parsing inverts rendering. A number of 32 bits, written in hexadecimal as masks are
/// written, with a leading zero or without, behind `0x` or not, is read as that number.
pub proof fn law_mask_text_reads_back(n: u32)
    ensures
        hex_u32(strip_0x(hex(n as nat))) == Some(n),
        hex_u32(strip_0x(hex2(n as nat))) == Some(n),
        hex_u32(strip_0x(seq!['0', 'x'] + hex(n as nat))) == Some(n),
        hex_u32(strip_0x(seq!['0', 'x'] + hex2(n as nat))) == Some(n),
{
    let s = hex(n as nat);
    let t = hex2(n as nat);
    law_hexadecimal_reads_back(n as nat);
    law_mask_has_two_digits(n as nat);
    lemma_written_value(s);
    assert(is_hexadecimal(s[0]));
    if s.len() > 1 {
        assert(is_hexadecimal(s[1]));
    }
    assert(strip_0x(s) == s);
    assert(hex_u32(s) == Some(n));
    if n < 16 {
        assert(t =~= seq!['0'] + s);
        assert forall|i: int| 0 <= i < t.len() implies is_hexadecimal(#[trigger] t[i]) by {
            if i > 0 {
                assert(t[i] == s[i - 1]);
            }
        }
        lemma_written_value(t);
        lemma_zero_in_front(s);
        assert(t[1] == s[0]);
    }
    assert(strip_0x(t) == t);
    assert(hex_u32(t) == Some(n));
    let p = seq!['0', 'x'] + s;
    let q = seq!['0', 'x'] + t;
    assert(p.skip(2) =~= s);
    assert(q.skip(2) =~= t);
    assert(strip_0x(p) == strip_0x(s));
    assert(strip_0x(q) == strip_0x(t));
}

/// A zero in front of digits changes nothing of what they are worth.
proof fn lemma_zero_in_front(s: Seq<char>)
    ensures
        worth(seq!['0'] + s, 16) == worth(s, 16),
    decreases s.len(),
{
    let t = seq!['0'] + s;
    if s.len() == 0 {
        assert(t.drop_last() =~= Seq::<char>::empty());
        assert(worth(t.drop_last(), 16) == 0);
    } else {
        lemma_zero_in_front(s.drop_last());
        assert(t.drop_last() =~= seq!['0'] + s.drop_last());
        assert(t.last() == s.last());
    }
}

/// Law: every mask of five bits, written as masks are written, is read as itself; of a larger
/// number, the five bits are what is read.
pub proof fn law_every_mask_is_accepted(n: u32)
    ensures
        mask_value(hex(n as nat)) == Some((n % 32) as u32),
        mask_value(hex2(n as nat)) == Some((n % 32) as u32),
        mask_value(seq!['0', 'x'] + hex(n as nat)) == Some((n % 32) as u32),
        n < 32 ==> mask_value(hex2(n as nat)) == Some(n),
{
    law_mask_text_reads_back(n);
    assert(n & 0x1f == n % 32) by (bit_vector);
}

/// Law: what is stripped in front of a mask is `0x`, as often as it stands there, and nothing else.
pub proof fn law_strip_0x(s: Seq<char>) -> (k: nat)
    ensures
        2 * k <= s.len(),
        strip_0x(s) == s.skip(2 * k as int),
        forall|i: int| 0 <= i < k ==> #[trigger] s[2 * i] == '0' && s[2 * i + 1] == 'x',
        !(strip_0x(s).len() >= 2 && strip_0x(s)[0] == '0' && strip_0x(s)[1] == 'x'),
    decreases s.len(),
{
    if s.len() >= 2 && s[0] == '0' && s[1] == 'x' {
        let t = s.skip(2);
        let k = law_strip_0x(t);
        assert(t.skip(2 * k as int) =~= s.skip(2 * (k + 1) as int));
        assert forall|i: int| 0 <= i < k + 1 implies #[trigger] s[2 * i] == '0' && s[2 * i + 1]
            == 'x' by {
            if i > 0 {
                assert(t[2 * (i - 1)] == s[2 * i]);
                assert(t[2 * (i - 1) + 1] == s[2 * i + 1]);
            }
        }
        k + 1
    } else {
        assert(s.skip(0) =~= s);
        0
    }
}

/// Law: what is stripped in front of a label is dashes, all that stand there, and nothing else.
pub proof fn law_strip_dashes(s: Seq<char>) -> (k: nat)
    ensures
        k <= s.len(),
        strip_dashes(s) == s.skip(k as int),
        forall|i: int| 0 <= i < k ==> #[trigger] s[i] == '-',
        strip_dashes(s).len() > 0 ==> strip_dashes(s)[0] != '-',
    decreases s.len(),
{
    if s.len() > 0 && s[0] == '-' {
        let t = s.drop_first();
        let k = law_strip_dashes(t);
        assert(t.skip(k as int) =~= s.skip((k + 1) as int));
        assert forall|i: int| 0 <= i < k + 1 implies #[trigger] s[i] == '-' by {
            if i > 0 {
                assert(t[i - 1] == s[i]);
            }
        }
        k + 1
    } else {
        assert(s.skip(0) =~= s);
        0
    }
}

/// Law: white space is what Unicode takes for it.
pub proof fn law_white_space(c: char)
    ensures
        is_space(c) <==> seq![
            '\u{9}',
            '\u{a}',
            '\u{b}',
            '\u{c}',
            '\u{d}',
            '\u{20}',
            '\u{85}',
            '\u{a0}',
            '\u{1680}',
            '\u{2000}',
            '\u{2001}',
            '\u{2002}',
            '\u{2003}',
            '\u{2004}',
            '\u{2005}',
            '\u{2006}',
            '\u{2007}',
            '\u{2008}',
            '\u{2009}',
            '\u{200a}',
            '\u{2028}',
            '\u{2029}',
            '\u{202f}',
            '\u{205f}',
            '\u{3000}',
        ].contains(c),
{
    let all = seq![
        '\u{9}',
        '\u{a}',
        '\u{b}',
        '\u{c}',
        '\u{d}',
        '\u{20}',
        '\u{85}',
        '\u{a0}',
        '\u{1680}',
        '\u{2000}',
        '\u{2001}',
        '\u{2002}',
        '\u{2003}',
        '\u{2004}',
        '\u{2005}',
        '\u{2006}',
        '\u{2007}',
        '\u{2008}',
        '\u{2009}',
        '\u{200a}',
        '\u{2028}',
        '\u{2029}',
        '\u{202f}',
        '\u{205f}',
        '\u{3000}',
    ];
    if is_space(c) {
        let n = c as u32;
        let i: int = if n <= 0xd {
            n - 9
        } else if n == 0x20 {
            5
        } else if n == 0x85 {
            6
        } else if n == 0xa0 {
            7
        } else if n == 0x1680 {
            8
        } else if n <= 0x200a {
            9 + (n - 0x2000)
        } else if n == 0x2028 {
            20
        } else if n == 0x2029 {
            21
        } else if n == 0x202f {
            22
        } else if n == 0x205f {
            23
        } else {
            24
        };
        assert(all[i] == c);
    }
}

/// Whether text is made of white space alone.
pub open spec fn all_space(s: Seq<char>) -> bool {
    forall|i: int| 0 <= i < s.len() ==> is_space(#[trigger] s[i])
}

/// Whether text holds no white space.
pub open spec fn no_space(s: Seq<char>) -> bool {
    forall|i: int| 0 <= i < s.len() ==> !is_space(#[trigger] s[i])
}

proof fn lemma_skip_space(s: Seq<char>, i: int)
    requires
        0 <= i <= s.len(),
    ensures
        i <= skip_space(s, i) <= s.len(),
        forall|j: int| i <= j < skip_space(s, i) ==> is_space(#[trigger] s[j]),
        skip_space(s, i) < s.len() ==> !is_space(s[skip_space(s, i)]),
    decreases s.len() - i,
{
    if i < s.len() && is_space(s[i]) {
        lemma_skip_space(s, i + 1);
    }
}

proof fn lemma_word_end(s: Seq<char>, i: int)
    requires
        0 <= i <= s.len(),
    ensures
        i <= word_end(s, i) <= s.len(),
        forall|j: int| i <= j < word_end(s, i) ==> !is_space(#[trigger] s[j]),
        word_end(s, i) < s.len() ==> is_space(s[word_end(s, i)]),
    decreases s.len() - i,
{
    if i < s.len() && !is_space(s[i]) {
        lemma_word_end(s, i + 1);
    }
}

proof fn lemma_trim_end(s: Seq<char>)
    ensures
        trim_end(s).len() <= s.len(),
        trim_end(s) == s.take(trim_end(s).len() as int),
        forall|j: int| trim_end(s).len() <= j < s.len() ==> is_space(#[trigger] s[j]),
        trim_end(s).len() > 0 ==> !is_space(trim_end(s).last()),
    decreases s.len(),
{
    if s.len() > 0 && is_space(s.last()) {
        let t = s.drop_last();
        lemma_trim_end(t);
        assert(t.take(trim_end(t).len() as int) =~= s.take(trim_end(t).len() as int));
        assert forall|j: int| trim_end(s).len() <= j < s.len() implies is_space(#[trigger] s[j]) by {
            if j < t.len() {
                assert(t[j] == s[j]);
            }
        }
    } else {
        assert(s.take(s.len() as int) =~= s);
    }
}

/// Law: trimming takes white space away at both ends, all of it and nothing else.
pub proof fn law_trim(s: Seq<char>) -> (parts: (Seq<char>, Seq<char>))
    ensures
        s == parts.0 + trim(s) + parts.1,
        all_space(parts.0),
        all_space(parts.1),
        trim(s).len() > 0 ==> !is_space(trim(s)[0]) && !is_space(trim(s).last()),
{
    lemma_skip_space(s, 0);
    let k = skip_space(s, 0);
    let rest = s.skip(k);
    lemma_trim_end(rest);
    let t = trim(s);
    let front = s.take(k);
    let back = rest.skip(t.len() as int);
    assert(rest =~= t + back);
    assert(s =~= front + t + back);
    assert forall|i: int| 0 <= i < back.len() implies is_space(#[trigger] back[i]) by {
        assert(back[i] == rest[t.len() + i]);
    }
    (front, back)
}

/// Law: the first word is a run without white space, with nothing but white space before it, and
/// it ends at white space or at the end. Only text of white space alone has none.
pub proof fn law_first_word(s: Seq<char>) -> (at: int)
    ensures
        first_word(s) is None <==> all_space(s),
        first_word(s) matches Some(w) ==> {
            &&& 0 <= at
            &&& at + w.len() <= s.len()
            &&& w.len() > 0
            &&& w == s.subrange(at, at + w.len())
            &&& no_space(w)
            &&& all_space(s.take(at))
            &&& at + w.len() < s.len() ==> is_space(s[at + w.len()])
        },
{
    lemma_skip_space(s, 0);
    let start = skip_space(s, 0);
    if start < s.len() {
        lemma_word_end(s, start);
        assert(word_end(s, start) > start) by {
            assert(!is_space(s[start]));
            lemma_word_end(s, start + 1);
        }
        assert(!all_space(s)) by {
            assert(!is_space(s[start]));
        }
        assert(first_word(s) is Some);
    }
    start
}

/// Whether a pattern stands at a place in text.
pub open spec fn stands_at(s: Seq<char>, pat: Seq<char>, i: int) -> bool {
    0 <= i && i + pat.len() <= s.len() && s.subrange(i, i + pat.len()) == pat
}

proof fn lemma_find(s: Seq<char>, pat: Seq<char>, i: int)
    requires
        0 <= i,
    ensures
        match find_from(s, pat, i) {
            Some(k) => i <= k && stands_at(s, pat, k) && forall|j: int|
                i <= j < k ==> !(#[trigger] stands_at(s, pat, j)),
            None => forall|j: int| i <= j ==> !(#[trigger] stands_at(s, pat, j)),
        },
    decreases s.len() + 1 - i,
{
    if i + pat.len() <= s.len() && s.subrange(i, i + pat.len()) != pat {
        lemma_find(s, pat, i + 1);
    }
}

/// Law: the word of a label in a line is the first word behind the first place of that label.
pub proof fn law_word_after(line: Seq<char>, label: Seq<char>, k: int)
    requires
        stands_at(line, label, k),
        forall|j: int| 0 <= j < k ==> !(#[trigger] stands_at(line, label, j)),
    ensures
        word_after(line, label) == first_word(line.skip(k + label.len())),
{
    lemma_find(line, label, 0);
}

/// Law: a line without the label has no word of it.
pub proof fn law_no_label_no_word(line: Seq<char>, label: Seq<char>)
    requires
        forall|j: int| 0 <= j ==> !(#[trigger] stands_at(line, label, j)),
    ensures
        word_after(line, label) is None,
{
    lemma_find(line, label, 0);
}

/// Whether a stretch of text is one of its lines.
pub open spec fn is_line(s: Seq<char>, i: int, e: int) -> bool {
    &&& 0 <= i <= e <= s.len()
    &&& i == 0 || s[i - 1] == '\n'
    &&& e == s.len() || s[e] == '\n'
    &&& forall|j: int| i <= j < e ==> #[trigger] s[j] != '\n'
}

proof fn lemma_line_end(s: Seq<char>, i: int)
    requires
        0 <= i <= s.len(),
    ensures
        i <= line_end(s, i) <= s.len(),
        line_end(s, i) == s.len() || s[line_end(s, i)] == '\n',
        forall|j: int| i <= j < line_end(s, i) ==> #[trigger] s[j] != '\n',
    decreases s.len() - i,
{
    if i < s.len() && s[i] != '\n' {
        lemma_line_end(s, i + 1);
    }
}

proof fn lemma_labelled(s: Seq<char>, label: Seq<char>, i: int)
    requires
        0 <= i <= s.len(),
        i == 0 || s[i - 1] == '\n',
    ensures
        match labelled_word(s, label, i) {
            Some(w) => exists|a: int, e: int| #[trigger]
                is_line(s, a, e) && i <= a && word_after(s.subrange(a, e), label) == Some(w)
                    && forall|b: int, f: int| #[trigger]
                    is_line(s, b, f) && i <= b < a ==> word_after(s.subrange(b, f), label) is None,
            None => forall|b: int, f: int| #[trigger]
                is_line(s, b, f) && i <= b ==> word_after(s.subrange(b, f), label) is None,
        },
    decreases s.len() + 1 - i,
{
    lemma_line_end(s, i);
    let end = line_end(s, i);
    assert(is_line(s, i, end));
    assert forall|b: int, f: int| #[trigger] is_line(s, b, f) && i <= b <= end implies b == i && f
        == end by {
        if b > i {
            assert(s[b - 1] != '\n');
        }
        if f < end {
            assert(s[f] != '\n');
        }
        if f > end {
            assert(s[end] != '\n');
        }
    }
    if word_after(s.subrange(i, end), label) is None && end < s.len() {
        lemma_labelled(s, label, end + 1);
        if let Some(w) = labelled_word(s, label, end + 1) {
            let (a, e) = choose|a: int, e: int| #[trigger]
                is_line(s, a, e) && end + 1 <= a && word_after(s.subrange(a, e), label) == Some(w)
                    && forall|b: int, f: int| #[trigger]
                    is_line(s, b, f) && end + 1 <= b < a ==> word_after(s.subrange(b, f), label) is
                    None;
            assert forall|b: int, f: int| #[trigger] is_line(s, b, f) && i <= b < a implies
                word_after(s.subrange(b, f), label) is None by {
                if b <= end {
                    assert(b == i && f == end);
                }
            }
        } else {
            assert forall|b: int, f: int| #[trigger] is_line(s, b, f) && i <= b implies word_after(
                s.subrange(b, f),
                label,
            ) is None by {
                if b <= end {
                    assert(b == i && f == end);
                }
            }
        }
    }
}

/// Law: a labelled word is that of the first line that has one.
pub proof fn law_labelled_word(s: Seq<char>, label: Seq<char>)
    ensures
        match labelled_word(s, label, 0) {
            Some(w) => exists|a: int, e: int| #[trigger]
                is_line(s, a, e) && word_after(s.subrange(a, e), label) == Some(w) && forall|
                    b: int,
                    f: int,
                | #[trigger]
                    is_line(s, b, f) && b < a ==> word_after(s.subrange(b, f), label) is None,
            None => forall|b: int, f: int| #[trigger]
                is_line(s, b, f) ==> word_after(s.subrange(b, f), label) is None,
        },
{
    lemma_labelled(s, label, 0);
}

/// Whether text can be the name of a file: not empty, without a slash, and neither of the two names
/// that stand for directories.
pub open spec fn is_file_name(name: Seq<char>) -> bool {
    &&& name.len() > 0
    &&& forall|i: int| 0 <= i < name.len() ==> #[trigger] name[i] != '/'
    &&& name != seq!['.']
    &&& name != seq!['.', '.']
}

proof fn lemma_behind_slash(s: Seq<char>, i: int)
    requires
        0 <= i <= s.len(),
    ensures
        0 <= after_slash(s, i) <= i,
        after_slash(s, i) > 0 ==> s[after_slash(s, i) - 1] == '/',
        forall|j: int| after_slash(s, i) <= j < i ==> #[trigger] s[j] != '/',
    decreases i,
{
    if 0 < i && s[i - 1] != '/' {
        lemma_behind_slash(s, i - 1);
    }
}

proof fn lemma_no_slash_at_end(s: Seq<char>)
    ensures
        strip_slashes(s).len() <= s.len(),
        strip_slashes(s).len() > 0 ==> strip_slashes(s).last() != '/',
    decreases s.len(),
{
    if s.len() > 0 && s.last() == '/' {
        lemma_no_slash_at_end(s.drop_last());
    }
}

proof fn lemma_last_component(s: Seq<char>)
    ensures
        last_component(s) matches Some(name) ==> name.len() > 0 && name != seq!['.'] && forall|
            i: int,
        |
            0 <= i < name.len() ==> #[trigger] name[i] != '/',
    decreases s.len(),
{
    let t = strip_slashes(s);
    lemma_no_slash_at_end(s);
    if t.len() > 0 {
        lemma_behind_slash(t, t.len() as int);
        let start = after_slash(t, t.len() as int);
        assert(start < t.len()) by {
            if start == t.len() {
                assert(t[start - 1] == '/');
            }
        }
        let name = t.skip(start);
        if name == seq!['.'] {
            lemma_last_component(t.take(start));
        } else {
            assert forall|i: int| 0 <= i < name.len() implies #[trigger] name[i] != '/' by {
                assert(name[i] == t[start + i]);
            }
        }
    }
}

/// Law: what is taken for the name of a program can be the name of a file.
pub proof fn law_file_name_is_a_name(s: Seq<char>)
    ensures
        file_name(s) matches Some(name) ==> is_file_name(name),
{
    lemma_last_component(s);
}

/// Law: a name is the file name of itself, and of every path that ends in it behind a slash.
pub proof fn law_file_name_of_a_path(dir: Seq<char>, name: Seq<char>)
    requires
        is_file_name(name),
    ensures
        file_name(name) == Some(name),
        file_name(dir + seq!['/'] + name) == Some(name),
{
    lemma_name_at_end(Seq::empty(), name);
    assert(Seq::<char>::empty() + name =~= name);
    lemma_name_at_end(dir + seq!['/'], name);
}

proof fn lemma_name_at_end(dir: Seq<char>, name: Seq<char>)
    requires
        is_file_name(name),
        dir.len() > 0 ==> dir.last() == '/',
    ensures
        file_name(dir + name) == Some(name),
{
    let s = dir + name;
    assert(s.last() == name[name.len() - 1]);
    assert(strip_slashes(s) == s);
    lemma_behind_slash(s, s.len() as int);
    let start = after_slash(s, s.len() as int);
    assert(start == dir.len()) by {
        if start < dir.len() {
            assert(s[dir.len() - 1] == '/');
        }
        if start > dir.len() {
            assert(s[start - 1] == name[start - 1 - dir.len()]);
        }
    }
    assert(s.skip(start) =~= name);
}

/// Law: slashes at the end of a path, and a last component that stands for the directory itself,
/// change nothing of its file name.
pub proof fn law_file_name_ignores_the_end(s: Seq<char>)
    ensures
        file_name(s + seq!['/']) == file_name(s),
        file_name(s + seq!['/', '.']) == file_name(s),
        file_name(s + seq!['/', '.', '.']) is None,
{
    let a = s + seq!['/'];
    assert(a.drop_last() =~= s);
    assert(strip_slashes(a) == strip_slashes(s));
    assert(last_component(a) == last_component(s));
    let b = s + seq!['/', '.'];
    assert(strip_slashes(b) == b);
    lemma_behind_slash(b, b.len() as int);
    let start = after_slash(b, b.len() as int);
    assert(start == s.len() + 1) by {
        if start <= s.len() {
            assert(b[s.len() as int] == '/');
        }
        if start == b.len() {
            assert(b[b.len() - 1] == '.');
        }
    }
    assert(b.skip(start) =~= seq!['.']);
    assert(b.take(start) =~= a);
    assert(last_component(b) == last_component(a));
    let c = s + seq!['/', '.', '.'];
    assert(strip_slashes(c) == c);
    lemma_behind_slash(c, c.len() as int);
    let begin = after_slash(c, c.len() as int);
    assert(begin == s.len() + 1) by {
        if begin <= s.len() {
            assert(c[s.len() as int] == '/');
        }
        if begin > s.len() + 1 {
            assert(c[begin - 1] == '.');
        }
    }
    assert(c.skip(begin) =~= seq!['.', '.']);
}

} // verus!
