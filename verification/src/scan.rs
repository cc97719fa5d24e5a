//! Scanning of the text that the suite reads: words, hexadecimal masks, program names.
use vstd::prelude::*;

verus! {

/// Unicode white space.
pub open spec fn is_space(c: char) -> bool {
    let n = c as u32;
    ||| 0x9 <= n <= 0xd
    ||| n == 0x20
    ||| n == 0x85
    ||| n == 0xa0
    ||| n == 0x1680
    ||| 0x2000 <= n <= 0x200a
    ||| n == 0x2028
    ||| n == 0x2029
    ||| n == 0x202f
    ||| n == 0x205f
    ||| n == 0x3000
}

/// The first position from `i` on that holds no white space, or the end.
pub open spec fn skip_space(s: Seq<char>, i: int) -> int
    decreases s.len() - i,
{
    if 0 <= i < s.len() && is_space(s[i]) {
        skip_space(s, i + 1)
    } else {
        i
    }
}

/// The first position from `i` on that holds white space, or the end.
pub open spec fn word_end(s: Seq<char>, i: int) -> int
    decreases s.len() - i,
{
    if 0 <= i < s.len() && !is_space(s[i]) {
        word_end(s, i + 1)
    } else {
        i
    }
}

/// The first run of characters without white space, if there is one.
pub open spec fn first_word(s: Seq<char>) -> Option<Seq<char>> {
    let start = skip_space(s, 0);
    if start < s.len() {
        Some(s.subrange(start, word_end(s, start)))
    } else {
        None
    }
}

/// `s` without the white space at its end.
pub open spec fn trim_end(s: Seq<char>) -> Seq<char>
    decreases s.len(),
{
    if s.len() > 0 && is_space(s.last()) {
        trim_end(s.drop_last())
    } else {
        s
    }
}

/// `s` without the white space at both ends.
pub open spec fn trim(s: Seq<char>) -> Seq<char> {
    trim_end(s.skip(skip_space(s, 0)))
}

/// The first position from `i` on at which `pat` stands in `s`.
pub open spec fn find_from(s: Seq<char>, pat: Seq<char>, i: int) -> Option<int>
    decreases s.len() + 1 - i,
{
    if i < 0 || i + pat.len() > s.len() {
        None
    } else if s.subrange(i, i + pat.len()) == pat {
        Some(i)
    } else {
        find_from(s, pat, i + 1)
    }
}

/// The first position from `i` on that holds a line feed, or the end.
pub open spec fn line_end(s: Seq<char>, i: int) -> int
    decreases s.len() - i,
{
    if 0 <= i < s.len() && s[i] != '\n' {
        line_end(s, i + 1)
    } else {
        i
    }
}

/// The word that follows the first `label` in a line.
pub open spec fn word_after(line: Seq<char>, label: Seq<char>) -> Option<Seq<char>> {
    match find_from(line, label, 0) {
        Some(at) => first_word(line.skip(at + label.len())),
        None => None,
    }
}

/// The word that follows `label`, from the first line at or after position `i` that has one.
pub open spec fn labelled_word(s: Seq<char>, label: Seq<char>, i: int) -> Option<Seq<char>>
    decreases s.len() + 1 - i,
{
    if i < 0 || i > s.len() {
        None
    } else {
        let end = line_end(s, i);
        match word_after(s.subrange(i, end), label) {
            Some(word) => Some(word),
            None => if i <= end < s.len() {
                labelled_word(s, label, end + 1)
            } else {
                None
            },
        }
    }
}

/// `s` without the dashes at its start.
pub open spec fn strip_dashes(s: Seq<char>) -> Seq<char>
    decreases s.len(),
{
    if s.len() > 0 && s[0] == '-' {
        strip_dashes(s.drop_first())
    } else {
        s
    }
}

/// `s` without the `0x` prefixes at its start, however many there are.
pub open spec fn strip_0x(s: Seq<char>) -> Seq<char>
    decreases s.len(),
{
    if s.len() >= 2 && s[0] == '0' && s[1] == 'x' {
        strip_0x(s.skip(2))
    } else {
        s
    }
}

/// The value of a hexadecimal digit of either case.
pub open spec fn hex_digit(c: char) -> Option<nat> {
    if '0' <= c <= '9' {
        Some((c as u32 - '0' as u32) as nat)
    } else if 'a' <= c <= 'f' {
        Some((c as u32 - 'a' as u32 + 10) as nat)
    } else if 'A' <= c <= 'F' {
        Some((c as u32 - 'A' as u32 + 10) as nat)
    } else {
        None
    }
}

/// The value of a sequence of hexadecimal digits, if it holds nothing else.
pub open spec fn hex_value(s: Seq<char>) -> Option<nat>
    decreases s.len(),
{
    if s.len() == 0 {
        Some(0)
    } else {
        match (hex_value(s.drop_last()), hex_digit(s.last())) {
            (Some(high), Some(low)) => Some(16 * high + low),
            _ => None,
        }
    }
}

/// The value of at least one hexadecimal digit, if it fits 32 bits.
pub open spec fn hex_body(s: Seq<char>) -> Option<u32> {
    match hex_value(s) {
        Some(n) => if s.len() > 0 && n <= u32::MAX {
            Some(n as u32)
        } else {
            None
        },
        None => None,
    }
}

/// The 32-bit number that `s` writes in hexadecimal: an optional plus sign and at least one digit.
pub open spec fn hex_u32(s: Seq<char>) -> Option<u32> {
    if s.len() > 0 && s[0] == '+' {
        hex_body(s.drop_first())
    } else {
        hex_body(s)
    }
}

/// `s` without the slashes at its end.
pub open spec fn strip_slashes(s: Seq<char>) -> Seq<char>
    decreases s.len(),
{
    if s.len() > 0 && s.last() == '/' {
        strip_slashes(s.drop_last())
    } else {
        s
    }
}

/// The position behind the last slash of `s[..i]`, or its start.
pub open spec fn after_slash(s: Seq<char>, i: int) -> int
    decreases i,
{
    if 0 < i <= s.len() && s[i - 1] != '/' {
        after_slash(s, i - 1)
    } else {
        i
    }
}

/// The last component of a slash-separated path, repeated slashes and `.` components aside.
pub open spec fn last_component(s: Seq<char>) -> Option<Seq<char>>
    decreases s.len(),
    when true
    via last_component_decreases
{
    let t = strip_slashes(s);
    if t.len() == 0 {
        None
    } else {
        let start = after_slash(t, t.len() as int);
        let name = t.skip(start);
        if name == seq!['.'] {
            last_component(t.take(start))
        } else {
            Some(name)
        }
    }
}

#[via_fn]
proof fn last_component_decreases(s: Seq<char>) {
    lemma_strip_slashes(s);
    let t = strip_slashes(s);
    if t.len() > 0 {
        lemma_after_slash(t, t.len() as int);
    }
}

/// The file name of a path: its last component, unless there is none or it is `..`.
pub open spec fn file_name(s: Seq<char>) -> Option<Seq<char>> {
    match last_component(s) {
        Some(name) => if name == seq!['.', '.'] {
            None
        } else {
            Some(name)
        },
        None => None,
    }
}

proof fn lemma_strip_slashes(s: Seq<char>)
    ensures
        strip_slashes(s).len() <= s.len(),
        strip_slashes(s) == s.take(strip_slashes(s).len() as int),
        strip_slashes(s).len() > 0 ==> strip_slashes(s).last() != '/',
    decreases s.len(),
{
    if s.len() > 0 && s.last() == '/' {
        lemma_strip_slashes(s.drop_last());
        let n = strip_slashes(s).len() as int;
        assert(s.drop_last().take(n) =~= s.take(n));
    } else {
        assert(s.take(s.len() as int) =~= s);
    }
}

proof fn lemma_after_slash(s: Seq<char>, i: int)
    requires
        0 <= i <= s.len(),
    ensures
        0 <= after_slash(s, i) <= i,
        i > 0 && s[i - 1] != '/' ==> after_slash(s, i) < i,
    decreases i,
{
    if 0 < i && s[i - 1] != '/' {
        lemma_after_slash(s, i - 1);
    }
}

/// The characters of `s`.
fn chars_of(s: &str) -> (v: Vec<char>)
    ensures
        v@ == s@,
{
    let mut v: Vec<char> = Vec::new();
    for c in it: s.chars()
        invariant
            v@ == it.seq().take(it.index()),
            it.seq() == s@,
    {
        v.push(c);
        assert(it.seq().take(it.index() + 1) =~= it.seq().take(it.index()).push(c));
    }
    assert(s@.take(s@.len() as int) =~= s@);
    v
}

fn space(c: char) -> (b: bool)
    ensures
        b == is_space(c),
{
    let n: u32 = c as u32;
    (0x9 <= n && n <= 0xd) || n == 0x20 || n == 0x85 || n == 0xa0 || n == 0x1680 || (0x2000 <= n
        && n <= 0x200a) || n == 0x2028 || n == 0x2029 || n == 0x202f || n == 0x205f || n == 0x3000
}

fn skip_blank(v: &Vec<char>) -> (i: usize)
    ensures
        i == skip_space(v@, 0),
        i <= v@.len(),
{
    let mut i: usize = 0;
    while i < v.len() && space(v[i])
        invariant
            i <= v.len(),
            skip_space(v@, 0) == skip_space(v@, i as int),
        decreases v.len() - i,
    {
        i = i + 1;
    }
    i
}

/// The first run of characters of `s` without white space, if there is one.
pub fn word(s: &str) -> (w: Option<String>)
    ensures
        w.deep_view() == first_word(s@),
{
    let v: Vec<char> = chars_of(s);
    let start: usize = skip_blank(&v);
    if start == v.len() {
        return None;
    }
    let mut end: usize = start;
    while end < v.len() && !space(v[end])
        invariant
            start <= end <= v.len(),
            word_end(v@, start as int) == word_end(v@, end as int),
        decreases v.len() - end,
    {
        end = end + 1;
    }
    Some(s.substring_char(start, end).to_owned())
}

/// `s` without the white space at both ends.
pub fn trimmed(s: &str) -> (t: String)
    ensures
        t@ == trim(s@),
{
    let v: Vec<char> = chars_of(s);
    let start: usize = skip_blank(&v);
    let mut end: usize = v.len();
    assert(v@.subrange(start as int, end as int) =~= v@.skip(start as int));
    while end > start && space(v[end - 1])
        invariant
            start <= end <= v.len(),
            trim(v@) == trim_end(v@.subrange(start as int, end as int)),
        decreases end,
    {
        assert(v@.subrange(start as int, end as int).drop_last() =~= v@.subrange(
            start as int,
            end - 1,
        ));
        end = end - 1;
    }
    s.substring_char(start, end).to_owned()
}

fn stands_at(v: &Vec<char>, pat: &Vec<char>, i: usize) -> (b: bool)
    requires
        i + pat.len() <= v.len(),
    ensures
        b == (v@.subrange(i as int, i + pat@.len()) == pat@),
{
    let mut k: usize = 0;
    while k < pat.len()
        invariant
            k <= pat.len(),
            i + pat.len() <= v.len(),
            forall|j: int| 0 <= j < k ==> v@[i + j] == pat@[j],
        decreases pat.len() - k,
    {
        if v[i + k] != pat[k] {
            assert(v@.subrange(i as int, i + pat@.len())[k as int] != pat@[k as int]);
            return false;
        }
        k = k + 1;
    }
    assert(v@.subrange(i as int, i + pat@.len()) =~= pat@);
    true
}

fn find(v: &Vec<char>, pat: &Vec<char>) -> (at: Option<usize>)
    ensures
        match at {
            Some(i) => find_from(v@, pat@, 0) == Some(i as int) && i + pat.len() <= v.len(),
            None => find_from(v@, pat@, 0) is None,
        },
{
    let mut i: usize = 0;
    while i <= v.len() && pat.len() <= v.len() - i
        invariant
            i <= v.len() + 1,
            find_from(v@, pat@, 0) == find_from(v@, pat@, i as int),
        decreases v.len() + 1 - i,
    {
        if stands_at(v, pat, i) {
            return Some(i);
        }
        if i == v.len() {
            assert(find_from(v@, pat@, i + 1) is None);
            return None;
        }
        i = i + 1;
    }
    None
}

fn word_behind(line: &str, label: &str) -> (w: Option<String>)
    ensures
        w.deep_view() == word_after(line@, label@),
{
    let v: Vec<char> = chars_of(line);
    let pat: Vec<char> = chars_of(label);
    match find(&v, &pat) {
        Some(at) => {
            let rest: &str = line.substring_char(at + pat.len(), v.len());
            assert(rest@ =~= line@.skip(at + label@.len()));
            word(rest)
        },
        None => None,
    }
}

/// The word that follows `label`, from the first line of `s` that has one.
pub fn labelled(s: &str, label: &str) -> (w: Option<String>)
    ensures
        w.deep_view() == labelled_word(s@, label@, 0),
{
    let v: Vec<char> = chars_of(s);
    let mut i: usize = 0;
    loop
        invariant
            v@ == s@,
            i <= v.len(),
            labelled_word(s@, label@, 0) == labelled_word(s@, label@, i as int),
        decreases v.len() - i,
    {
        let mut end: usize = i;
        while end < v.len() && v[end] != '\n'
            invariant
                i <= end <= v.len(),
                line_end(v@, i as int) == line_end(v@, end as int),
            decreases v.len() - end,
        {
            end = end + 1;
        }
        let found: Option<String> = word_behind(s.substring_char(i, end), label);
        if found.is_some() || end == v.len() {
            return found;
        }
        i = end + 1;
    }
}

/// `s` without the dashes at its start.
pub fn undashed(s: &str) -> (t: String)
    ensures
        t@ == strip_dashes(s@),
{
    let v: Vec<char> = chars_of(s);
    let mut i: usize = 0;
    assert(v@.skip(0) =~= v@);
    while i < v.len() && v[i] == '-'
        invariant
            i <= v.len(),
            strip_dashes(v@) == strip_dashes(v@.skip(i as int)),
        decreases v.len() - i,
    {
        assert(v@.skip(i as int).drop_first() =~= v@.skip(i + 1));
        i = i + 1;
    }
    assert(v@.subrange(i as int, v@.len() as int) =~= v@.skip(i as int));
    s.substring_char(i, v.len()).to_owned()
}

fn hex_digit_value(c: char) -> (d: Option<u32>)
    ensures
        match d {
            Some(n) => hex_digit(c) == Some(n as nat) && n < 16,
            None => hex_digit(c) is None,
        },
{
    let n: u32 = c as u32;
    if '0' <= c && c <= '9' {
        Some(n - 48)
    } else if 'a' <= c && c <= 'f' {
        Some(n - 97 + 10)
    } else if 'A' <= c && c <= 'F' {
        Some(n - 65 + 10)
    } else {
        None
    }
}

/// A longer sequence of digits is worth no less than its start, and holds only digits if the
/// whole does.
proof fn lemma_hex_prefix(s: Seq<char>, k: int)
    requires
        0 <= k <= s.len(),
    ensures
        hex_value(s) matches Some(n) ==> (hex_value(s.take(k)) matches Some(m) && m <= n),
    decreases s.len() - k,
{
    if k < s.len() {
        lemma_hex_prefix(s, k + 1);
        assert(s.take(k + 1).drop_last() =~= s.take(k));
    } else {
        assert(s.take(k) =~= s);
    }
}

/// The 32-bit number that `s` writes in hexadecimal behind any `0x` prefixes.
pub fn hex_number(s: &str) -> (n: Option<u32>)
    ensures
        n == hex_u32(strip_0x(s@)),
{
    let v: Vec<char> = chars_of(s);
    let mut i: usize = 0;
    assert(v@.skip(0) =~= v@);
    while v.len() - i >= 2 && v[i] == '0' && v[i + 1] == 'x'
        invariant
            i <= v.len(),
            strip_0x(v@) == strip_0x(v@.skip(i as int)),
        decreases v.len() - i,
    {
        assert(v@.skip(i as int).skip(2) =~= v@.skip(i + 2));
        i = i + 2;
    }
    let ghost stripped = v@.skip(i as int);
    if i < v.len() && v[i] == '+' {
        assert(stripped.drop_first() =~= v@.skip(i + 1));
        i = i + 1;
    }
    if i == v.len() {
        return None;
    }
    let ghost body = v@.skip(i as int);
    let first: usize = i;
    let mut acc: u32 = 0;
    assert(body.take(0) =~= Seq::empty());
    while i < v.len()
        invariant
            first <= i <= v.len(),
            body == v@.skip(first as int),
            body.len() > 0,
            hex_u32(strip_0x(s@)) == hex_body(body),
            hex_value(body.take(i - first)) == Some(acc as nat),
        decreases v.len() - i,
    {
        proof {
            lemma_hex_prefix(body, i - first + 1);
            assert(body.take(i - first + 1).drop_last() =~= body.take(i - first));
        }
        match hex_digit_value(v[i]) {
            Some(d) => {
                let wide: u64 = 16 * (acc as u64) + d as u64;
                if wide > 0xffff_ffff {
                    return None;
                }
                acc = wide as u32;
            },
            None => {
                return None;
            },
        }
        i = i + 1;
    }
    assert(body.take(i - first) =~= body);
    Some(acc)
}

/// The file name of a path: its last component, unless there is none or it is `..`.
pub fn base_name(s: &str) -> (name: Option<String>)
    ensures
        name.deep_view() == file_name(s@),
{
    let v: Vec<char> = chars_of(s);
    let mut end: usize = v.len();
    assert(v@.take(end as int) =~= v@);
    loop
        invariant
            v@ == s@,
            end <= v.len(),
            last_component(v@) == last_component(v@.take(end as int)),
        decreases end,
    {
        let ghost whole = v@.take(end as int);
        let ghost bound = end;
        while end > 0 && v[end - 1] == '/'
            invariant
                end <= bound <= v.len(),
                strip_slashes(whole) == strip_slashes(v@.take(end as int)),
            decreases end,
        {
            assert(v@.take(end as int).drop_last() =~= v@.take(end - 1));
            end = end - 1;
        }
        let ghost t = v@.take(end as int);
        assert(t == strip_slashes(whole));
        if end == 0 {
            return None;
        }
        let mut start: usize = end;
        while start > 0 && v[start - 1] != '/'
            invariant
                start <= end <= v.len(),
                t == v@.take(end as int),
                after_slash(t, end as int) == after_slash(t, start as int),
            decreases start,
        {
            start = start - 1;
        }
        let ghost name = t.skip(start as int);
        assert(v@.subrange(start as int, end as int) =~= name);
        assert(start < end);
        if end - start == 1 && v[start] == '.' {
            assert(name =~= seq!['.']);
            assert(t.take(start as int) =~= v@.take(start as int));
            end = start;
        } else {
            assert(name != seq!['.']) by {
                if name == seq!['.'] {
                    assert(name.len() == 1 && name[0] == '.');
                }
            }
            if end - start == 2 && v[start] == '.' && v[start + 1] == '.' {
                assert(name =~= seq!['.', '.']);
                return None;
            }
            assert(name != seq!['.', '.']) by {
                if name == seq!['.', '.'] {
                    assert(name.len() == 2 && name[0] == '.' && name[1] == '.');
                }
            }
            return Some(s.substring_char(start, end).to_owned());
        }
    }
}

} // verus!
