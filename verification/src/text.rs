//! Text helpers over sequences of characters: decimal numbers, substring
//! search and the components of a slash-separated path.

use vstd::prelude::*;

verus! {

/// `String::push` appends one character to the string.
pub assume_specification[ String::push ](s: &mut String, c: char)
    ensures
        final(s)@ == old(s)@.push(c),
;

/// The characters of `s`, in order.
pub fn chars_of(s: &str) -> (v: Vec<char>)
    ensures
        v@ == s@,
{
    let mut v: Vec<char> = Vec::new();
    let it = s.chars();
    for c in iter: it
        invariant
            v@ == iter.seq().take(iter.index@),
    {
        v.push(c);
    }
    v
}

/// The string made of the characters `chars[from..to]`.
pub fn string_of_range(chars: &Vec<char>, from: usize, to: usize) -> (s: String)
    requires
        from <= to <= chars.len(),
    ensures
        s@ == chars@.subrange(from as int, to as int),
{
    let mut s = String::new();
    let mut i: usize = from;
    while i < to
        invariant
            from <= i <= to <= chars.len(),
            s@ == chars@.subrange(from as int, i as int),
        decreases to - i,
    {
        s.push(chars[i]);
        i += 1;
        assert(chars@.subrange(from as int, i as int) == chars@.subrange(
            from as int,
            i as int - 1,
        ).push(chars@[i as int - 1]));
    }
    s
}

/// The string made of `chars`, in order.
pub fn string_of(chars: &Vec<char>) -> (s: String)
    ensures
        s@ == chars@,
{
    let s = string_of_range(chars, 0, chars.len());
    assert(chars@.subrange(0, chars@.len() as int) == chars@);
    s
}

// ---------------------------------------------------------------------------
// Substrings
// ---------------------------------------------------------------------------

/// `needle` stands in `hay` at position `at`.
pub open spec fn occurs_at(hay: Seq<char>, needle: Seq<char>, at: int) -> bool {
    &&& 0 <= at
    &&& at + needle.len() <= hay.len()
    &&& hay.subrange(at, at + needle.len()) == needle
}

/// `needle` stands somewhere in `hay`.
pub open spec fn contains_text(hay: Seq<char>, needle: Seq<char>) -> bool {
    exists|at: int| occurs_at(hay, needle, at)
}

/// `hay` begins with `prefix`.
pub open spec fn has_prefix(hay: Seq<char>, prefix: Seq<char>) -> bool {
    occurs_at(hay, prefix, 0)
}

/// Whether `needle` stands in `hay` at position `at`.
pub fn matches_at(hay: &Vec<char>, needle: &Vec<char>, at: usize) -> (found: bool)
    ensures
        found == occurs_at(hay@, needle@, at as int),
{
    if needle.len() > hay.len() || at > hay.len() - needle.len() {
        return false;
    }
    let mut k: usize = 0;
    while k < needle.len()
        invariant
            k <= needle.len(),
            at + needle.len() <= hay.len(),
            forall|j: int| 0 <= j < k ==> hay@[at + j] == needle@[j],
        decreases needle.len() - k,
    {
        if hay[at + k] != needle[k] {
            proof {
                let sub = hay@.subrange(at as int, at + needle@.len());
                assert(sub[k as int] == hay@[at + k]);
            }
            return false;
        }
        k += 1;
    }
    assert(hay@.subrange(at as int, at + needle@.len()) =~= needle@);
    true
}

/// Whether `hay` begins with `prefix`.
pub fn starts_with(hay: &Vec<char>, prefix: &Vec<char>) -> (found: bool)
    ensures
        found == has_prefix(hay@, prefix@),
{
    matches_at(hay, prefix, 0)
}

/// Whether `a` and `b` hold the same characters.
pub fn same_chars(a: &Vec<char>, b: &Vec<char>) -> (same: bool)
    ensures
        same == (a@ == b@),
{
    if a.len() != b.len() {
        return false;
    }
    let same = matches_at(a, b, 0);
    assert(a@.subrange(0, a@.len() as int) =~= a@);
    same
}

/// Whether `needle` stands somewhere in `hay`.
pub fn contains(hay: &Vec<char>, needle: &Vec<char>) -> (found: bool)
    ensures
        found == contains_text(hay@, needle@),
{
    if needle.len() > hay.len() {
        assert forall|at: int| !occurs_at(hay@, needle@, at) by {}
        return false;
    }
    let last: usize = hay.len() - needle.len();
    let mut at: usize = 0;
    loop
        invariant
            last == hay.len() - needle.len(),
            at <= last,
            forall|j: int| 0 <= j < at ==> !occurs_at(hay@, needle@, j),
        decreases last - at,
    {
        if matches_at(hay, needle, at) {
            return true;
        }
        if at == last {
            assert forall|j: int| !occurs_at(hay@, needle@, j) by {}
            return false;
        }
        at += 1;
    }
}

// ---------------------------------------------------------------------------
// Path components
// ---------------------------------------------------------------------------

/// The position of the last `c` in `s`, or -1 where `s` holds none.
pub open spec fn last_index_of(s: Seq<char>, c: char) -> int
    decreases s.len(),
{
    if s.len() == 0 {
        -1
    } else if s.last() == c {
        s.len() - 1
    } else {
        last_index_of(s.drop_last(), c)
    }
}

/// `last_index_of` is a position of `c`, and no `c` stands after it.
pub proof fn lemma_last_index_of(s: Seq<char>, c: char)
    ensures
        -1 <= last_index_of(s, c) < s.len(),
        last_index_of(s, c) >= 0 ==> s[last_index_of(s, c)] == c,
        forall|j: int| last_index_of(s, c) < j < s.len() ==> s[j] != c,
    decreases s.len(),
{
    if s.len() > 0 && s.last() != c {
        lemma_last_index_of(s.drop_last(), c);
        assert forall|j: int| last_index_of(s, c) < j < s.len() implies s[j] != c by {
            if j < s.len() - 1 {
                assert(s.drop_last()[j] == s[j]);
            }
        }
    }
}

/// The position of the last `c` in `s`.
pub fn find_last(s: &Vec<char>, c: char) -> (at: Option<usize>)
    ensures
        match at {
            Some(i) => i as int == last_index_of(s@, c),
            None => last_index_of(s@, c) == -1,
        },
{
    let mut i: usize = s.len();
    assert(s@.take(i as int) =~= s@);
    while i > 0
        invariant
            i <= s.len(),
            last_index_of(s@, c) == last_index_of(s@.take(i as int), c),
        decreases i,
    {
        if s[i - 1] == c {
            assert(s@.take(i as int).last() == c);
            return Some(i - 1);
        }
        assert(s@.take(i as int).drop_last() =~= s@.take(i as int - 1));
        i -= 1;
    }
    assert(s@.take(0).len() == 0);
    None
}

/// A path without what does not count at its end: slashes, and a last
/// component that is a single dot.
pub open spec fn trimmed_path(path: Seq<char>) -> Seq<char>
    decreases path.len(),
{
    if path.len() > 0 && path.last() == '/' {
        trimmed_path(path.drop_last())
    } else if path.len() >= 2 && path[path.len() - 1] == '.' && path[path.len() - 2] == '/' {
        trimmed_path(path.subrange(0, path.len() - 2))
    } else {
        path
    }
}

/// What follows the last `/` of the trimmed path, or all of it where it
/// holds none.
pub open spec fn last_segment(path: Seq<char>) -> Seq<char> {
    trimmed_path(path).subrange(
        last_index_of(trimmed_path(path), '/') + 1,
        trimmed_path(path).len() as int,
    )
}

/// The final component of a slash-separated path, if it has one: slashes at
/// the end do not count, nor does a last component `.`; the root, the empty
/// path, and a path that ends in `..` or is `.` have none.
pub open spec fn final_component(path: Seq<char>) -> Option<Seq<char>> {
    if last_segment(path).len() == 0 || last_segment(path) == seq!['.'] || last_segment(path)
        == seq!['.', '.'] {
        None
    } else {
        Some(last_segment(path))
    }
}

/// The name of the entry at a path: its final component, or the empty text
/// where it has none.
pub open spec fn file_name_of(path: Seq<char>) -> Seq<char> {
    match final_component(path) {
        Some(name) => name,
        None => Seq::empty(),
    }
}

/// The extension of a file name: what follows its last `.`, unless that dot
/// is the name's first character or the name holds none.
pub open spec fn extension_of(name: Seq<char>) -> Seq<char> {
    if last_index_of(name, '.') <= 0 {
        Seq::empty()
    } else {
        name.subrange(last_index_of(name, '.') + 1, name.len() as int)
    }
}

/// Where the trimmed path ends in `path`.
pub fn trimmed_len(path: &Vec<char>) -> (end: usize)
    ensures
        end <= path.len(),
        path@.take(end as int) == trimmed_path(path@),
{
    let mut end: usize = path.len();
    assert(path@.take(end as int) =~= path@);
    loop
        invariant
            end <= path.len(),
            trimmed_path(path@) == trimmed_path(path@.take(end as int)),
        decreases end,
    {
        let ghost head = path@.take(end as int);
        if end > 0 && path[end - 1] == '/' {
            assert(head.drop_last() =~= path@.take(end - 1));
            end -= 1;
        } else if end >= 2 && path[end - 1] == '.' && path[end - 2] == '/' {
            assert(head.subrange(0, head.len() - 2) =~= path@.take(end - 2));
            end -= 2;
        } else {
            return end;
        }
    }
}

/// The final component of `path`, if it has one.
pub fn final_name(path: &Vec<char>) -> (name: Option<Vec<char>>)
    ensures
        match name {
            Some(n) => final_component(path@) == Some(n@),
            None => final_component(path@) is None,
        },
{
    let end = trimmed_len(path);
    let head = copy_range(path, 0, end);
    assert(head@ =~= trimmed_path(path@));
    proof {
        lemma_last_index_of(head@, '/');
    }
    let slash = find_last(&head, '/');
    assert(slash matches Some(i) ==> i < head.len());
    let from: usize = match slash {
        Some(i) => i + 1,
        None => 0,
    };
    let name = copy_range(&head, from, head.len());
    assert(name@ == last_segment(path@));
    if name.len() == 0 {
        return None;
    }
    if name.len() == 1 && name[0] == '.' {
        assert(name@ =~= seq!['.']);
        return None;
    }
    if name.len() == 2 && name[0] == '.' && name[1] == '.' {
        assert(name@ =~= seq!['.', '.']);
        return None;
    }
    assert(name@ != seq!['.']) by {
        if name@ == seq!['.'] {
            assert(name@.len() == 1);
            assert(name@[0] == seq!['.'][0]);
        }
    }
    assert(name@ != seq!['.', '.']) by {
        if name@ == seq!['.', '.'] {
            assert(name@.len() == 2);
            assert(name@[0] == seq!['.', '.'][0]);
            assert(name@[1] == seq!['.', '.'][1]);
        }
    }
    Some(name)
}

/// The name of the entry at `path`.
pub fn file_name(path: &Vec<char>) -> (name: Vec<char>)
    ensures
        name@ == file_name_of(path@),
{
    match final_name(path) {
        Some(name) => name,
        None => Vec::new(),
    }
}

/// The extension of the file name `name`.
pub fn extension(name: &Vec<char>) -> (ext: Vec<char>)
    ensures
        ext@ == extension_of(name@),
{
    proof {
        lemma_last_index_of(name@, '.');
    }
    let dot = find_last(name, '.');
    assert(dot matches Some(i) ==> i < name.len());
    match dot {
        Some(i) => {
            if i == 0 {
                Vec::new()
            } else {
                copy_range(name, i + 1, name.len())
            }
        },
        None => Vec::new(),
    }
}

/// The characters `chars[from..to]`.
pub fn copy_range(chars: &Vec<char>, from: usize, to: usize) -> (out: Vec<char>)
    requires
        from <= to <= chars.len(),
    ensures
        out@ == chars@.subrange(from as int, to as int),
{
    let mut out: Vec<char> = Vec::new();
    let mut i: usize = from;
    while i < to
        invariant
            from <= i <= to <= chars.len(),
            out@ == chars@.subrange(from as int, i as int),
        decreases to - i,
    {
        out.push(chars[i]);
        i += 1;
        assert(chars@.subrange(from as int, i as int) == chars@.subrange(
            from as int,
            i as int - 1,
        ).push(chars@[i as int - 1]));
    }
    out
}

// ---------------------------------------------------------------------------
// Decimal numbers
// ---------------------------------------------------------------------------

/// The character that writes the digit `d`.
pub open spec fn digit_char(d: nat) -> char {
    if d == 0 {
        '0'
    } else if d == 1 {
        '1'
    } else if d == 2 {
        '2'
    } else if d == 3 {
        '3'
    } else if d == 4 {
        '4'
    } else if d == 5 {
        '5'
    } else if d == 6 {
        '6'
    } else if d == 7 {
        '7'
    } else if d == 8 {
        '8'
    } else {
        '9'
    }
}

/// The digit that `c` writes, if it writes one.
pub open spec fn digit_value(c: char) -> Option<nat> {
    if c == '0' {
        Some(0)
    } else if c == '1' {
        Some(1)
    } else if c == '2' {
        Some(2)
    } else if c == '3' {
        Some(3)
    } else if c == '4' {
        Some(4)
    } else if c == '5' {
        Some(5)
    } else if c == '6' {
        Some(6)
    } else if c == '7' {
        Some(7)
    } else if c == '8' {
        Some(8)
    } else if c == '9' {
        Some(9)
    } else {
        None
    }
}

/// The decimal digits of `n`, most significant first, without leading zeros.
pub open spec fn decimal(n: nat) -> Seq<char>
    decreases n,
{
    if n < 10 {
        seq![digit_char(n)]
    } else {
        decimal(n / 10).push(digit_char(n % 10))
    }
}

/// Every character of `s` is a decimal digit.
pub open spec fn all_digits(s: Seq<char>) -> bool {
    forall|i: int| 0 <= i < s.len() ==> (#[trigger] digit_value(s[i])) is Some
}

/// The number that the digits `s` write; a character that is no digit counts
/// as zero.
pub open spec fn digits_value(s: Seq<char>) -> nat
    decreases s.len(),
{
    if s.len() == 0 {
        0
    } else {
        digits_value(s.drop_last()) * 10 + match digit_value(s.last()) {
            Some(d) => d,
            None => 0,
        }
    }
}

/// `s` without one leading `+`.
pub open spec fn unsigned_part(s: Seq<char>) -> Seq<char> {
    if s.len() > 0 && s[0] == '+' {
        s.subrange(1, s.len() as int)
    } else {
        s
    }
}

/// The number that `s` writes in decimal: an optional `+`, then one digit or
/// more and nothing else.
pub open spec fn parse_decimal(s: Seq<char>) -> Option<nat> {
    let body = unsigned_part(s);
    if body.len() > 0 && all_digits(body) {
        Some(digits_value(body))
    } else {
        None
    }
}

/// The character that writes the digit `d`.
pub fn digit(d: u8) -> (c: char)
    requires
        d < 10,
    ensures
        c == digit_char(d as nat),
        digit_value(c) == Some(d as nat),
{
    match d {
        0 => '0',
        1 => '1',
        2 => '2',
        3 => '3',
        4 => '4',
        5 => '5',
        6 => '6',
        7 => '7',
        8 => '8',
        _ => '9',
    }
}

/// The digit that `c` writes.
pub fn value_of_digit(c: char) -> (d: Option<u8>)
    ensures
        match d {
            Some(v) => v < 10 && digit_value(c) == Some(v as nat),
            None => digit_value(c) is None,
        },
{
    match c {
        '0' => Some(0),
        '1' => Some(1),
        '2' => Some(2),
        '3' => Some(3),
        '4' => Some(4),
        '5' => Some(5),
        '6' => Some(6),
        '7' => Some(7),
        '8' => Some(8),
        '9' => Some(9),
        _ => None,
    }
}

/// Appends the decimal digits of `n` to `s`.
pub fn push_decimal(s: &mut String, n: u64)
    ensures
        final(s)@ == old(s)@ + decimal(n as nat),
    decreases n,
{
    if n >= 10 {
        push_decimal(s, n / 10);
    }
    let d: u8 = (n % 10) as u8;
    s.push(digit(d));
    assert(final(s)@ =~= old(s)@ + decimal(n as nat));
}

/// `n` in decimal.
pub fn to_decimal(n: u64) -> (s: String)
    ensures
        s@ == decimal(n as nat),
{
    let mut s = String::new();
    push_decimal(&mut s, n);
    assert(Seq::<char>::empty() + decimal(n as nat) =~= decimal(n as nat));
    s
}

/// The value of a prefix of digits is at most the value of the whole.
pub proof fn lemma_digits_value_prefix(s: Seq<char>, k: int)
    requires
        0 <= k <= s.len(),
    ensures
        digits_value(s.take(k)) <= digits_value(s),
    decreases s.len() - k,
{
    if k < s.len() {
        lemma_digits_value_prefix(s.drop_last(), k);
        assert(s.drop_last().take(k) =~= s.take(k));
    } else {
        assert(s.take(k) =~= s);
    }
}

/// The number that `s` writes in decimal, where it fits in 64 bits.
pub fn parse_u64(s: &str) -> (r: Option<u64>)
    ensures
        r == match parse_decimal(s@) {
            Some(v) => if v <= u64::MAX {
                Some(v as u64)
            } else {
                None
            },
            None => None,
        },
{
    let chars = chars_of(s);
    let start: usize = if chars.len() > 0 && chars[0] == '+' {
        1
    } else {
        0
    };
    let ghost body = unsigned_part(s@);
    assert(body == chars@.subrange(start as int, chars@.len() as int)) by {
        assert(chars@.subrange(0, chars@.len() as int) =~= chars@);
    }
    if start == chars.len() {
        return None;
    }
    let mut acc: u64 = 0;
    let mut i: usize = start;
    while i < chars.len()
        invariant
            start <= i <= chars.len(),
            body == unsigned_part(s@),
            body == chars@.subrange(start as int, chars@.len() as int),
            all_digits(body.take(i - start)),
            acc as nat == digits_value(body.take(i - start)),
        decreases chars.len() - i,
    {
        let ghost k = i - start;
        proof {
            assert(body.take(k + 1).drop_last() =~= body.take(k));
            assert(body.take(k + 1).last() == chars@[i as int]);
        }
        match value_of_digit(chars[i]) {
            None => {
                assert(body[k] == chars@[i as int]);
                assert(digit_value(body[k]) is None);
                return None;
            },
            Some(d) => {
                assert forall|j: int| 0 <= j < k + 1 implies (#[trigger] digit_value(
                    body.take(k + 1)[j],
                )) is Some by {
                    if j < k {
                        assert(body.take(k)[j] == body.take(k + 1)[j]);
                    }
                }
                assert(digits_value(body.take(k + 1)) == acc * 10 + d);
                if acc > (u64::MAX - d as u64) / 10 {
                    proof {
                        lemma_digits_value_prefix(body, k + 1);
                    }
                    return None;
                }
                acc = acc * 10 + d as u64;
            },
        }
        i += 1;
    }
    assert(body.take(i - start) =~= body);
    Some(acc)
}

/// The law of the decimal round trip: the digits of `n` hold digits only, at
/// least one, and write `n`.
pub proof fn lemma_decimal_digits(n: nat)
    ensures
        decimal(n).len() > 0,
        all_digits(decimal(n)),
        digits_value(decimal(n)) == n,
    decreases n,
{
    assert(digit_value(digit_char(n % 10)) == Some(n % 10));
    if n < 10 {
        assert(decimal(n).drop_last() =~= Seq::<char>::empty());
        assert(digits_value(decimal(n).drop_last()) == 0);
        assert(decimal(n).last() == digit_char(n));
    } else {
        lemma_decimal_digits(n / 10);
        assert(decimal(n).drop_last() =~= decimal(n / 10));
        assert(decimal(n).last() == digit_char(n % 10));
        assert forall|i: int| 0 <= i < decimal(n).len() implies (#[trigger] digit_value(
            decimal(n)[i],
        )) is Some by {
            if i < decimal(n).len() - 1 {
                assert(decimal(n)[i] == decimal(n / 10)[i]);
            }
        }
    }
}

/// Reading back the decimal form of a number gives that number.
pub proof fn lemma_parse_decimal_roundtrip(n: nat)
    ensures
        parse_decimal(decimal(n)) == Some(n),
{
    lemma_decimal_digits(n);
    assert(digit_value(decimal(n)[0]) is Some);
}

} // verus!
