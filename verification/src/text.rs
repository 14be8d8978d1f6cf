//! Operations on text. A text is modelled by its sequence of characters.

use vstd::prelude::*;
use vstd::string::*;

verus! {

/// `String::push` appends the character to the end of the string.
pub assume_specification[ String::push ](s: &mut String, c: char)
    ensures
        final(s)@ == old(s)@.push(c),
;

/// What `str::to_lowercase` makes of a text.
pub uninterp spec fn lower(s: Seq<char>) -> Seq<char>;

pub open spec fn lower_char(c: char) -> char {
    if 'A' <= c <= 'Z' { ((c as u32 + 32) as u32) as char } else { c }
}

/// `s` with the ASCII letters in lower case.
pub open spec fn ascii_lower(s: Seq<char>) -> Seq<char> {
    s.map_values(|c: char| lower_char(c))
}

/// Whether a text is ASCII.
pub open spec fn is_ascii(s: Seq<char>) -> bool {
    forall|i: int| 0 <= i < s.len() ==> #[trigger] s[i] <= '\x7f'
}

/// Calls `str::to_lowercase`. The contract claims that the result depends on
/// the text alone, that it holds no ASCII capital letter, and that of ASCII
/// text each letter becomes its own lower case.
#[verifier::external_body]
pub(crate) fn lowered(s: &str) -> (r: String)
    ensures
        r@ == lower(s@),
        forall|i: int| 0 <= i < r@.len() ==> !('A' <= #[trigger] r@[i] <= 'Z'),
        is_ascii(s@) ==> r@ == ascii_lower(s@),
{
    s.to_lowercase()
}

/// The texts held by a list of strings.
pub open spec fn texts(v: Seq<String>) -> Seq<Seq<char>> {
    v.map_values(|s: String| s@)
}

/// What a list of values stands for, value by value.
pub open spec fn views<T: View>(s: Seq<T>) -> Seq<T::V> {
    s.map_values(|t: T| t@)
}

/// Appending a value appends what it stands for.
pub proof fn views_push<T: View>(s: Seq<T>, t: T)
    ensures
        views(s.push(t)) == views(s).push(t@),
{
    assert(views(s.push(t)) =~= views(s).push(t@));
}

/// The texts held by a list of pairs of strings.
pub open spec fn pairs(v: Seq<(String, String)>) -> Seq<(Seq<char>, Seq<char>)> {
    v.map_values(|p: (String, String)| (p.0@, p.1@))
}

/// The text held by an optional string.
pub open spec fn opt_text(o: Option<String>) -> Option<Seq<char>> {
    match o {
        Some(s) => Some(s@),
        None => None,
    }
}

/// The characters with the Unicode property White_Space.
pub open spec fn is_space(c: char) -> bool {
    ||| 0x9 <= c as u32 <= 0xd
    ||| c as u32 == 0x20
    ||| c as u32 == 0x85
    ||| c as u32 == 0xa0
    ||| c as u32 == 0x1680
    ||| 0x2000 <= c as u32 <= 0x200a
    ||| c as u32 == 0x2028
    ||| c as u32 == 0x2029
    ||| c as u32 == 0x202f
    ||| c as u32 == 0x205f
    ||| c as u32 == 0x3000
}

/// `s` without its leading whitespace.
pub open spec fn trim_start(s: Seq<char>) -> Seq<char>
    decreases s.len(),
{
    if s.len() > 0 && is_space(s[0]) {
        trim_start(s.skip(1))
    } else {
        s
    }
}

/// `s` without its trailing whitespace.
pub open spec fn trim_end(s: Seq<char>) -> Seq<char>
    decreases s.len(),
{
    if s.len() > 0 && is_space(s.last()) {
        trim_end(s.drop_last())
    } else {
        s
    }
}

/// `s` without leading and trailing whitespace.
pub open spec fn trim(s: Seq<char>) -> Seq<char> {
    trim_end(trim_start(s))
}

/// `s` without its leading run of `c`.
pub open spec fn trim_start_char(s: Seq<char>, c: char) -> Seq<char>
    decreases s.len(),
{
    if s.len() > 0 && s[0] == c {
        trim_start_char(s.skip(1), c)
    } else {
        s
    }
}

/// `s` without its trailing run of `c`.
pub open spec fn trim_end_char(s: Seq<char>, c: char) -> Seq<char>
    decreases s.len(),
{
    if s.len() > 0 && s.last() == c {
        trim_end_char(s.drop_last(), c)
    } else {
        s
    }
}

/// `s` without the repeated prefix `p`.
pub open spec fn trim_start_text(s: Seq<char>, p: Seq<char>) -> Seq<char>
    decreases s.len(),
{
    if p.len() > 0 && p.is_prefix_of(s) {
        trim_start_text(s.skip(p.len() as int), p)
    } else {
        s
    }
}

/// `s` without the repeated suffix `p`.
pub open spec fn trim_end_text(s: Seq<char>, p: Seq<char>) -> Seq<char>
    decreases s.len(),
{
    if p.len() > 0 && p.is_suffix_of(s) {
        trim_end_text(s.take(s.len() - p.len()), p)
    } else {
        s
    }
}

/// The start of `s` up to its first whitespace.
pub open spec fn up_to_space(s: Seq<char>) -> Seq<char>
    decreases s.len(),
{
    if s.len() == 0 || is_space(s[0]) {
        Seq::empty()
    } else {
        seq![s[0]] + up_to_space(s.skip(1))
    }
}

/// The first word of `s`: what stands between its leading whitespace and the
/// next, and nothing where `s` holds no word.
pub open spec fn first_word(s: Seq<char>) -> Seq<char> {
    up_to_space(trim_start(s))
}

pub open spec fn is_alphanumeric(c: char) -> bool {
    ||| '0' <= c <= '9'
    ||| 'a' <= c <= 'z'
    ||| 'A' <= c <= 'Z'
}

/// `s` without the characters at its end that are no ASCII letter or digit.
pub open spec fn trim_end_marks(s: Seq<char>) -> Seq<char>
    decreases s.len(),
{
    if s.len() > 0 && !is_alphanumeric(s.last()) {
        trim_end_marks(s.drop_last())
    } else {
        s
    }
}

/// The texts that are not empty, in their order.
pub open spec fn nonempty(items: Seq<Seq<char>>) -> Seq<Seq<char>>
    decreases items.len(),
{
    if items.len() == 0 {
        Seq::empty()
    } else {
        let before = nonempty(items.drop_last());
        if items.last().len() > 0 {
            before.push(items.last())
        } else {
            before
        }
    }
}

/// The first `n` items, or all of them where there are fewer.
pub open spec fn cap<T>(items: Seq<T>, n: int) -> Seq<T> {
    if items.len() <= n {
        items
    } else {
        items.take(n)
    }
}

/// The texts without surrounding whitespace.
pub open spec fn trims(items: Seq<Seq<char>>) -> Seq<Seq<char>> {
    items.map_values(|s: Seq<char>| trim(s))
}

/// Whether `p` stands in `s` at position `i`.
pub open spec fn occurs_at(s: Seq<char>, p: Seq<char>, i: int) -> bool {
    0 <= i && i + p.len() <= s.len() && s.subrange(i, i + p.len()) == p
}

/// The first position at or after `i` where `p` stands in `s`.
pub open spec fn find_from(s: Seq<char>, p: Seq<char>, i: int) -> Option<int>
    decreases s.len() - i + 1,
{
    if i < 0 || i + p.len() > s.len() {
        None
    } else if occurs_at(s, p, i) {
        Some(i)
    } else {
        find_from(s, p, i + 1)
    }
}

/// The first position where `p` stands in `s`.
pub open spec fn find(s: Seq<char>, p: Seq<char>) -> Option<int> {
    find_from(s, p, 0)
}

/// Whether `p` stands somewhere in `s`.
pub open spec fn contains(s: Seq<char>, p: Seq<char>) -> bool {
    exists|i: int| occurs_at(s, p, i)
}

/// The first position of the character `c` in `s`.
pub open spec fn find_char(s: Seq<char>, c: char) -> Option<int>
    decreases s.len(),
{
    if s.len() == 0 {
        None
    } else if s[0] == c {
        Some(0int)
    } else {
        match find_char(s.skip(1), c) {
            Some(i) => Some(i + 1),
            None => None,
        }
    }
}

/// The last position of the character `c` in `s`.
pub open spec fn rfind_char(s: Seq<char>, c: char) -> Option<int>
    decreases s.len(),
{
    if s.len() == 0 {
        None
    } else if s.last() == c {
        Some(s.len() - 1)
    } else {
        rfind_char(s.drop_last(), c)
    }
}

/// `s` without one trailing carriage return.
pub open spec fn strip_cr(s: Seq<char>) -> Seq<char> {
    if s.len() > 0 && s.last() == '\r' {
        s.drop_last()
    } else {
        s
    }
}

/// The lines of `s`. A line ends at a line feed, or at a carriage return and a
/// line feed; neither is part of the line, and the last line may lack them.
pub open spec fn lines(s: Seq<char>) -> Seq<Seq<char>>
    decreases s.len(),
    via lines_decreases
{
    if s.len() == 0 {
        Seq::empty()
    } else {
        match find_char(s, '\n') {
            None => seq![s],
            Some(k) => seq![strip_cr(s.take(k))] + lines(s.skip(k + 1)),
        }
    }
}

#[via_fn]
proof fn lines_decreases(s: Seq<char>) {
    find_char_found(s, '\n');
}

/// The texts one after another, with `sep` between any two neighbours.
pub open spec fn join(parts: Seq<Seq<char>>, sep: Seq<char>) -> Seq<char>
    decreases parts.len(),
{
    if parts.len() == 0 {
        Seq::empty()
    } else if parts.len() == 1 {
        parts[0]
    } else {
        join(parts.drop_last(), sep) + sep + parts.last()
    }
}

/// The first `n` characters of `s`, or all of it where it has fewer.
pub open spec fn first_chars(s: Seq<char>, n: int) -> Seq<char> {
    if s.len() <= n {
        s
    } else {
        s.take(n)
    }
}

/// The decimal digit with value `d`.
pub open spec fn digit_char(d: int) -> char {
    if d == 0 { '0' } else if d == 1 { '1' } else if d == 2 { '2' } else if d == 3 { '3' }
    else if d == 4 { '4' } else if d == 5 { '5' } else if d == 6 { '6' } else if d == 7 { '7' }
    else if d == 8 { '8' } else { '9' }
}

/// `n` written in decimal.
pub open spec fn decimal(n: nat) -> Seq<char>
    decreases n,
{
    if n < 10 {
        seq![digit_char(n as int)]
    } else {
        decimal(n / 10).push(digit_char((n % 10) as int))
    }
}

pub open spec fn is_digit(c: char) -> bool {
    '0' <= c <= '9'
}

/// The value of a run of decimal digits.
pub open spec fn digits_value(s: Seq<char>) -> nat
    decreases s.len(),
{
    if s.len() == 0 {
        0
    } else {
        digits_value(s.drop_last()) * 10 + (s.last() as nat - '0' as nat) as nat
    }
}

pub open spec fn all_digits(s: Seq<char>) -> bool {
    forall|i: int| 0 <= i < s.len() ==> is_digit(#[trigger] s[i])
}

/// The number that `s` writes: digits, perhaps behind one plus sign, whose
/// value is at most `max`.
pub open spec fn parse_number(s: Seq<char>, max: nat) -> Option<nat> {
    let digits = if s.len() > 0 && s[0] == '+' { s.skip(1) } else { s };
    if digits.len() > 0 && all_digits(digits) && digits_value(digits) <= max {
        Some(digits_value(digits))
    } else {
        None
    }
}

pub open spec fn upper_char(c: char) -> char {
    if 'a' <= c <= 'z' { ((c as u32 - 32) as u32) as char } else { c }
}

/// `s` with the ASCII letters in upper case.
pub open spec fn ascii_upper(s: Seq<char>) -> Seq<char> {
    s.map_values(|c: char| upper_char(c))
}

/// `s` with every occurrence of `from`, taken from the left and without
/// overlap, replaced by `to`.
pub open spec fn replace_all(s: Seq<char>, from: Seq<char>, to: Seq<char>) -> Seq<char>
    decreases s.len(),
    via replace_all_decreases
{
    if from.len() == 0 {
        s
    } else {
        match find(s, from) {
            None => s,
            Some(k) => s.take(k) + to + replace_all(s.skip(k + from.len()), from, to),
        }
    }
}

#[via_fn]
proof fn replace_all_decreases(s: Seq<char>, from: Seq<char>, to: Seq<char>) {
    find_found(s, from);
}

/// Code point order on texts, which is also the order of their UTF-8 bytes.
pub open spec fn text_le(a: Seq<char>, b: Seq<char>) -> bool
    decreases a.len(),
{
    if a.len() == 0 {
        true
    } else if b.len() == 0 {
        false
    } else if a[0] != b[0] {
        a[0] < b[0]
    } else {
        text_le(a.skip(1), b.skip(1))
    }
}

/// Of any two texts one does not come after the other.
pub proof fn text_le_total(a: Seq<char>, b: Seq<char>)
    ensures
        text_le(a, b) || text_le(b, a),
    decreases a.len(),
{
    if a.len() > 0 && b.len() > 0 && a[0] == b[0] {
        text_le_total(a.skip(1), b.skip(1));
    }
}

/// The order of texts carries over.
pub proof fn text_le_trans(a: Seq<char>, b: Seq<char>, c: Seq<char>)
    requires
        text_le(a, b),
        text_le(b, c),
    ensures
        text_le(a, c),
    decreases a.len(),
{
    if a.len() > 0 && b.len() > 0 && c.len() > 0 && a[0] == b[0] && b[0] == c[0] {
        text_le_trans(a.skip(1), b.skip(1), c.skip(1));
    }
}

/// Two texts that do not come after each other are the same.
pub proof fn text_le_antisym(a: Seq<char>, b: Seq<char>)
    requires
        text_le(a, b),
        text_le(b, a),
    ensures
        a == b,
    decreases a.len(),
{
    if a.len() == 0 {
        assert(b.len() == 0);
        assert(a =~= b);
    } else {
        assert(b.len() > 0 && a[0] == b[0]);
        text_le_antisym(a.skip(1), b.skip(1));
        assert(a =~= seq![a[0]] + a.skip(1));
        assert(b =~= seq![b[0]] + b.skip(1));
    }
}

/// What a found position says.
pub proof fn find_from_found(s: Seq<char>, p: Seq<char>, i: int)
    requires
        0 <= i,
    ensures
        match find_from(s, p, i) {
            Some(k) => {
                &&& i <= k
                &&& occurs_at(s, p, k)
                &&& forall|j: int| i <= j < k ==> !occurs_at(s, p, j)
            },
            None => forall|j: int| i <= j ==> !occurs_at(s, p, j),
        },
    decreases s.len() - i + 1,
{
    if i + p.len() <= s.len() && !occurs_at(s, p, i) {
        find_from_found(s, p, i + 1);
    }
}

/// The first position is an occurrence, and no occurrence comes before it.
pub proof fn find_found(s: Seq<char>, p: Seq<char>)
    ensures
        match find(s, p) {
            Some(k) => {
                &&& occurs_at(s, p, k)
                &&& forall|j: int| 0 <= j < k ==> !occurs_at(s, p, j)
            },
            None => !contains(s, p),
        },
        find(s, p) is Some <==> contains(s, p),
{
    find_from_found(s, p, 0);
}

pub proof fn find_char_found(s: Seq<char>, c: char)
    ensures
        match find_char(s, c) {
            Some(k) => {
                &&& 0 <= k < s.len()
                &&& s[k] == c
                &&& forall|j: int| 0 <= j < k ==> s[j] != c
            },
            None => forall|j: int| 0 <= j < s.len() ==> s[j] != c,
        },
    decreases s.len(),
{
    if s.len() > 0 && s[0] != c {
        find_char_found(s.skip(1), c);
        assert forall|j: int| 0 < j < s.len() implies s[j] == s.skip(1)[j - 1] by {}
    }
}

pub proof fn rfind_char_found(s: Seq<char>, c: char)
    ensures
        match rfind_char(s, c) {
            Some(k) => {
                &&& 0 <= k < s.len()
                &&& s[k] == c
                &&& forall|j: int| k < j < s.len() ==> s[j] != c
            },
            None => forall|j: int| 0 <= j < s.len() ==> s[j] != c,
        },
    decreases s.len(),
{
    if s.len() > 0 && s.last() != c {
        rfind_char_found(s.drop_last(), c);
        assert forall|j: int| 0 <= j < s.len() - 1 implies s[j] == s.drop_last()[j] by {}
    }
}

/// A line feed ends the first line.
pub proof fn lines_first(a: Seq<char>, rest: Seq<char>)
    requires
        !a.contains('\n'),
    ensures
        lines(a + seq!['\n'] + rest) == seq![strip_cr(a)] + lines(rest),
{
    let s = a + seq!['\n'] + rest;
    find_char_found(s, '\n');
    assert(s[a.len() as int] == '\n');
    assert forall|j: int| 0 <= j < a.len() implies s[j] != '\n' by {
        assert(s[j] == a[j]);
        assert(a.contains(a[j]));
    }
    assert(find_char(s, '\n') == Some(a.len() as int));
    assert(s.take(a.len() as int) =~= a);
    assert(s.skip(a.len() as int + 1) =~= rest);
}

/// Joining takes the first text apart from the others.
pub proof fn join_first(x: Seq<char>, parts: Seq<Seq<char>>, sep: Seq<char>)
    requires
        parts.len() > 0,
    ensures
        join(seq![x] + parts, sep) == x + sep + join(parts, sep),
    decreases parts.len(),
{
    let all = seq![x] + parts;
    if parts.len() == 1 {
        assert(all.drop_last() =~= seq![x]);
        assert(join(seq![x], sep) == x);
    } else {
        join_first(x, parts.drop_last(), sep);
        assert(all.drop_last() =~= seq![x] + parts.drop_last());
        let j = join(parts.drop_last(), sep);
        assert(x + sep + j + sep + parts.last() =~= x + sep + (j + sep + parts.last()));
    }
}

/// Whether a carriage return and a line feed stand at `i`.
pub open spec fn crlf_at(s: Seq<char>, i: int) -> bool {
    s[i] == '\r' && s[i + 1] == '\n'
}

/// Whether no line feed of `s` stands behind a carriage return.
pub open spec fn no_crlf(s: Seq<char>) -> bool {
    forall|i: int| 0 <= i < s.len() - 1 ==> !#[trigger] crlf_at(s, i)
}

/// The lines of a text and a line feed, joined by line feeds, are the text,
/// where none of its lines ends in a carriage return.
pub proof fn lines_join(s: Seq<char>)
    requires
        s.len() > 0 ==> s.last() != '\r',
        no_crlf(s),
    ensures
        lines(s + seq!['\n']).len() > 0,
        join(lines(s + seq!['\n']), "\n"@) == s,
    decreases s.len(),
{
    reveal_strlit("\n");
    assert("\n"@ =~= seq!['\n']);
    find_char_found(s, '\n');
    match find_char(s, '\n') {
        None => {
            assert(!s.contains('\n'));
            lines_first(s, Seq::empty());
            assert(s + seq!['\n'] + Seq::<char>::empty() =~= s + seq!['\n']);
            assert(lines(Seq::<char>::empty()) =~= Seq::empty());
            assert(seq![strip_cr(s)] + lines(Seq::<char>::empty()) =~= seq![s]);
        },
        Some(k) => {
            let a = s.take(k);
            let t = s.skip(k + 1);
            assert forall|c: char| a.contains(c) implies c != '\n' by {
                let j = choose|j: int| 0 <= j < a.len() && a[j] == c;
                assert(s[j] == c);
            }
            if a.len() > 0 {
                assert(!crlf_at(s, k - 1));
                assert(a.last() == s[k - 1]);
            }
            if t.len() > 0 {
                assert(t.last() == s.last());
            }
            assert forall|i: int| 0 <= i < t.len() - 1 implies !#[trigger] crlf_at(t, i) by {
                assert(!crlf_at(s, i + k + 1));
                assert(t[i] == s[i + k + 1]);
                assert(t[i + 1] == s[i + k + 2]);
            }
            lines_join(t);
            assert(s + seq!['\n'] =~= a + seq!['\n'] + (t + seq!['\n']));
            lines_first(a, t + seq!['\n']);
            join_first(a, lines(t + seq!['\n']), "\n"@);
            assert(a + seq!['\n'] + t =~= s);
        },
    }
}

pub fn space(c: char) -> (r: bool)
    ensures
        r == is_space(c),
{
    let n: u32 = c as u32;
    (0x9 <= n && n <= 0xd) || n == 0x20 || n == 0x85 || n == 0xa0 || n == 0x1680 || (0x2000 <= n
        && n <= 0x200a) || n == 0x2028 || n == 0x2029 || n == 0x202f || n == 0x205f || n == 0x3000
}

/// The characters of `s` as a list.
pub fn chars_of(s: &str) -> (r: Vec<char>)
    ensures
        r@ == s@,
{
    let mut r: Vec<char> = Vec::new();
    for c in it: s.chars()
        invariant
            it.seq() == s@,
            r@ == s@.take(it.index() as int),
    {
        r.push(c);
        assert(s@.take(it.index() as int).push(c) =~= s@.take(it.index() as int + 1));
    }
    assert(s@.take(s@.len() as int) =~= s@);
    r
}

/// `s` without its leading whitespace.
pub fn trimmed_start<'a>(s: &'a str) -> (r: &'a str)
    ensures
        r@ == trim_start(s@),
{
    let cs = chars_of(s);
    let n: usize = cs.len();
    let mut i: usize = 0;
    assert(s@.skip(0) =~= s@);
    while i < n && space(cs[i])
        invariant
            i <= n == cs@.len(),
            cs@ == s@,
            trim_start(s@) == trim_start(s@.skip(i as int)),
        decreases n - i,
    {
        assert(s@.skip(i as int).skip(1) =~= s@.skip(i + 1));
        i += 1;
    }
    assert(s@.skip(i as int) =~= s@.subrange(i as int, n as int));
    s.substring_char(i, n)
}

/// `s` without its trailing whitespace.
pub fn trimmed_end<'a>(s: &'a str) -> (r: &'a str)
    ensures
        r@ == trim_end(s@),
{
    let cs = chars_of(s);
    let mut j: usize = cs.len();
    assert(s@.take(j as int) =~= s@);
    while j > 0 && space(cs[j - 1])
        invariant
            j <= cs@.len(),
            cs@ == s@,
            trim_end(s@) == trim_end(s@.take(j as int)),
        decreases j,
    {
        assert(s@.take(j as int).drop_last() =~= s@.take(j - 1));
        j -= 1;
    }
    assert(s@.take(j as int) =~= s@.subrange(0, j as int));
    s.substring_char(0, j)
}

/// `s` without leading and trailing whitespace.
pub fn trimmed<'a>(s: &'a str) -> (r: &'a str)
    ensures
        r@ == trim(s@),
{
    trimmed_end(trimmed_start(s))
}

/// `s` without its leading run of `c`.
pub fn trimmed_start_char<'a>(s: &'a str, c: char) -> (r: &'a str)
    ensures
        r@ == trim_start_char(s@, c),
{
    let cs = chars_of(s);
    let n: usize = cs.len();
    let mut i: usize = 0;
    assert(s@.skip(0) =~= s@);
    while i < n && cs[i] == c
        invariant
            i <= n == cs@.len(),
            cs@ == s@,
            trim_start_char(s@, c) == trim_start_char(s@.skip(i as int), c),
        decreases n - i,
    {
        assert(s@.skip(i as int).skip(1) =~= s@.skip(i + 1));
        i += 1;
    }
    assert(s@.skip(i as int) =~= s@.subrange(i as int, n as int));
    s.substring_char(i, n)
}

/// `s` without its trailing run of `c`.
pub fn trimmed_end_char<'a>(s: &'a str, c: char) -> (r: &'a str)
    ensures
        r@ == trim_end_char(s@, c),
{
    let cs = chars_of(s);
    let mut j: usize = cs.len();
    assert(s@.take(j as int) =~= s@);
    while j > 0 && cs[j - 1] == c
        invariant
            j <= cs@.len(),
            cs@ == s@,
            trim_end_char(s@, c) == trim_end_char(s@.take(j as int), c),
        decreases j,
    {
        assert(s@.take(j as int).drop_last() =~= s@.take(j - 1));
        j -= 1;
    }
    assert(s@.take(j as int) =~= s@.subrange(0, j as int));
    s.substring_char(0, j)
}

/// `s` without the repeated prefix `p`.
pub fn trimmed_start_text<'a>(s: &'a str, p: &str) -> (r: &'a str)
    ensures
        r@ == trim_start_text(s@, p@),
{
    let n: usize = count(p);
    if n == 0 {
        return s;
    }
    let mut rest: &str = s;
    while has_prefix(rest, p)
        invariant
            n == p@.len() > 0,
            trim_start_text(s@, p@) == trim_start_text(rest@, p@),
        decreases rest@.len(),
    {
        rest = rest_of(rest, n);
    }
    rest
}

/// `s` without the repeated suffix `p`.
pub fn trimmed_end_text<'a>(s: &'a str, p: &str) -> (r: &'a str)
    ensures
        r@ == trim_end_text(s@, p@),
{
    let n: usize = count(p);
    if n == 0 {
        return s;
    }
    let mut rest: &str = s;
    while has_suffix(rest, p)
        invariant
            n == p@.len() > 0,
            trim_end_text(s@, p@) == trim_end_text(rest@, p@),
        decreases rest@.len(),
    {
        let m: usize = count(rest);
        rest = start_of(rest, m - n);
    }
    rest
}

/// The first word of `s`, or nothing.
pub fn first_word_of<'a>(s: &'a str) -> (r: &'a str)
    ensures
        r@ == first_word(s@),
{
    let t = trimmed_start(s);
    let cs = chars_of(t);
    let n: usize = cs.len();
    let mut i: usize = 0;
    assert(t@.skip(0) =~= t@);
    assert(t@.take(0) + up_to_space(t@.skip(0)) =~= up_to_space(t@));
    while i < n && !space(cs[i])
        invariant
            i <= n == cs@.len(),
            cs@ == t@,
            t@.take(i as int) + up_to_space(t@.skip(i as int)) == up_to_space(t@),
        decreases n - i,
    {
        proof {
            let rest = t@.skip(i as int);
            assert(rest.skip(1) =~= t@.skip(i + 1));
            assert(t@.take(i as int) + (seq![rest[0]] + up_to_space(t@.skip(i + 1)))
                =~= t@.take(i + 1) + up_to_space(t@.skip(i + 1)));
        }
        i += 1;
    }
    assert(t@.take(i as int) + up_to_space(t@.skip(i as int)) =~= t@.take(i as int));
    start_of(t, i)
}

pub fn alphanumeric(c: char) -> (r: bool)
    ensures
        r == is_alphanumeric(c),
{
    ('0' <= c && c <= '9') || ('a' <= c && c <= 'z') || ('A' <= c && c <= 'Z')
}

/// `s` without the characters at its end that are no ASCII letter or digit.
pub fn trimmed_end_marks<'a>(s: &'a str) -> (r: &'a str)
    ensures
        r@ == trim_end_marks(s@),
{
    let cs = chars_of(s);
    let mut j: usize = cs.len();
    assert(s@.take(j as int) =~= s@);
    while j > 0 && !alphanumeric(cs[j - 1])
        invariant
            j <= cs@.len(),
            cs@ == s@,
            trim_end_marks(s@) == trim_end_marks(s@.take(j as int)),
        decreases j,
    {
        assert(s@.take(j as int).drop_last() =~= s@.take(j - 1));
        j -= 1;
    }
    start_of(s, j)
}

/// The first `max` texts of `items` that are not empty.
pub fn capped_nonempty(items: &Vec<String>, max: usize) -> (r: Vec<String>)
    ensures
        texts(r@) == cap(nonempty(texts(items@)), max as int),
{
    let mut out: Vec<String> = Vec::new();
    let mut i: usize = 0;
    assert(texts(items@).take(0) =~= Seq::<Seq<char>>::empty());
    assert(texts(out@) =~= Seq::<Seq<char>>::empty());
    while i < items.len()
        invariant
            i <= items@.len(),
            texts(out@) == cap(nonempty(texts(items@).take(i as int)), max as int),
        decreases items@.len() - i,
    {
        proof {
            let t = texts(items@).take(i + 1);
            assert(t.drop_last() =~= texts(items@).take(i as int));
            assert(t.last() == items@[i as int]@);
            let before = nonempty(t.drop_last());
            assert(texts(out@).len() == out@.len());
            if before.len() >= max {
                assert(cap(before.push(t.last()), max as int) =~= cap(before, max as int));
            }
        }
        if out.len() < max && !items[i].as_str().is_empty() {
            let item = items[i].clone();
            proof {
                texts_push(out@, item);
            }
            out.push(item);
        }
        i += 1;
    }
    assert(texts(items@).take(i as int) =~= texts(items@));
    out
}

/// The texts without surrounding whitespace.
pub fn trimmed_all(items: &Vec<String>) -> (r: Vec<String>)
    ensures
        texts(r@) == trims(texts(items@)),
{
    let mut out: Vec<String> = Vec::new();
    let mut i: usize = 0;
    assert(texts(out@) =~= trims(texts(items@)).take(0));
    while i < items.len()
        invariant
            i <= items@.len(),
            texts(out@) == trims(texts(items@)).take(i as int),
        decreases items@.len() - i,
    {
        let item = trimmed(items[i].as_str()).to_owned();
        proof {
            texts_push(out@, item);
            assert(trims(texts(items@)).take(i as int).push(item@) =~= trims(texts(items@)).take(
                i + 1,
            ));
        }
        out.push(item);
        i += 1;
    }
    assert(trims(texts(items@)).take(i as int) =~= trims(texts(items@)));
    out
}

/// A copy of a list of strings.
pub fn copied(items: &Vec<String>) -> (r: Vec<String>)
    ensures
        r@ == items@,
{
    let mut out: Vec<String> = Vec::new();
    let mut i: usize = 0;
    while i < items.len()
        invariant
            i <= items@.len(),
            out@ == items@.take(i as int),
        decreases items@.len() - i,
    {
        out.push(items[i].clone());
        assert(items@.take(i as int).push(items@[i as int]) =~= items@.take(i + 1));
        i += 1;
    }
    assert(items@.take(i as int) =~= items@);
    out
}

/// `s` without its last character.
pub open spec fn erased(s: Seq<char>) -> Seq<char> {
    if s.len() == 0 { s } else { s.drop_last() }
}

/// Takes the last character off a text.
pub fn erase_last(s: &mut String)
    ensures
        final(s)@ == erased(old(s)@),
{
    let n: usize = count(s.as_str());
    if n > 0 {
        let shorter = start_of(s.as_str(), n - 1).to_owned();
        assert(shorter@ =~= old(s)@.drop_last());
        *s = shorter;
    }
}

/// A copy of an optional string.
pub fn copied_opt(o: &Option<String>) -> (r: Option<String>)
    ensures
        r == *o,
{
    match o {
        Some(s) => Some(s.clone()),
        None => None,
    }
}

/// Whether two texts are the same.
pub fn same(a: &str, b: &str) -> (r: bool)
    ensures
        r == (a@ == b@),
{
    a.to_owned() == b.to_owned()
}

/// Whether `ps` stands in `cs` at position `i`.
fn stands_at(cs: &Vec<char>, ps: &Vec<char>, i: usize) -> (r: bool)
    requires
        i + ps@.len() <= cs@.len(),
    ensures
        r == occurs_at(cs@, ps@, i as int),
{
    let n: usize = cs.len();
    let mut j: usize = 0;
    while j < ps.len()
        invariant
            j <= ps@.len(),
            i + ps@.len() <= cs@.len() == n,
            forall|m: int| 0 <= m < j ==> cs@[i + m] == ps@[m],
        decreases ps@.len() - j,
    {
        if cs[i + j] != ps[j] {
            assert(cs@.subrange(i as int, i + ps@.len())[j as int] != ps@[j as int]);
            return false;
        }
        j += 1;
    }
    assert(cs@.subrange(i as int, i + ps@.len()) =~= ps@);
    true
}

/// The first position where `p` stands in `s`.
pub fn found(s: &str, p: &str) -> (r: Option<usize>)
    ensures
        match r {
            Some(k) => find(s@, p@) == Some(k as int) && k + p@.len() <= s@.len(),
            None => find(s@, p@) is None,
        },
        r is Some <==> contains(s@, p@),
        s@.len() <= usize::MAX,
{
    proof {
        find_found(s@, p@);
    }
    let cs = chars_of(s);
    let ps = chars_of(p);
    let n: usize = cs.len();
    if ps.len() > n {
        return None;
    }
    let last: usize = n - ps.len();
    let mut i: usize = 0;
    loop
        invariant
            i <= last,
            last + ps@.len() == cs@.len() == n,
            cs@ == s@,
            ps@ == p@,
            find(s@, p@) == find_from(s@, p@, i as int),
            find(s@, p@) is Some <==> contains(s@, p@),
        decreases last - i,
    {
        if stands_at(&cs, &ps, i) {
            return Some(i);
        }
        if i == last {
            assert(find_from(s@, p@, i + 1) is None);
            return None;
        }
        i += 1;
    }
}

/// Whether `p` stands somewhere in `s`.
pub fn has(s: &str, p: &str) -> (r: bool)
    ensures
        r == contains(s@, p@),
{
    found(s, p).is_some()
}

/// Whether `s` begins with `p`.
pub fn has_prefix(s: &str, p: &str) -> (r: bool)
    ensures
        r == p@.is_prefix_of(s@),
        r ==> p@.len() <= s@.len() <= usize::MAX,
{
    let cs = chars_of(s);
    let ps = chars_of(p);
    if ps.len() > cs.len() {
        return false;
    }
    let r = stands_at(&cs, &ps, 0);
    assert(s@.subrange(0, p@.len() as int) =~= s@.take(p@.len() as int));
    if r {
        assert(p@.is_prefix_of(s@));
    } else {
        assert(!p@.is_prefix_of(s@)) by {
            if p@.is_prefix_of(s@) {
                assert(s@.subrange(0, p@.len() as int) =~= p@);
            }
        }
    }
    r
}

/// Whether `s` ends with `p`.
pub fn has_suffix(s: &str, p: &str) -> (r: bool)
    ensures
        r == p@.is_suffix_of(s@),
        r ==> p@.len() <= s@.len() <= usize::MAX,
{
    let cs = chars_of(s);
    let ps = chars_of(p);
    let n: usize = cs.len();
    if ps.len() > n {
        return false;
    }
    let at: usize = n - ps.len();
    let r = stands_at(&cs, &ps, at);
    assert(s@.subrange(at as int, s@.len() as int) =~= s@.subrange(at as int, at + p@.len()));
    if !r {
        assert(!p@.is_suffix_of(s@)) by {
            if p@.is_suffix_of(s@) {
                assert(s@.subrange(at as int, at + p@.len()) =~= p@);
            }
        }
    }
    r
}

/// The number of characters of `s`.
pub fn count(s: &str) -> (r: usize)
    ensures
        r == s@.len(),
{
    s.unicode_len()
}

/// `s` from the character position `from` on.
pub fn rest_of<'a>(s: &'a str, from: usize) -> (r: &'a str)
    requires
        from <= s@.len(),
    ensures
        r@ == s@.skip(from as int),
{
    let n: usize = s.unicode_len();
    assert(s@.subrange(from as int, n as int) =~= s@.skip(from as int));
    s.substring_char(from, n)
}

/// The first `to` characters of `s`.
pub fn start_of<'a>(s: &'a str, to: usize) -> (r: &'a str)
    requires
        to <= s@.len(),
    ensures
        r@ == s@.take(to as int),
{
    assert(s@.subrange(0, to as int) =~= s@.take(to as int));
    s.substring_char(0, to)
}

/// What follows the prefix `p` in `s`, where `s` begins with it.
pub fn after_prefix<'a>(s: &'a str, p: &str) -> (r: Option<&'a str>)
    ensures
        match r {
            Some(t) => p@.is_prefix_of(s@) && t@ == s@.skip(p@.len() as int),
            None => !p@.is_prefix_of(s@),
        },
{
    if has_prefix(s, p) {
        Some(rest_of(s, count(p)))
    } else {
        None
    }
}

/// The first position of `c` in `s`.
pub fn found_char(s: &str, c: char) -> (r: Option<usize>)
    ensures
        match r {
            Some(k) => find_char(s@, c) == Some(k as int) && k < s@.len(),
            None => find_char(s@, c) is None,
        },
        s@.len() <= usize::MAX,
{
    proof {
        find_char_found(s@, c);
    }
    let cs = chars_of(s);
    let n: usize = cs.len();
    let mut i: usize = 0;
    while i < n
        invariant
            i <= n == cs@.len(),
            cs@ == s@,
            forall|j: int| 0 <= j < i ==> s@[j] != c,
        decreases cs@.len() - i,
    {
        if cs[i] == c {
            proof {
                find_char_found(s@, c);
            }
            return Some(i);
        }
        i += 1;
    }
    None
}

/// The last position of `c` in `s`.
pub fn rfound_char(s: &str, c: char) -> (r: Option<usize>)
    ensures
        match r {
            Some(k) => rfind_char(s@, c) == Some(k as int) && k < s@.len(),
            None => rfind_char(s@, c) is None,
        },
{
    let cs = chars_of(s);
    let mut i: usize = cs.len();
    while i > 0
        invariant
            i <= cs@.len(),
            cs@ == s@,
            forall|j: int| i <= j < s@.len() ==> s@[j] != c,
        decreases i,
    {
        if cs[i - 1] == c {
            proof {
                rfind_char_found(s@, c);
            }
            return Some(i - 1);
        }
        i -= 1;
    }
    proof {
        rfind_char_found(s@, c);
    }
    None
}

/// Where the bracket stands that closes, seen from position `i` on, with
/// `depth` brackets open; `quoted` says whether position `i` is inside a JSON
/// string, where brackets do not count and a backslash takes the character
/// behind it along.
pub open spec fn closing(
    s: Seq<char>,
    open: char,
    close: char,
    i: int,
    depth: nat,
    quoted: bool,
) -> Option<int>
    decreases s.len() + 1 - i,
{
    if i < 0 || i >= s.len() {
        None
    } else if quoted {
        if s[i] == '\\' {
            closing(s, open, close, i + 2, depth, true)
        } else {
            closing(s, open, close, i + 1, depth, s[i] != '"')
        }
    } else if s[i] == '"' {
        closing(s, open, close, i + 1, depth, true)
    } else if s[i] == open {
        closing(s, open, close, i + 1, depth + 1, false)
    } else if s[i] == close {
        if depth <= 1 {
            Some(i)
        } else {
            closing(s, open, close, i + 1, (depth - 1) as nat, false)
        }
    } else {
        closing(s, open, close, i + 1, depth, false)
    }
}

/// The first bracketed part of a text: from its first `open` to the `close`
/// that belongs to it. Brackets inside JSON strings do not count.
pub open spec fn bracketed(s: Seq<char>, open: char, close: char) -> Option<Seq<char>> {
    match find_char(s, open) {
        Some(start) => match closing(s, open, close, start + 1, 1, false) {
            Some(end) => Some(s.subrange(start, end + 1)),
            None => None,
        },
        None => None,
    }
}

/// The first bracketed part of a text.
pub fn bracketed_of<'a>(s: &'a str, open: char, close: char) -> (r: Option<&'a str>)
    ensures
        match r {
            Some(t) => bracketed(s@, open, close) == Some(t@),
            None => bracketed(s@, open, close) is None,
        },
{
    let start: usize = match found_char(s, open) {
        Some(start) => start,
        None => {
            return None;
        },
    };
    let cs = chars_of(s);
    let n: usize = cs.len();
    let mut i: usize = start + 1;
    let mut depth: usize = 1;
    let mut quoted = false;
    while i < n
        invariant
            start < i,
            n == cs@.len(),
            cs@ == s@,
            depth <= i,
            find_char(s@, open) == Some(start as int),
            closing(s@, open, close, start + 1, 1, false) == closing(
                s@,
                open,
                close,
                i as int,
                depth as nat,
                quoted,
            ),
        decreases n - i,
    {
        let c = cs[i];
        if quoted {
            if c == '\\' {
                if n - i <= 2 {
                    assert(closing(s@, open, close, i + 2, depth as nat, true) is None);
                    return None;
                }
                i += 1;
            } else if c == '"' {
                quoted = false;
            }
        } else if c == '"' {
            quoted = true;
        } else if c == open {
            depth += 1;
        } else if c == close {
            if depth <= 1 {
                return Some(s.substring_char(start, i + 1));
            }
            depth -= 1;
        }
        i += 1;
    }
    None
}

proof fn closing_amid_prose(
    before: Seq<char>,
    s: Seq<char>,
    after: Seq<char>,
    open: char,
    close: char,
    i: int,
    depth: nat,
    quoted: bool,
)
    requires
        0 <= i,
        closing(s, open, close, i, depth, quoted) is Some,
    ensures
        ({
            let end = closing(s, open, close, i, depth, quoted)->0;
            &&& i <= end < s.len()
            &&& closing(before + s + after, open, close, before.len() + i, depth, quoted) == Some(
                before.len() + end,
            )
        }),
    decreases s.len() + 1 - i,
{
    let all = before + s + after;
    let k = before.len() + i;
    assert(all[k] == s[i]);
    if quoted {
        if s[i] == '\\' {
            closing_amid_prose(before, s, after, open, close, i + 2, depth, true);
        } else {
            closing_amid_prose(before, s, after, open, close, i + 1, depth, s[i] != '"');
        }
    } else if s[i] == '"' {
        closing_amid_prose(before, s, after, open, close, i + 1, depth, true);
    } else if s[i] == open {
        closing_amid_prose(before, s, after, open, close, i + 1, depth + 1, false);
    } else if s[i] == close {
        if depth > 1 {
            closing_amid_prose(before, s, after, open, close, i + 1, (depth - 1) as nat, false);
        }
    } else {
        closing_amid_prose(before, s, after, open, close, i + 1, depth, false);
    }
}

/// Prose around the first bracketed part of a text does not matter: neither
/// what stands before it, without an opening bracket, nor anything behind it.
pub proof fn prose_around_is_skipped(
    before: Seq<char>,
    s: Seq<char>,
    after: Seq<char>,
    open: char,
    close: char,
)
    requires
        forall|j: int| 0 <= j < before.len() ==> #[trigger] before[j] != open,
        bracketed(s, open, close) is Some,
    ensures
        bracketed(before + s + after, open, close) == bracketed(s, open, close),
{
    let all = before + s + after;
    find_char_found(s, open);
    find_char_found(all, open);
    let start = find_char(s, open)->0;
    assert(all[before.len() + start] == s[start]);
    let first = find_char(all, open)->0;
    assert(first == before.len() + start) by {
        if first < before.len() {
            assert(all[first] == before[first]);
        } else if first < before.len() + start {
            assert(all[first] == s[first - before.len()]);
        }
    }
    closing_amid_prose(before, s, after, open, close, start + 1, 1, false);
    let end = closing(s, open, close, start + 1, 1, false)->0;
    assert(all.subrange(first, before.len() + end + 1) =~= s.subrange(start, end + 1));
}

/// A number in decimal is read back.
pub proof fn decimal_reads_back(n: nat)
    ensures
        decimal(n).len() > 0,
        all_digits(decimal(n)),
        digits_value(decimal(n)) == n,
    decreases n,
{
    if n < 10 {
        let d = decimal(n);
        assert(d.drop_last() =~= Seq::empty());
        assert(d.last() == digit_char(n as int));
        assert(digits_value(Seq::empty()) == 0);
    } else {
        decimal_reads_back(n / 10);
        let d = decimal(n);
        assert(d.drop_last() =~= decimal(n / 10));
        assert forall|i: int| 0 <= i < d.len() implies is_digit(#[trigger] d[i]) by {
            if i < d.len() - 1 {
                assert(d[i] == decimal(n / 10)[i]);
            }
        }
    }
}

/// A digit is no whitespace, so a number in decimal has none around it.
pub proof fn decimal_is_trimmed(n: nat)
    ensures
        trim(decimal(n)) == decimal(n),
{
    decimal_reads_back(n);
    assert(is_digit(decimal(n)[0]));
    assert(is_digit(decimal(n)[decimal(n).len() - 1]));
}

/// Appending one string to a list appends its text.
pub proof fn texts_push(v: Seq<String>, s: String)
    ensures
        texts(v.push(s)) == texts(v).push(s@),
{
    assert(texts(v.push(s)) =~= texts(v).push(s@));
}

/// The lines of `s`.
pub fn lines_of(s: &str) -> (r: Vec<String>)
    ensures
        texts(r@) == lines(s@),
{
    let mut out: Vec<String> = Vec::new();
    let mut rest: &str = s;
    assert(texts(out@) + lines(s@) =~= lines(s@));
    while !rest.is_empty()
        invariant
            texts(out@) + lines(rest@) == lines(s@),
        decreases rest@.len(),
    {
        match found_char(rest, '\n') {
            None => {
                let last = rest.to_owned();
                proof {
                    texts_push(out@, last);
                    assert(lines(rest@) == seq![rest@]);
                    assert(texts(out@).push(rest@) =~= texts(out@) + seq![rest@]);
                }
                out.push(last);
                return out;
            },
            Some(k) => {
                let ghost before = texts(out@);
                let line = start_of(rest, k);
                let cs = chars_of(line);
                let line = if k > 0 && cs[k - 1] == '\r' {
                    start_of(line, k - 1).to_owned()
                } else {
                    line.to_owned()
                };
                assert(line@ == strip_cr(rest@.take(k as int))) by {
                    if k > 0 && rest@[k - 1] == '\r' {
                        assert(rest@.take(k as int).take(k - 1) =~= rest@.take(k as int).drop_last());
                    }
                }
                proof {
                    texts_push(out@, line);
                }
                let tail = rest_of(rest, k + 1);
                proof {
                    assert(before.push(line@) + lines(tail@) =~= before + (seq![line@] + lines(tail@)));
                }
                out.push(line);
                rest = tail;
            },
        }
    }
    assert(texts(out@) + lines(rest@) =~= texts(out@));
    out
}

/// The texts one after another with `sep` between neighbours.
pub fn joined(parts: &Vec<String>, sep: &str) -> (r: String)
    ensures
        r@ == join(texts(parts@), sep@),
{
    if parts.len() == 0 {
        return String::new();
    }
    let mut out = parts[0].clone();
    let mut i: usize = 1;
    assert(texts(parts@).take(1) =~= seq![parts@[0]@]);
    while i < parts.len()
        invariant
            1 <= i <= parts@.len(),
            out@ == join(texts(parts@).take(i as int), sep@),
        decreases parts@.len() - i,
    {
        out.append(sep);
        out.append(parts[i].as_str());
        proof {
            let t = texts(parts@).take(i + 1);
            assert(t.drop_last() =~= texts(parts@).take(i as int));
            assert(t.last() == parts@[i as int]@);
        }
        i += 1;
    }
    assert(texts(parts@).take(i as int) =~= texts(parts@));
    out
}

/// The first `n` characters of `s`, or all of it.
pub fn clipped<'a>(s: &'a str, n: usize) -> (r: &'a str)
    ensures
        r@ == first_chars(s@, n as int),
{
    if count(s) <= n {
        s
    } else {
        start_of(s, n)
    }
}

/// `n` written in decimal.
pub fn decimal_of(n: u64) -> (r: String)
    ensures
        r@ == decimal(n as nat),
    decreases n,
{
    let d: u64 = n % 10;
    let c = if d == 0 { '0' } else if d == 1 { '1' } else if d == 2 { '2' } else if d == 3 { '3' }
        else if d == 4 { '4' } else if d == 5 { '5' } else if d == 6 { '6' } else if d == 7 { '7' }
        else if d == 8 { '8' } else { '9' };
    if n < 10 {
        let mut r = String::new();
        r.push(c);
        assert(Seq::<char>::empty().push(c) =~= seq![c]);
        r
    } else {
        let mut r = decimal_of(n / 10);
        r.push(c);
        r
    }
}

/// The number up to `max` that `s` writes, if it writes one.
pub fn number_in(s: &str, max: u64) -> (r: Option<u64>)
    ensures
        match r {
            Some(n) => parse_number(s@, max as nat) == Some(n as nat),
            None => parse_number(s@, max as nat) is None,
        },
{
    let cs = chars_of(s);
    let start: usize = if cs.len() > 0 && cs[0] == '+' { 1 } else { 0 };
    let ghost digits = if s@.len() > 0 && s@[0] == '+' { s@.skip(1) } else { s@ };
    assert(digits =~= s@.skip(start as int));
    if start == cs.len() {
        return None;
    }
    let mut i: usize = start;
    let mut value: u64 = 0;
    let mut over: bool = false;
    assert(digits.take(0) =~= Seq::<char>::empty());
    while i < cs.len()
        invariant
            start <= i <= cs@.len(),
            start == 0 || start == 1,
            cs@ == s@,
            digits == s@.skip(start as int),
            digits == (if s@.len() > 0 && s@[0] == '+' { s@.skip(1) } else { s@ }),
            forall|j: int| 0 <= j < i - start ==> is_digit(#[trigger] digits[j]),
            !over ==> value == digits_value(digits.take(i - start)) && value <= max,
            over ==> digits_value(digits.take(i - start)) > max,
        decreases cs@.len() - i,
    {
        let c = cs[i];
        assert(digits[i - start] == c);
        if c < '0' || c > '9' {
            assert(!is_digit(digits[i - start]) && !all_digits(digits));
            return None;
        }
        let d: u64 = (c as u32 - '0' as u32) as u64;
        proof {
            let t = digits.take(i - start + 1);
            assert(t.drop_last() =~= digits.take(i - start));
            assert(t.last() == c);
        }
        if !over {
            match value.checked_mul(10) {
                Some(v) => match v.checked_add(d) {
                    Some(w) => {
                        if w > max {
                            over = true;
                        } else {
                            value = w;
                        }
                    },
                    None => {
                        over = true;
                    },
                },
                None => {
                    over = true;
                },
            }
        }
        i += 1;
    }
    assert(digits.take(i - start) =~= digits);
    if over {
        None
    } else {
        Some(value)
    }
}

/// `s` with the ASCII letters in upper case.
pub fn upper_of(s: &str) -> (r: String)
    ensures
        r@ == ascii_upper(s@),
{
    let cs = chars_of(s);
    let mut out = String::new();
    let mut i: usize = 0;
    while i < cs.len()
        invariant
            i <= cs@.len(),
            cs@ == s@,
            out@ == ascii_upper(s@).take(i as int),
        decreases cs@.len() - i,
    {
        let c = cs[i];
        let u = if 'a' <= c && c <= 'z' { (c as u8 - 32) as char } else { c };
        assert(u == upper_char(c));
        out.push(u);
        assert(ascii_upper(s@).take(i as int).push(u) =~= ascii_upper(s@).take(i + 1));
        i += 1;
    }
    assert(ascii_upper(s@).take(i as int) =~= ascii_upper(s@));
    out
}

/// `s` with every occurrence of `from` replaced by `to`.
pub fn replaced(s: &str, from: &str, to: &str) -> (r: String)
    requires
        from@.len() > 0,
    ensures
        r@ == replace_all(s@, from@, to@),
{
    let mut out = String::new();
    let mut rest: &str = s;
    assert(out@ + replace_all(rest@, from@, to@) =~= replace_all(s@, from@, to@));
    loop
        invariant
            from@.len() > 0,
            out@ + replace_all(rest@, from@, to@) == replace_all(s@, from@, to@),
        decreases rest@.len(),
    {
        match found(rest, from) {
            None => {
                out.append(rest);
                return out;
            },
            Some(k) => {
                let ghost before = out@;
                let head = start_of(rest, k);
                let tail = rest_of(rest, k + count(from));
                out.append(head);
                out.append(to);
                proof {
                    let r = replace_all(tail@, from@, to@);
                    assert(before + head@ + to@ + r =~= before + (head@ + to@ + r));
                }
                rest = tail;
            },
        }
    }
}

/// Whether `a` comes before `b` in code point order, or is the same text.
pub fn not_after(a: &str, b: &str) -> (r: bool)
    ensures
        r == text_le(a@, b@),
{
    let xs = chars_of(a);
    let ys = chars_of(b);
    let mut i: usize = 0;
    assert(a@.skip(0) =~= a@);
    assert(b@.skip(0) =~= b@);
    while i < xs.len()
        invariant
            i <= xs@.len(),
            i <= ys@.len(),
            xs@ == a@,
            ys@ == b@,
            text_le(a@, b@) == text_le(a@.skip(i as int), b@.skip(i as int)),
        decreases xs@.len() - i,
    {
        if i == ys.len() {
            return false;
        }
        if xs[i] != ys[i] {
            return xs[i] < ys[i];
        }
        assert(a@.skip(i as int).skip(1) =~= a@.skip(i + 1));
        assert(b@.skip(i as int).skip(1) =~= b@.skip(i + 1));
        i += 1;
    }
    true
}

} // verus!
