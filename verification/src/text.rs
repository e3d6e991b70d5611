//! Character-level helpers on strings. Every function states its result over the
//! sequence of characters that the string holds.

use vstd::prelude::*;

verus! {

/// `String::push` of std appends one character to the end of the string.
pub assume_specification[ String::push ](s: &mut String, c: char)
    ensures
        final(s)@ == old(s)@.push(c),
;

/// The characters of `s`, in order.
pub fn chars_of(s: &str) -> (v: Vec<char>)
    ensures
        v@ == s@,
{
    let mut v: Vec<char> = Vec::new();
    let chars = s.chars();
    for c in it: chars
        invariant
            it.seq() == s@,
            v@ == s@.take(it.index()),
    {
        v.push(c);
    }
    v
}

/// The string made of the characters `v[from..to]`.
pub fn string_of_range(v: &Vec<char>, from: usize, to: usize) -> (s: String)
    requires
        from <= to <= v.len(),
    ensures
        s@ == v@.subrange(from as int, to as int),
{
    let mut s = String::new();
    let mut i: usize = from;
    while i < to
        invariant
            from <= i <= to <= v.len(),
            s@ == v@.subrange(from as int, i as int),
        decreases to - i,
    {
        s.push(v[i]);
        i += 1;
        assert(v@.subrange(from as int, i as int) == v@.subrange(from as int, i - 1).push(
            v@[i - 1],
        ));
    }
    s
}

/// The string made of the characters of `v`, in order.
pub fn string_of(v: &Vec<char>) -> (s: String)
    ensures
        s@ == v@,
{
    let s = string_of_range(v, 0, v.len());
    assert(v@.subrange(0, v.len() as int) == v@);
    s
}

/// The text of an optional string.
pub open spec fn opt_text(o: Option<String>) -> Option<Seq<char>> {
    match o {
        Some(s) => Some(s@),
        None => None,
    }
}

/// The texts of a list of strings.
pub open spec fn texts(v: Seq<String>) -> Seq<Seq<char>> {
    Seq::new(v.len(), |i: int| v[i]@)
}

/// The texts of an optional list of strings.
pub open spec fn opt_texts(o: Option<Vec<String>>) -> Option<Seq<Seq<char>>> {
    match o {
        Some(v) => Some(texts(v@)),
        None => None,
    }
}

/// A copy of an optional string.
pub fn copy_opt_text(o: &Option<String>) -> (copy: Option<String>)
    ensures
        opt_text(copy) == opt_text(*o),
{
    match o {
        Some(s) => Some(s.clone()),
        None => None,
    }
}

/// A copy of a list of strings.
pub fn copy_texts(v: &Vec<String>) -> (copy: Vec<String>)
    ensures
        texts(copy@) == texts(v@),
{
    let mut out: Vec<String> = Vec::new();
    let mut i: usize = 0;
    while i < v.len()
        invariant
            i <= v.len(),
            out@.len() == i,
            forall|k: int| 0 <= k < i ==> (#[trigger] out@[k])@ == v@[k]@,
        decreases v.len() - i,
    {
        out.push(v[i].clone());
        i += 1;
    }
    assert(texts(out@) =~= texts(v@));
    out
}

/// A copy of an optional list of strings.
pub fn copy_opt_texts(o: &Option<Vec<String>>) -> (copy: Option<Vec<String>>)
    ensures
        opt_texts(copy) == opt_texts(*o),
{
    match o {
        Some(v) => Some(copy_texts(v)),
        None => None,
    }
}

/// Whether two strings hold the same characters.
pub fn str_equal(a: &str, b: &str) -> (same: bool)
    ensures
        same == (a@ == b@),
{
    let left = String::from_str(a);
    let right = String::from_str(b);
    left == right
}

/// `a` followed by `b`.
pub fn join_two(a: &str, b: &str) -> (s: String)
    ensures
        s@ == a@ + b@,
{
    let mut s = String::from_str(a);
    s.append(b);
    s
}

/// `a`, then `b`, then `c`.
pub fn join_three(a: &str, b: &str, c: &str) -> (s: String)
    ensures
        s@ == a@ + b@ + c@,
{
    let mut s = String::from_str(a);
    s.append(b);
    s.append(c);
    s
}

/// Whether `prefix` stands at position `at` of `s`.
pub open spec fn occurs_at(s: Seq<char>, prefix: Seq<char>, at: int) -> bool {
    &&& 0 <= at
    &&& at + prefix.len() <= s.len()
    &&& s.subrange(at, at + prefix.len()) == prefix
}

/// Whether `s` begins with `prefix`.
pub open spec fn has_prefix(s: Seq<char>, prefix: Seq<char>) -> bool {
    occurs_at(s, prefix, 0)
}

/// Tests whether `needle` stands at position `at` of `s`.
pub fn matches_at(s: &Vec<char>, needle: &Vec<char>, at: usize) -> (found: bool)
    ensures
        found == occurs_at(s@, needle@, at as int),
{
    if at > s.len() || needle.len() > s.len() - at {
        return false;
    }
    let mut i: usize = 0;
    while i < needle.len()
        invariant
            at + needle.len() <= s.len(),
            i <= needle.len(),
            forall|k: int| 0 <= k < i ==> s@[at + k] == needle@[k],
        decreases needle.len() - i,
    {
        if s[at + i] != needle[i] {
            assert(s@.subrange(at as int, at + needle.len())[i as int] != needle@[i as int]);
            return false;
        }
        i += 1;
    }
    assert(s@.subrange(at as int, at + needle.len()) =~= needle@);
    true
}

/// The first position at or after `from` where `needle` stands in `s`, if any.
pub open spec fn first_occurrence(s: Seq<char>, needle: Seq<char>, from: int) -> Option<int>
    decreases s.len() - from + 1,
{
    if from < 0 || from + needle.len() > s.len() {
        None
    } else if occurs_at(s, needle, from) {
        Some(from)
    } else {
        first_occurrence(s, needle, from + 1)
    }
}

/// Searches `s` for `needle`, starting at `from`.
pub fn find_from(s: &Vec<char>, needle: &Vec<char>, from: usize) -> (found: Option<usize>)
    ensures
        match found {
            Some(at) => first_occurrence(s@, needle@, from as int) == Some(at as int) && from
                <= at && occurs_at(s@, needle@, at as int),
            None => first_occurrence(s@, needle@, from as int) is None,
        },
{
    let mut i: usize = from;
    while i <= s.len() && needle.len() <= s.len() - i
        invariant
            from <= i,
            first_occurrence(s@, needle@, from as int) == first_occurrence(
                s@,
                needle@,
                i as int,
            ),
        decreases s.len() - i,
    {
        if matches_at(s, needle, i) {
            return Some(i);
        }
        proof {
            if i == s.len() {
                assert(s@.subrange(i as int, i + needle.len()) =~= needle@);
            }
        }
        i += 1;
    }
    None
}

/// Whether the character `c` occurs in `s`.
pub fn contains_char(s: &Vec<char>, c: char) -> (found: bool)
    ensures
        found == s@.contains(c),
{
    let mut i: usize = 0;
    while i < s.len()
        invariant
            i <= s.len(),
            forall|k: int| 0 <= k < i ==> s@[k] != c,
        decreases s.len() - i,
    {
        if s[i] == c {
            return true;
        }
        i += 1;
    }
    false
}

/// The number of leading characters of `s` that equal `c`.
pub open spec fn leading_run(s: Seq<char>, c: char) -> nat
    decreases s.len(),
{
    if s.len() > 0 && s[0] == c {
        1 + leading_run(s.drop_first(), c)
    } else {
        0
    }
}

/// The number of trailing characters of `s` that equal `c`.
pub open spec fn trailing_run(s: Seq<char>, c: char) -> nat
    decreases s.len(),
{
    if s.len() > 0 && s.last() == c {
        1 + trailing_run(s.drop_last(), c)
    } else {
        0
    }
}

/// `s` without its leading run of `c`.
pub open spec fn without_leading(s: Seq<char>, c: char) -> Seq<char> {
    s.skip(leading_run(s, c) as int)
}

/// `s` without its trailing run of `c`.
pub open spec fn without_trailing(s: Seq<char>, c: char) -> Seq<char> {
    s.take(s.len() - trailing_run(s, c))
}

proof fn lemma_leading_run_step(s: Seq<char>, c: char, i: int)
    requires
        0 <= i <= s.len(),
        forall|k: int| 0 <= k < i ==> s[k] == c,
    ensures
        leading_run(s, c) == i + leading_run(s.skip(i), c),
    decreases i,
{
    if i > 0 {
        let rest = s.drop_first();
        assert forall|k: int| 0 <= k < i - 1 implies rest[k] == c by {
            assert(rest[k] == s[k + 1]);
        }
        lemma_leading_run_step(rest, c, i - 1);
        assert(rest.skip(i - 1) =~= s.skip(i));
    } else {
        assert(s.skip(0) =~= s);
    }
}

proof fn lemma_trailing_run_step(s: Seq<char>, c: char, n: int)
    requires
        0 <= n <= s.len(),
        forall|k: int| n <= k < s.len() ==> s[k] == c,
    ensures
        trailing_run(s, c) == (s.len() - n) + trailing_run(s.take(n), c),
    decreases s.len() - n,
{
    if n < s.len() {
        let rest = s.drop_last();
        lemma_trailing_run_step(rest, c, n);
        assert(rest.take(n) =~= s.take(n));
    } else {
        assert(s.take(n) =~= s);
    }
}

/// Removes every leading `c` from `s`.
pub fn trim_start_char(s: &str, c: char) -> (trimmed: String)
    ensures
        trimmed@ == without_leading(s@, c),
{
    let chars = chars_of(s);
    let mut i: usize = 0;
    while i < chars.len() && chars[i] == c
        invariant
            i <= chars.len(),
            forall|k: int| 0 <= k < i ==> chars@[k] == c,
        decreases chars.len() - i,
    {
        i += 1;
    }
    proof {
        lemma_leading_run_step(chars@, c, i as int);
    }
    string_of_range(&chars, i, chars.len())
}

/// Removes every trailing `c` from `s`.
pub fn trim_end_char(s: &str, c: char) -> (trimmed: String)
    ensures
        trimmed@ == without_trailing(s@, c),
{
    let chars = chars_of(s);
    let mut n: usize = chars.len();
    while n > 0 && chars[n - 1] == c
        invariant
            n <= chars.len(),
            forall|k: int| n <= k < chars.len() ==> chars@[k] == c,
        decreases n,
    {
        n -= 1;
    }
    proof {
        lemma_trailing_run_step(chars@, c, n as int);
    }
    string_of_range(&chars, 0, n)
}

/// `s` with every backslash doubled.
pub open spec fn escape_backslashes(s: Seq<char>) -> Seq<char>
    decreases s.len(),
{
    if s.len() == 0 {
        Seq::empty()
    } else if s.last() == '\\' {
        escape_backslashes(s.drop_last()).push('\\').push('\\')
    } else {
        escape_backslashes(s.drop_last()).push(s.last())
    }
}

/// Doubles every backslash of `s`, so that the text can stand inside a quoted
/// script literal.
pub fn escape_path(s: &str) -> (escaped: String)
    ensures
        escaped@ == escape_backslashes(s@),
{
    let chars = chars_of(s);
    let mut out = String::new();
    let mut i: usize = 0;
    while i < chars.len()
        invariant
            i <= chars.len(),
            out@ == escape_backslashes(chars@.take(i as int)),
        decreases chars.len() - i,
    {
        let c = chars[i];
        proof {
            let next = chars@.take(i + 1);
            assert(next.drop_last() =~= chars@.take(i as int));
            assert(next.last() == c);
        }
        if c == '\\' {
            out.push('\\');
            out.push('\\');
        } else {
            out.push(c);
        }
        i += 1;
    }
    assert(chars@.take(chars.len() as int) =~= chars@);
    out
}

/// Whether a character has the Unicode property `White_Space`: the controls
/// from tab to carriage return, the blank, next line, the no-break blank, the
/// Ogham space mark, the blanks from en quad to hair space, the line and the
/// paragraph separator, the narrow no-break blank, the medium mathematical
/// blank and the ideographic blank.
pub open spec fn white_space(c: char) -> bool {
    let u = c as u32;
    ||| 0x09 <= u <= 0x0d
    ||| u == 0x20
    ||| u == 0x85
    ||| u == 0xa0
    ||| u == 0x1680
    ||| 0x2000 <= u <= 0x200a
    ||| u == 0x2028
    ||| u == 0x2029
    ||| u == 0x202f
    ||| u == 0x205f
    ||| u == 0x3000
}

/// `char::is_whitespace` of std: whether the character has the Unicode
/// property `White_Space`, which [`white_space`] lists.
#[verifier::external_body]
fn is_white_space(c: char) -> (white: bool)
    ensures
        white == white_space(c),
{
    c.is_whitespace()
}

/// The number of leading white-space characters of `s`.
pub open spec fn leading_blank(s: Seq<char>) -> nat
    decreases s.len(),
{
    if s.len() > 0 && white_space(s[0]) {
        1 + leading_blank(s.drop_first())
    } else {
        0
    }
}

/// The number of trailing white-space characters of `s`.
pub open spec fn trailing_blank(s: Seq<char>) -> nat
    decreases s.len(),
{
    if s.len() > 0 && white_space(s.last()) {
        1 + trailing_blank(s.drop_last())
    } else {
        0
    }
}

/// `s` without white space at either end.
pub open spec fn trimmed(s: Seq<char>) -> Seq<char> {
    let tail = s.skip(leading_blank(s) as int);
    tail.take(tail.len() - trailing_blank(tail))
}

proof fn lemma_leading_blank_step(s: Seq<char>, i: int)
    requires
        0 <= i <= s.len(),
        forall|k: int| 0 <= k < i ==> white_space(s[k]),
    ensures
        leading_blank(s) == i + leading_blank(s.skip(i)),
    decreases i,
{
    if i > 0 {
        let rest = s.drop_first();
        assert forall|k: int| 0 <= k < i - 1 implies white_space(rest[k]) by {
            assert(rest[k] == s[k + 1]);
        }
        lemma_leading_blank_step(rest, i - 1);
        assert(rest.skip(i - 1) =~= s.skip(i));
    } else {
        assert(s.skip(0) =~= s);
    }
}

proof fn lemma_trailing_blank_step(s: Seq<char>, n: int)
    requires
        0 <= n <= s.len(),
        forall|k: int| n <= k < s.len() ==> white_space(s[k]),
    ensures
        trailing_blank(s) == (s.len() - n) + trailing_blank(s.take(n)),
    decreases s.len() - n,
{
    if n < s.len() {
        let rest = s.drop_last();
        lemma_trailing_blank_step(rest, n);
        assert(rest.take(n) =~= s.take(n));
    } else {
        assert(s.take(n) =~= s);
    }
}

/// A text that neither begins nor ends with white space is its own trimmed
/// form, and so is the empty text.
pub proof fn lemma_trimmed_unchanged(s: Seq<char>)
    requires
        s.len() > 0 ==> !white_space(s[0]) && !white_space(s.last()),
    ensures
        trimmed(s) == s,
{
    assert(s.skip(0) =~= s);
    assert(s.take(s.len() as int) =~= s);
}

/// The characters `v[from..to]` without white space at either end.
pub fn trim_range(v: &Vec<char>, from: usize, to: usize) -> (out: String)
    requires
        from <= to <= v.len(),
    ensures
        out@ == trimmed(v@.subrange(from as int, to as int)),
{
    let ghost s = v@.subrange(from as int, to as int);
    let mut i: usize = from;
    while i < to && is_white_space(v[i])
        invariant
            from <= i <= to <= v.len(),
            s == v@.subrange(from as int, to as int),
            forall|k: int| 0 <= k < i - from ==> white_space(s[k]),
        decreases to - i,
    {
        i += 1;
    }
    let ghost tail = s.skip(i - from);
    proof {
        lemma_leading_blank_step(s, i - from);
        if i < to {
            assert(tail[0] == v@[i as int]);
        }
        assert(tail =~= v@.subrange(i as int, to as int));
    }
    let mut n: usize = to;
    while n > i && is_white_space(v[n - 1])
        invariant
            i <= n <= to <= v.len(),
            tail == v@.subrange(i as int, to as int),
            forall|k: int| n - i <= k < tail.len() ==> white_space(tail[k]),
        decreases n,
    {
        n -= 1;
    }
    proof {
        lemma_trailing_blank_step(tail, n - i);
        let head = tail.take(n - i);
        if n > i {
            assert(head.last() == v@[n - 1]);
        }
        assert(head =~= v@.subrange(i as int, n as int));
    }
    string_of_range(v, i, n)
}

/// `s` without white space at either end.
pub fn trim(s: &str) -> (out: String)
    ensures
        out@ == trimmed(s@),
{
    let chars = chars_of(s);
    assert(chars@.subrange(0, chars.len() as int) =~= chars@);
    trim_range(&chars, 0, chars.len())
}

/// The position of the first `c` in `s`, or the length of `s` where `c` does
/// not occur.
pub open spec fn position_of(s: Seq<char>, c: char) -> nat
    decreases s.len(),
{
    if s.len() == 0 || s[0] == c {
        0
    } else {
        1 + position_of(s.drop_first(), c)
    }
}

proof fn lemma_position_step(s: Seq<char>, c: char, i: int)
    requires
        0 <= i <= s.len(),
        forall|k: int| 0 <= k < i ==> s[k] != c,
    ensures
        position_of(s, c) == i + position_of(s.skip(i), c),
    decreases i,
{
    if i > 0 {
        let rest = s.drop_first();
        assert forall|k: int| 0 <= k < i - 1 implies rest[k] != c by {
            assert(rest[k] == s[k + 1]);
        }
        lemma_position_step(rest, c, i - 1);
        assert(rest.skip(i - 1) =~= s.skip(i));
    } else {
        assert(s.skip(0) =~= s);
    }
}

/// Finds the first `c` in `s`.
pub fn find_char(s: &Vec<char>, c: char) -> (at: usize)
    ensures
        at == position_of(s@, c),
        at <= s.len(),
{
    let mut i: usize = 0;
    while i < s.len() && s[i] != c
        invariant
            i <= s.len(),
            forall|k: int| 0 <= k < i ==> s@[k] != c,
        decreases s.len() - i,
    {
        i += 1;
    }
    proof {
        lemma_position_step(s@, c, i as int);
        if i < s.len() {
            assert(s@.skip(i as int)[0] == c);
        }
    }
    i
}

/// The decimal digits of `n`, without leading zeros.
pub open spec fn decimal(n: nat) -> Seq<char>
    decreases n,
{
    if n < 10 {
        seq![digit(n)]
    } else {
        decimal(n / 10).push(digit(n % 10))
    }
}

/// The character for a digit below ten.
pub open spec fn digit(d: nat) -> char {
    if d == 0 {
        '0'
    } else if d == 1 {
        '1'
    } else if d == 2 {
        '2'
    } else if d == 3 {
        '3'
    } else if d == 4 {
        '4'
    } else if d == 5 {
        '5'
    } else if d == 6 {
        '6'
    } else if d == 7 {
        '7'
    } else if d == 8 {
        '8'
    } else {
        '9'
    }
}

/// Different digits have different characters.
proof fn lemma_digit_injective(x: nat, y: nat)
    requires
        x < 10,
        y < 10,
        digit(x) == digit(y),
    ensures
        x == y,
{
}

/// Different numbers have different decimal digits.
pub proof fn lemma_decimal_injective(a: nat, b: nat)
    requires
        decimal(a) == decimal(b),
    ensures
        a == b,
    decreases a,
{
    if a < 10 && b < 10 {
        assert(decimal(a)[0] == digit(a));
        assert(decimal(b)[0] == digit(b));
        lemma_digit_injective(a, b);
    } else if a < 10 {
        assert(decimal(a).len() == 1);
        lemma_decimal_len(b / 10);
        assert(decimal(b).len() == decimal(b / 10).len() + 1);
    } else if b < 10 {
        assert(decimal(b).len() == 1);
        lemma_decimal_len(a / 10);
        assert(decimal(a).len() == decimal(a / 10).len() + 1);
    } else {
        let da = decimal(a / 10);
        let db = decimal(b / 10);
        assert(decimal(a) == da.push(digit(a % 10)));
        assert(decimal(b) == db.push(digit(b % 10)));
        assert(da.push(digit(a % 10)).last() == digit(a % 10));
        assert(db.push(digit(b % 10)).last() == digit(b % 10));
        assert(da.push(digit(a % 10)).drop_last() =~= da);
        assert(db.push(digit(b % 10)).drop_last() =~= db);
        lemma_decimal_injective(a / 10, b / 10);
        lemma_digit_injective(a % 10, b % 10);
        assert(a == 10 * (a / 10) + a % 10);
        assert(b == 10 * (b / 10) + b % 10);
    }
}

/// The decimal digits of a number are at least one.
pub proof fn lemma_decimal_len(n: nat)
    ensures
        decimal(n).len() >= 1,
    decreases n,
{
    if n >= 10 {
        lemma_decimal_len(n / 10);
    }
}

/// The character for a digit below ten.
fn digit_char(d: u64) -> (c: char)
    requires
        d < 10,
    ensures
        c == digit(d as nat),
{
    if d == 0 {
        '0'
    } else if d == 1 {
        '1'
    } else if d == 2 {
        '2'
    } else if d == 3 {
        '3'
    } else if d == 4 {
        '4'
    } else if d == 5 {
        '5'
    } else if d == 6 {
        '6'
    } else if d == 7 {
        '7'
    } else if d == 8 {
        '8'
    } else {
        '9'
    }
}

/// The decimal digits of `n`.
pub fn decimal_string(n: u64) -> (s: String)
    ensures
        s@ == decimal(n as nat),
    decreases n,
{
    if n < 10 {
        let mut s = String::new();
        s.push(digit_char(n));
        assert(s@ =~= seq![digit(n as nat)]);
        s
    } else {
        let mut s = decimal_string(n / 10);
        s.push(digit_char(n % 10));
        s
    }
}

/// Finds the first `c` in `s` at or after `from`.
pub fn find_char_from(s: &Vec<char>, from: usize, c: char) -> (at: usize)
    requires
        from <= s.len(),
    ensures
        at == from + position_of(s@.skip(from as int), c),
        from <= at <= s.len(),
{
    let ghost tail = s@.skip(from as int);
    let mut i: usize = from;
    while i < s.len() && s[i] != c
        invariant
            from <= i <= s.len(),
            tail == s@.skip(from as int),
            forall|k: int| 0 <= k < i - from ==> tail[k] != c,
        decreases s.len() - i,
    {
        i += 1;
    }
    proof {
        lemma_position_step(tail, c, i - from);
        if i < s.len() {
            assert(tail.skip(i - from)[0] == c);
        }
    }
    i
}

/// What follows `prefix` in `s`, where `s` begins with `prefix`.
pub open spec fn after_prefix(s: Seq<char>, prefix: Seq<char>) -> Option<Seq<char>> {
    if has_prefix(s, prefix) {
        Some(s.skip(prefix.len() as int))
    } else {
        None
    }
}

/// Removes `prefix` from the start of `s`.
pub fn strip_prefix(s: &str, prefix: &str) -> (rest: Option<String>)
    ensures
        opt_text(rest) == after_prefix(s@, prefix@),
{
    let chars = chars_of(s);
    let wanted = chars_of(prefix);
    if matches_at(&chars, &wanted, 0) {
        assert(chars@.subrange(wanted.len() as int, chars.len() as int) =~= chars@.skip(
            wanted.len() as int,
        ));
        Some(string_of_range(&chars, wanted.len(), chars.len()))
    } else {
        None
    }
}

} // verus!
