//! Text, as the sequence of characters that it holds.
//!
//! Every function here works on whole characters, so positions count characters, never bytes.

use vstd::prelude::*;
use vstd::string::*;

verus! {

/// The characters of `s`, in order.
pub fn to_chars(s: &str) -> (r: Vec<char>)
    ensures
        r@ == s@,
{
    let mut r: Vec<char> = Vec::new();
    let it = s.chars();
    for c in iter: it
        invariant
            iter.seq() == s@,
            r@ == s@.take(iter.index() as int),
    {
        r.push(c);
    }
    r
}

/// Whether `a` and `b` hold the same characters.
pub fn same_text(a: &str, b: &str) -> (r: bool)
    ensures
        r == (a@ == b@),
{
    a.to_owned() == b.to_owned()
}

/// `a` followed by `b`.
pub fn concat2(a: &str, b: &str) -> (r: String)
    ensures
        r@ == a@ + b@,
{
    a.to_owned().concat(b)
}

/// `a`, `b` and `c`, one after the other.
pub fn concat3(a: &str, b: &str, c: &str) -> (r: String)
    ensures
        r@ == a@ + b@ + c@,
{
    a.to_owned().concat(b).concat(c)
}

/// The text that an absent value stands for.
pub open spec fn opt_view(s: Option<String>) -> Option<Seq<char>> {
    match s {
        Some(t) => Some(t@),
        None => None,
    }
}

/// The text that an absent value stands for, for borrowed text.
pub open spec fn opt_str_view(s: Option<&str>) -> Option<Seq<char>> {
    match s {
        Some(t) => Some(t@),
        None => None,
    }
}

/// Borrows the text of an optional string.
pub fn as_opt_str(s: &Option<String>) -> (r: Option<&str>)
    ensures
        opt_str_view(r) == opt_view(*s),
{
    match s {
        Some(t) => Some(t.as_str()),
        None => None,
    }
}

/// A copy of an optional string.
pub fn clone_opt(s: &Option<String>) -> (r: Option<String>)
    ensures
        r == *s,
{
    match s {
        Some(t) => Some(t.clone()),
        None => None,
    }
}

/// Whether two optional strings agree: both absent, or both present with the same characters.
pub fn same_opt(a: &Option<String>, b: &Option<String>) -> (r: bool)
    ensures
        r == (opt_view(*a) == opt_view(*b)),
{
    match (a, b) {
        (Some(x), Some(y)) => same_text(x.as_str(), y.as_str()),
        (None, None) => true,
        _ => false,
    }
}

/// The texts of a list of strings.
pub open spec fn texts(v: Seq<String>) -> Seq<Seq<char>> {
    v.map_values(|s: String| s@)
}

/// Whether `s` begins with `prefix`.
pub fn starts_with(s: &str, prefix: &str) -> (r: bool)
    ensures
        r == prefix@.is_prefix_of(s@),
{
    let n = prefix.unicode_len();
    if s.unicode_len() < n {
        return false;
    }
    same_text(s.substring_char(0, n), prefix)
}

/// Whether `s` ends with `suffix`.
pub fn ends_with(s: &str, suffix: &str) -> (r: bool)
    ensures
        r == suffix@.is_suffix_of(s@),
{
    let n = suffix.unicode_len();
    let m = s.unicode_len();
    if m < n {
        return false;
    }
    same_text(s.substring_char(m - n, m), suffix)
}

/// `s` without `suffix` at its end, if it ends with it.
pub fn strip_suffix(s: &str, suffix: &str) -> (r: Option<String>)
    ensures
        r is Some <==> suffix@.is_suffix_of(s@),
        r is Some ==> r->0@ + suffix@ == s@,
{
    if ends_with(s, suffix) {
        let end = s.unicode_len() - suffix.unicode_len();
        let r = s.substring_char(0, end).to_owned();
        assert(r@ + suffix@ =~= s@);
        Some(r)
    } else {
        None
    }
}

/// Whether `needle` occurs in `hay` at position `i`.
pub open spec fn occurs_at<A>(hay: Seq<A>, needle: Seq<A>, i: int) -> bool {
    0 <= i && i + needle.len() <= hay.len() && hay.subrange(i, i + needle.len()) == needle
}

/// Whether `needle` occurs in `hay`.
pub open spec fn occurs<A>(hay: Seq<A>, needle: Seq<A>) -> bool {
    exists|i: int| occurs_at(hay, needle, i)
}

/// Whether `needle` occurs in `s`.
pub fn contains(s: &str, needle: &str) -> (r: bool)
    ensures
        r == occurs(s@, needle@),
{
    let n = needle.unicode_len();
    let m = s.unicode_len();
    if m < n {
        return false;
    }
    let mut i: usize = 0;
    while i <= m - n
        invariant
            n == needle@.len(),
            m == s@.len(),
            n <= m,
            i <= m - n + 1,
            forall|j: int| 0 <= j < i ==> !occurs_at(s@, needle@, j),
        decreases m - n + 1 - i,
    {
        if same_text(s.substring_char(i, i + n), needle) {
            assert(occurs_at(s@, needle@, i as int));
            return true;
        }
        if i == m - n {
            assert forall|j: int| !occurs_at(s@, needle@, j) by {}
            return false;
        }
        i += 1;
    }
    false
}

/// The white space characters of Unicode, which `str::trim` removes.
pub open spec fn is_space(c: char) -> bool {
    let n = c as u32;
    ||| 0x09 <= n <= 0x0d
    ||| n == 0x20
    ||| n == 0x85
    ||| n == 0xa0
    ||| n == 0x1680
    ||| 0x2000 <= n <= 0x200a
    ||| n == 0x2028
    ||| n == 0x2029
    ||| n == 0x202f
    ||| n == 0x205f
    ||| n == 0x3000
}

/// Whether `c` is white space.
pub fn char_is_space(c: char) -> (r: bool)
    ensures
        r == is_space(c),
{
    let n: u32 = c as u32;
    (0x09 <= n && n <= 0x0d) || n == 0x20 || n == 0x85 || n == 0xa0 || n == 0x1680 || (0x2000 <= n
        && n <= 0x200a) || n == 0x2028 || n == 0x2029 || n == 0x202f || n == 0x205f || n == 0x3000
}

/// `s` without the white space at its end.
pub open spec fn trimmed_end(s: Seq<char>) -> Seq<char>
    decreases s.len(),
{
    if s.len() > 0 && is_space(s.last()) {
        trimmed_end(s.drop_last())
    } else {
        s
    }
}

/// `s` without the white space at its beginning.
pub open spec fn trimmed_start(s: Seq<char>) -> Seq<char>
    decreases s.len(),
{
    if s.len() > 0 && is_space(s[0]) {
        trimmed_start(s.drop_first())
    } else {
        s
    }
}

/// `s` without the white space at either end.
pub open spec fn trimmed(s: Seq<char>) -> Seq<char> {
    trimmed_start(trimmed_end(s))
}

/// Removes the white space at the end of `s`.
pub fn trim_end(s: &str) -> (r: String)
    ensures
        r@ == trimmed_end(s@),
{
    let chars = to_chars(s);
    let mut n: usize = chars.len();
    assert(s@.take(n as int) =~= s@);
    while n > 0 && char_is_space(chars[n - 1])
        invariant
            n <= chars@.len(),
            chars@ == s@,
            trimmed_end(s@) == trimmed_end(s@.take(n as int)),
        decreases n,
    {
        assert(s@.take(n as int).drop_last() =~= s@.take(n - 1));
        n -= 1;
    }
    assert(s@.take(n as int) =~= s@.subrange(0, n as int));
    s.substring_char(0, n).to_owned()
}

/// Removes the white space at the beginning of `s`.
pub fn trim_start(s: &str) -> (r: String)
    ensures
        r@ == trimmed_start(s@),
{
    let chars = to_chars(s);
    let mut n: usize = 0;
    assert(s@.skip(0) =~= s@);
    while n < chars.len() && char_is_space(chars[n])
        invariant
            n <= chars@.len(),
            chars@ == s@,
            trimmed_start(s@) == trimmed_start(s@.skip(n as int)),
        decreases chars@.len() - n,
    {
        assert(s@.skip(n as int).drop_first() =~= s@.skip(n + 1));
        n += 1;
    }
    assert(s@.skip(n as int) =~= s@.subrange(n as int, s@.len() as int));
    s.substring_char(n, chars.len()).to_owned()
}

/// Removes the white space at both ends of `s`.
pub fn trim(s: &str) -> (r: String)
    ensures
        r@ == trimmed(s@),
{
    let t = trim_end(s);
    trim_start(t.as_str())
}

/// `s` without the copies of `c` at its end.
pub open spec fn trimmed_end_of(s: Seq<char>, c: char) -> Seq<char>
    decreases s.len(),
{
    if s.len() > 0 && s.last() == c {
        trimmed_end_of(s.drop_last(), c)
    } else {
        s
    }
}

/// Removes the copies of `c` at the end of `s`.
pub fn trim_end_matches(s: &str, c: char) -> (r: String)
    ensures
        r@ == trimmed_end_of(s@, c),
{
    let chars = to_chars(s);
    let mut n: usize = chars.len();
    assert(s@.take(n as int) =~= s@);
    while n > 0 && chars[n - 1] == c
        invariant
            n <= chars@.len(),
            chars@ == s@,
            trimmed_end_of(s@, c) == trimmed_end_of(s@.take(n as int), c),
        decreases n,
    {
        assert(s@.take(n as int).drop_last() =~= s@.take(n - 1));
        n -= 1;
    }
    assert(s@.take(n as int) =~= s@.subrange(0, n as int));
    s.substring_char(0, n).to_owned()
}

/// The code point of `c`, or of its lower case form if it is an upper case ASCII letter.
pub open spec fn folded(c: char) -> u32 {
    let n = c as u32;
    if 65 <= n <= 90 {
        (n + 32) as u32
    } else {
        n
    }
}

/// `s` with its ASCII letters folded to lower case, as code points.
pub open spec fn folded_text(s: Seq<char>) -> Seq<u32> {
    s.map_values(|c: char| folded(c))
}

/// The code points of `s`, with ASCII letters folded to lower case.
pub fn fold_ascii(s: &str) -> (r: Vec<u32>)
    ensures
        r@ == folded_text(s@),
{
    let chars = to_chars(s);
    let mut r: Vec<u32> = Vec::new();
    let mut i: usize = 0;
    while i < chars.len()
        invariant
            i <= chars@.len(),
            chars@ == s@,
            r@ == folded_text(s@.take(i as int)),
        decreases chars@.len() - i,
    {
        let n: u32 = chars[i] as u32;
        let f: u32 = if 65 <= n && n <= 90 {
            n + 32
        } else {
            n
        };
        r.push(f);
        assert(folded_text(s@.take(i + 1)) =~= folded_text(s@.take(i as int)).push(folded(s@[i as int])));
        i += 1;
    }
    assert(s@.take(i as int) =~= s@);
    r
}

/// Whether `a` and `b` are the same text but for the case of ASCII letters.
pub open spec fn same_but_for_case(a: Seq<char>, b: Seq<char>) -> bool {
    folded_text(a) == folded_text(b)
}

/// Whether two lists of code points are the same.
pub fn same_codes(a: &Vec<u32>, b: &Vec<u32>) -> (r: bool)
    ensures
        r == (a@ == b@),
{
    if a.len() != b.len() {
        return false;
    }
    let mut i: usize = 0;
    while i < a.len()
        invariant
            i <= a@.len(),
            a@.len() == b@.len(),
            forall|j: int| 0 <= j < i ==> a@[j] == b@[j],
        decreases a@.len() - i,
    {
        if a[i] != b[i] {
            return false;
        }
        i += 1;
    }
    assert(a@ =~= b@);
    true
}

/// Compares two texts, taking upper and lower case ASCII letters as the same.
pub fn eq_ignore_ascii_case(a: &str, b: &str) -> (r: bool)
    ensures
        r == same_but_for_case(a@, b@),
{
    let x = fold_ascii(a);
    let y = fold_ascii(b);
    same_codes(&x, &y)
}

/// Whether `needle` occurs in `s`, taking upper and lower case ASCII letters as the same.
pub fn contains_ignore_ascii_case(s: &str, needle: &str) -> (r: bool)
    ensures
        r == occurs(folded_text(s@), folded_text(needle@)),
{
    let x = fold_ascii(s);
    let y = fold_ascii(needle);
    if x.len() < y.len() {
        return false;
    }
    let last: usize = x.len() - y.len();
    let mut i: usize = 0;
    while i <= last
        invariant
            x@ == folded_text(s@),
            y@ == folded_text(needle@),
            y@.len() <= x@.len(),
            last == x@.len() - y@.len(),
            x@.len() <= usize::MAX,
            i <= last + 1,
            forall|j: int| 0 <= j < i ==> !occurs_at(x@, y@, j),
        decreases last + 1 - i,
    {
        let mut k: usize = 0;
        while k < y.len() && x[i + k] == y[k]
            invariant
                k <= y@.len(),
                i + y@.len() <= x@.len() <= usize::MAX,
                forall|j: int| 0 <= j < k ==> x@[i + j] == y@[j],
            decreases y@.len() - k,
        {
            k += 1;
        }
        if k == y.len() {
            assert(x@.subrange(i as int, i + y@.len()) =~= y@);
            assert(occurs_at(x@, y@, i as int));
            return true;
        }
        assert(!occurs_at(x@, y@, i as int)) by {
            if occurs_at(x@, y@, i as int) {
                assert(x@.subrange(i as int, i + y@.len())[k as int] == y@[k as int]);
            }
        }
        if i == last {
            assert forall|j: int| !occurs_at(x@, y@, j) by {}
            return false;
        }
        i += 1;
    }
    false
}

/// The parts of `s` between the occurrences of `sep`.
pub open spec fn split_text(s: Seq<char>, sep: char) -> Seq<Seq<char>>
    decreases s.len(),
{
    if s.len() == 0 {
        seq![Seq::empty()]
    } else {
        let before = split_text(s.drop_last(), sep);
        if s.last() == sep {
            before.push(Seq::empty())
        } else {
            before.drop_last().push(before.last().push(s.last()))
        }
    }
}

/// Splits `s` at each `sep`.
pub fn split(s: &str, sep: char) -> (r: Vec<String>)
    ensures
        texts(r@) == split_text(s@, sep),
{
    let chars = to_chars(s);
    let mut parts: Vec<String> = Vec::new();
    let mut start: usize = 0;
    let mut i: usize = 0;
    proof {
        assert(s@.take(0).len() == 0);
        assert(s@.subrange(0, 0) =~= Seq::<char>::empty());
        assert(texts(parts@).push(s@.subrange(0, 0)) =~= seq![Seq::<char>::empty()]);
    }
    while i < chars.len()
        invariant
            start <= i <= chars@.len(),
            chars@ == s@,
            split_text(s@.take(i as int), sep) == texts(parts@).push(
                s@.subrange(start as int, i as int),
            ),
        decreases chars@.len() - i,
    {
        let ghost before = texts(parts@);
        let ghost next = s@.take(i + 1);
        proof {
            assert(next.drop_last() =~= s@.take(i as int));
            assert(next.last() == s@[i as int]);
            let parted = before.push(s@.subrange(start as int, i as int));
            assert(parted.drop_last() =~= before);
            assert(s@.subrange(start as int, i + 1) =~= s@.subrange(start as int, i as int).push(
                s@[i as int],
            ));
        }
        if chars[i] == sep {
            let part = s.substring_char(start, i).to_owned();
            parts.push(part);
            assert(texts(parts@) =~= before.push(s@.subrange(start as int, i as int)));
            start = i + 1;
            assert(s@.subrange(start as int, i + 1) =~= Seq::<char>::empty());
        }
        i += 1;
    }
    let ghost before = texts(parts@);
    let part = s.substring_char(start, i).to_owned();
    parts.push(part);
    proof {
        assert(s@.take(i as int) =~= s@);
        assert(texts(parts@) =~= before.push(s@.subrange(start as int, i as int)));
    }
    parts
}

/// A line without the carriage return at its end, if there is one.
pub open spec fn without_return(line: Seq<char>) -> Seq<char> {
    if line.len() > 0 && line.last() == '\r' {
        line.drop_last()
    } else {
        line
    }
}

/// The lines of `s`. A line ends with a line feed, or with a carriage return and a line feed; the
/// last one may end with the text.
pub open spec fn lines_of(s: Seq<char>) -> Seq<Seq<char>> {
    let parts = split_text(s, '\n');
    let ended = parts.drop_last().map_values(|line: Seq<char>| without_return(line));
    if parts.last().len() == 0 {
        ended
    } else {
        ended.push(parts.last())
    }
}

/// Splits `s` into lines.
pub fn lines(s: &str) -> (r: Vec<String>)
    ensures
        texts(r@) == lines_of(s@),
{
    let mut parts = split(s, '\n');
    let ghost all = texts(parts@);
    proof {
        lemma_split_not_empty(s@, '\n');
    }
    let last = parts.pop();
    let mut r: Vec<String> = Vec::new();
    let ghost ended = all.drop_last().map_values(|line: Seq<char>| without_return(line));
    let mut i: usize = 0;
    assert(texts(parts@) =~= all.drop_last());
    while i < parts.len()
        invariant
            i <= parts@.len(),
            texts(parts@) == all.drop_last(),
            ended == all.drop_last().map_values(|line: Seq<char>| without_return(line)),
            texts(r@) == ended.take(i as int),
        decreases parts@.len() - i,
    {
        let line = parts[i].as_str();
        assert(line@ == texts(parts@)[i as int]);
        let n = line.unicode_len();
        let ghost before = texts(r@);
        if n > 0 && line.get_char(n - 1) == '\r' {
            let t = line.substring_char(0, n - 1).to_owned();
            assert(t@ =~= without_return(line@));
            r.push(t);
        } else {
            r.push(line.to_owned());
        }
        assert(texts(r@) =~= before.push(without_return(line@)));
        assert(ended.take(i + 1) =~= ended.take(i as int).push(without_return(line@)));
        i += 1;
    }
    assert(ended.take(i as int) =~= ended);
    match last {
        Some(line) => {
            assert(line@ == all.last());
            if !line.as_str().is_empty() {
                let ghost before = texts(r@);
                r.push(line);
                assert(texts(r@) =~= before.push(line@));
            }
        },
        None => {},
    }
    r
}

proof fn lemma_split_not_empty(s: Seq<char>, sep: char)
    ensures
        split_text(s, sep).len() > 0,
    decreases s.len(),
{
    if s.len() > 0 {
        lemma_split_not_empty(s.drop_last(), sep);
    }
}

/// `parts` in order, with `sep` between neighbours.
pub open spec fn joined(parts: Seq<Seq<char>>, sep: Seq<char>) -> Seq<char>
    decreases parts.len(),
{
    if parts.len() == 0 {
        Seq::empty()
    } else if parts.len() == 1 {
        parts[0]
    } else {
        joined(parts.drop_last(), sep) + sep + parts.last()
    }
}

/// Joins `parts`, with `sep` between neighbours.
pub fn join(parts: &Vec<String>, sep: &str) -> (r: String)
    ensures
        r@ == joined(texts(parts@), sep@),
{
    let mut r = String::new();
    let mut i: usize = 0;
    while i < parts.len()
        invariant
            i <= parts@.len(),
            r@ == joined(texts(parts@.take(i as int)), sep@),
        decreases parts@.len() - i,
    {
        if i > 0 {
            r.append(sep);
        }
        r.append(parts[i].as_str());
        proof {
            let next = texts(parts@.take(i + 1));
            assert(next.drop_last() =~= texts(parts@.take(i as int)));
            assert(next.last() == parts@[i as int]@);
            if i == 0 {
                assert(r@ =~= next[0]);
            }
        }
        i += 1;
    }
    assert(parts@.take(i as int) =~= parts@);
    r
}

/// The decimal digit for `d`.
pub open spec fn digit(d: nat) -> char
    recommends
        d < 10,
{
    if d == 0 {
        '0'
    } else if d == 1 {
        '1'
    } else if d == 2 {
        '2'
    } else if d == 3 {
        '3'
    } else if d == 4 {
        '4'
    } else if d == 5 {
        '5'
    } else if d == 6 {
        '6'
    } else if d == 7 {
        '7'
    } else if d == 8 {
        '8'
    } else {
        '9'
    }
}

/// The decimal notation of `n`, without leading zeros.
pub open spec fn decimal(n: nat) -> Seq<char>
    decreases n,
{
    if n < 10 {
        seq![digit(n)]
    } else {
        decimal(n / 10).push(digit(n % 10))
    }
}

/// The text of one decimal digit.
fn digit_text(d: u64) -> (r: String)
    requires
        d < 10,
    ensures
        r@ == seq![digit(d as nat)],
{
    proof {
        reveal_strlit("0");
        reveal_strlit("1");
        reveal_strlit("2");
        reveal_strlit("3");
        reveal_strlit("4");
        reveal_strlit("5");
        reveal_strlit("6");
        reveal_strlit("7");
        reveal_strlit("8");
        reveal_strlit("9");
    }
    let t = if d == 0 {
        "0"
    } else if d == 1 {
        "1"
    } else if d == 2 {
        "2"
    } else if d == 3 {
        "3"
    } else if d == 4 {
        "4"
    } else if d == 5 {
        "5"
    } else if d == 6 {
        "6"
    } else if d == 7 {
        "7"
    } else if d == 8 {
        "8"
    } else {
        "9"
    };
    assert(t@ =~= seq![digit(d as nat)]);
    t.to_owned()
}

/// The decimal notation of `n`.
pub fn decimal_text(n: u64) -> (r: String)
    ensures
        r@ == decimal(n as nat),
    decreases n,
{
    if n < 10 {
        digit_text(n)
    } else {
        let mut r = decimal_text(n / 10);
        let d = digit_text(n % 10);
        r.append(d.as_str());
        assert(r@ =~= decimal(n as nat));
        r
    }
}

/// Different numbers have different decimal notations.
pub proof fn lemma_decimal_injective(a: nat, b: nat)
    requires
        decimal(a) == decimal(b),
    ensures
        a == b,
    decreases a,
{
    lemma_decimal_len(a);
    lemma_decimal_len(b);
    if a < 10 {
        if b >= 10 {
            lemma_decimal_len(b / 10);
            assert(decimal(b).len() >= 2);
        }
        assert(decimal(a) == seq![digit(a)] && decimal(b) == seq![digit(b)]);
        assert(seq![digit(a)][0] == seq![digit(b)][0]);
        lemma_digit_code(a);
        lemma_digit_code(b);
    } else {
        lemma_decimal_len(a / 10);
        if b < 10 {
            assert(decimal(a).len() >= 2);
            assert(decimal(b).len() == 1);
        }
        assert(decimal(a).last() == digit(a % 10) && decimal(b).last() == digit(b % 10));
        assert(decimal(a).drop_last() =~= decimal(a / 10));
        assert(decimal(b).drop_last() =~= decimal(b / 10));
        lemma_decimal_injective(a / 10, b / 10);
        lemma_digit_code(a % 10);
        lemma_digit_code(b % 10);
        assert(a % 10 == b % 10);
    }
}

proof fn lemma_digit_code(d: nat)
    requires
        d < 10,
    ensures
        digit(d) as u32 == 48 + d,
{
}

proof fn lemma_decimal_len(n: nat)
    ensures
        decimal(n).len() >= 1,
{
}

/// An optional text shows what it holds.
pub proof fn law_optional_texts(text: String, s: &str)
    ensures
        opt_view(Some(text)) == Some(text@),
        opt_view(None) == None::<Seq<char>>,
        opt_str_view(Some(s)) == Some(s@),
        opt_str_view(None) == None::<Seq<char>>,
{
}

/// A list of texts shows each of them, in order.
pub proof fn law_listed_texts(list: Seq<String>)
    ensures
        texts(list).len() == list.len(),
        forall|i: int| 0 <= i < list.len() ==> #[trigger] texts(list)[i] == list[i]@,
{
}

/// White space are the characters that Unicode gives this property.
pub proof fn law_white_space(c: char)
    ensures
        is_space(c) <==> (c == '\t' || c == '\n' || c == '\u{b}' || c == '\u{c}' || c == '\r' || c
            == ' ' || c == '\u{85}' || c == '\u{a0}' || c == '\u{1680}' || c == '\u{2000}' || c
            == '\u{2001}' || c == '\u{2002}' || c == '\u{2003}' || c == '\u{2004}' || c
            == '\u{2005}' || c == '\u{2006}' || c == '\u{2007}' || c == '\u{2008}' || c
            == '\u{2009}' || c == '\u{200a}' || c == '\u{2028}' || c == '\u{2029}' || c
            == '\u{202f}' || c == '\u{205f}' || c == '\u{3000}'),
{
}

/// Whether a text is white space throughout.
pub open spec fn all_space(s: Seq<char>) -> bool {
    forall|i: int| 0 <= i < s.len() ==> is_space(#[trigger] s[i])
}

/// Whether a text is what is left of another one without the white space at its end.
pub open spec fn is_without_trailing_space(r: Seq<char>, s: Seq<char>) -> bool {
    &&& exists|tail: Seq<char>| s == #[trigger] (r + tail) && all_space(tail)
    &&& r.len() > 0 ==> !is_space(r[r.len() - 1])
}

/// Whether a text is what is left of another one without the white space around it.
pub open spec fn is_without_space_around(r: Seq<char>, s: Seq<char>) -> bool {
    &&& exists|head: Seq<char>, tail: Seq<char>|
        s == #[trigger] (head + r + tail) && all_space(head) && all_space(tail)
    &&& r.len() > 0 ==> !is_space(r[0]) && !is_space(r[r.len() - 1])
}

/// Trimming the end of a text takes off white space only, and all of it.
pub proof fn law_trimming_the_end(s: Seq<char>)
    ensures
        is_without_trailing_space(trimmed_end(s), s),
        s.len() > 0 && !is_space(s[s.len() - 1]) ==> trimmed_end(s) == s,
        all_space(s) ==> trimmed_end(s).len() == 0,
    decreases s.len(),
{
    let r = trimmed_end(s);
    if s.len() > 0 && is_space(s.last()) {
        law_trimming_the_end(s.drop_last());
        let tail = choose|tail: Seq<char>|
            s.drop_last() == #[trigger] (r + tail) && all_space(tail);
        assert(s =~= s.drop_last().push(s.last()));
        assert(s =~= r + tail.push(s.last()));
        assert(all_space(tail.push(s.last())));
        if all_space(s) {
            assert(all_space(s.drop_last())) by {
                assert forall|i: int| 0 <= i < s.drop_last().len() implies is_space(
                    #[trigger] s.drop_last()[i],
                ) by {
                    assert(is_space(s[i]));
                }
            }
        }
    } else {
        assert(s =~= r + Seq::<char>::empty());
        assert(all_space(Seq::<char>::empty()));
        if s.len() > 0 && all_space(s) {
            assert(is_space(s[s.len() - 1]));
        }
    }
}

proof fn lemma_trimming_the_start(s: Seq<char>)
    ensures
        exists|head: Seq<char>| s == #[trigger] (head + trimmed_start(s)) && all_space(head),
        trimmed_start(s).len() > 0 ==> !is_space(trimmed_start(s)[0]),
        trimmed_start(s).len() > 0 ==> trimmed_start(s).last() == s.last(),
        all_space(s) ==> trimmed_start(s).len() == 0,
    decreases s.len(),
{
    let r = trimmed_start(s);
    if s.len() > 0 && is_space(s[0]) {
        let rest = s.drop_first();
        lemma_trimming_the_start(rest);
        let head = choose|head: Seq<char>| rest == #[trigger] (head + r) && all_space(head);
        let longer = seq![s[0]] + head;
        assert(rest == head + r);
        assert(s =~= seq![s[0]] + rest);
        assert(s =~= longer + r);
        assert(all_space(longer));
        if all_space(s) {
            assert forall|i: int| 0 <= i < rest.len() implies is_space(#[trigger] rest[i]) by {
                assert(is_space(s[i + 1]));
            }
        }
    } else {
        assert(s =~= Seq::<char>::empty() + r);
        assert(all_space(Seq::<char>::empty()));
        if s.len() > 0 && all_space(s) {
            assert(is_space(s[0]));
        }
    }
}

/// Trimming a text takes off white space only, and all that is around it. A text that neither begins
/// nor ends with white space stays as it is, and nothing is left only of white space.
pub proof fn law_trimming(s: Seq<char>)
    ensures
        is_without_space_around(trimmed(s), s),
        s.len() > 0 && !is_space(s[0]) && !is_space(s[s.len() - 1]) ==> trimmed(s) == s,
        trimmed(s).len() == 0 <==> all_space(s),
{
    let e = trimmed_end(s);
    let r = trimmed(s);
    law_trimming_the_end(s);
    lemma_trimming_the_start(e);
    let tail = choose|tail: Seq<char>| s == #[trigger] (e + tail) && all_space(tail);
    let head = choose|head: Seq<char>| e == #[trigger] (head + r) && all_space(head);
    assert(s == head + r + tail);
    if r.len() == 0 {
        assert forall|i: int| 0 <= i < s.len() implies is_space(#[trigger] s[i]) by {
            if i < head.len() {
                assert(s[i] == head[i]);
            } else {
                assert(s[i] == tail[i - head.len()]);
            }
        }
    }
}

/// Two ways to take the white space off the end of a text give the same.
pub proof fn law_one_trimmed_end(a: Seq<char>, b: Seq<char>, s: Seq<char>)
    requires
        is_without_trailing_space(a, s),
        is_without_trailing_space(b, s),
    ensures
        a == b,
{
    let ta = choose|tail: Seq<char>| s == #[trigger] (a + tail) && all_space(tail);
    let tb = choose|tail: Seq<char>| s == #[trigger] (b + tail) && all_space(tail);
    assert(s == a + ta && s == b + tb);
    if a.len() < b.len() {
        assert(s[b.len() - 1] == b[b.len() - 1]);
        assert(s[b.len() - 1] == ta[b.len() - 1 - a.len()]);
    } else if b.len() < a.len() {
        assert(s[a.len() - 1] == a[a.len() - 1]);
        assert(s[a.len() - 1] == tb[a.len() - 1 - b.len()]);
    }
    assert(a =~= s.take(a.len() as int));
    assert(b =~= s.take(b.len() as int));
}

/// Taking a character off the end of a text takes off nothing else, and all of it.
pub proof fn law_trimming_a_character(s: Seq<char>, c: char)
    ensures
        trimmed_end_of(s, c).is_prefix_of(s),
        forall|i: int| trimmed_end_of(s, c).len() <= i < s.len() ==> #[trigger] s[i] == c,
        trimmed_end_of(s, c).len() > 0 ==> trimmed_end_of(s, c)[trimmed_end_of(s, c).len() - 1]
            != c,
    decreases s.len(),
{
    let r = trimmed_end_of(s, c);
    if s.len() > 0 && s.last() == c {
        let rest = s.drop_last();
        law_trimming_a_character(rest, c);
        assert(rest.subrange(0, r.len() as int) =~= s.subrange(0, r.len() as int));
        assert forall|i: int| r.len() <= i < s.len() implies #[trigger] s[i] == c by {
            if i < rest.len() {
                assert(rest[i] == c);
            }
        }
    } else {
        assert(s.subrange(0, s.len() as int) =~= s);
    }
}

proof fn lemma_same_letter(x: char, y: char)
    ensures
        folded(x) == folded(y) <==> {
            ||| x == y
            ||| 'A' <= x <= 'Z' && y as u32 == x as u32 + 32
            ||| 'A' <= y <= 'Z' && x as u32 == y as u32 + 32
        },
{
}

/// Texts are the same but for case if they are equally long and each character is the same, or one
/// is a letter from A to Z and the other the small one.
pub proof fn law_same_but_for_case(a: Seq<char>, b: Seq<char>)
    ensures
        same_but_for_case(a, b) <==> a.len() == b.len() && forall|i: int|
            0 <= i < a.len() ==> {
                let x = #[trigger] a[i];
                let y = b[i];
                ||| x == y
                ||| 'A' <= x <= 'Z' && y as u32 == x as u32 + 32
                ||| 'A' <= y <= 'Z' && x as u32 == y as u32 + 32
            },
{
    let fa = folded_text(a);
    let fb = folded_text(b);
    if same_but_for_case(a, b) {
        assert(fa.len() == a.len() && fb.len() == b.len());
        assert forall|i: int| 0 <= i < a.len() implies {
            let x = #[trigger] a[i];
            let y = b[i];
            ||| x == y
            ||| 'A' <= x <= 'Z' && y as u32 == x as u32 + 32
            ||| 'A' <= y <= 'Z' && x as u32 == y as u32 + 32
        } by {
            assert(fa[i] == fb[i]);
            assert(fa[i] == folded(a[i]) && fb[i] == folded(b[i]));
            lemma_same_letter(a[i], b[i]);
        }
    } else if a.len() == b.len() {
        if forall|i: int|
            0 <= i < a.len() ==> {
                let x = #[trigger] a[i];
                let y = b[i];
                ||| x == y
                ||| 'A' <= x <= 'Z' && y as u32 == x as u32 + 32
                ||| 'A' <= y <= 'Z' && x as u32 == y as u32 + 32
            } {
            assert forall|i: int| 0 <= i < fa.len() implies fa[i] == fb[i] by {
                assert(fa[i] == folded(a[i]) && fb[i] == folded(b[i]));
                lemma_same_letter(a[i], b[i]);
            }
            assert(fa =~= fb);
        }
    }
}

/// A text occurs in another one if there is something before it and something after it.
pub proof fn law_occurrence(before: Seq<char>, needle: Seq<char>, after: Seq<char>, hay: Seq<char>)
    ensures
        occurs(before + needle + after, needle),
        occurs(hay, needle) ==> exists|a: Seq<char>, b: Seq<char>| hay == #[trigger] (a + needle + b),
{
    let whole = before + needle + after;
    assert(whole.subrange(before.len() as int, (before.len() + needle.len()) as int) =~= needle);
    assert(occurs_at(whole, needle, before.len() as int));
    if occurs(hay, needle) {
        let i = choose|i: int| occurs_at(hay, needle, i);
        let a = hay.subrange(0, i);
        let b = hay.subrange(i + needle.len(), hay.len() as int);
        assert(hay =~= a + needle + b);
    }
}

/// The parts of a text hold no separator, and with one between each two they are the text again.
pub proof fn law_split_then_join(s: Seq<char>, sep: char)
    ensures
        joined(split_text(s, sep), seq![sep]) == s,
        split_text(s, sep).len() > 0,
        forall|i: int, j: int|
            0 <= i < split_text(s, sep).len() && 0 <= j < split_text(s, sep)[i].len()
                ==> #[trigger] split_text(s, sep)[i][j] != sep,
    decreases s.len(),
{
    let parts = split_text(s, sep);
    if s.len() == 0 {
        assert(joined(parts, seq![sep]) =~= s);
    } else {
        let rest = s.drop_last();
        let before = split_text(rest, sep);
        law_split_then_join(rest, sep);
        assert(s =~= rest.push(s.last()));
        if s.last() == sep {
            assert(parts.drop_last() =~= before);
            assert(joined(parts, seq![sep]) =~= joined(before, seq![sep]) + seq![sep]);
            assert forall|i: int, j: int|
                0 <= i < parts.len() && 0 <= j < parts[i].len() implies #[trigger] parts[i][j]
                != sep by {
                assert(i < before.len());
                assert(before[i][j] != sep);
            }
        } else {
            let last = before.last().push(s.last());
            assert(parts.drop_last() =~= before.drop_last());
            assert(parts.last() == last);
            if before.len() == 1 {
                assert(joined(before, seq![sep]) == before[0]);
                assert(joined(parts, seq![sep]) == parts[0]);
                assert(joined(parts, seq![sep]) =~= s);
            } else {
                assert(joined(before, seq![sep]) == joined(before.drop_last(), seq![sep]) + seq![
                    sep,
                ] + before.last());
                assert(joined(parts, seq![sep]) =~= s);
            }
            assert forall|i: int, j: int|
                0 <= i < parts.len() && 0 <= j < parts[i].len() implies #[trigger] parts[i][j]
                != sep by {
                if i < before.len() - 1 {
                    assert(before[i][j] != sep);
                } else if j < before.last().len() {
                    assert(before[before.len() - 1][j] != sep);
                }
            }
        }
    }
}

/// Joined texts stand one after the other, with a separator between each two.
pub proof fn law_joining(parts: Seq<Seq<char>>, one: Seq<char>, sep: Seq<char>)
    ensures
        joined(Seq::empty(), sep) == Seq::<char>::empty(),
        joined(seq![one], sep) == one,
        parts.len() > 0 ==> joined(parts.push(one), sep) == joined(parts, sep) + sep + one,
{
    if parts.len() > 0 {
        assert(parts.push(one).drop_last() =~= parts);
    }
}

proof fn lemma_split_front(line: Seq<char>, rest: Seq<char>, sep: char)
    requires
        !line.contains(sep),
    ensures
        split_text(line, sep) == seq![line],
        split_text(line.push(sep) + rest, sep) == seq![line] + split_text(rest, sep),
    decreases line.len(), rest.len(),
{
    lemma_split_plain(line, sep);
    let whole = line.push(sep) + rest;
    if rest.len() == 0 {
        assert(whole =~= line.push(sep));
        assert(whole.drop_last() =~= line);
        assert(split_text(whole, sep) =~= seq![line] + split_text(rest, sep));
    } else {
        lemma_split_front(line, rest.drop_last(), sep);
        lemma_split_not_empty(rest.drop_last(), sep);
        let before = split_text(rest.drop_last(), sep);
        assert(whole.drop_last() =~= line.push(sep) + rest.drop_last());
        assert((seq![line] + before).drop_last() =~= seq![line] + before.drop_last());
        assert((seq![line] + before).last() == before.last());
        assert(split_text(whole, sep) =~= seq![line] + split_text(rest, sep));
    }
}

proof fn lemma_split_plain(line: Seq<char>, sep: char)
    requires
        !line.contains(sep),
    ensures
        split_text(line, sep) == seq![line],
    decreases line.len(),
{
    if line.len() > 0 {
        assert forall|c: char| line.drop_last().contains(c) implies line.contains(c) by {
            let i = choose|i: int| 0 <= i < line.drop_last().len() && line.drop_last()[i] == c;
            assert(line[i] == c);
        }
        assert(line[line.len() - 1] == line.last());
        lemma_split_plain(line.drop_last(), sep);
        assert(seq![line.drop_last()].drop_last() =~= Seq::<Seq<char>>::empty());
        assert(line.drop_last().push(line.last()) =~= line);
        assert(split_text(line, sep) =~= seq![line]);
    } else {
        assert(line =~= Seq::empty());
    }
}

/// The lines of a text: each ends with a line feed, with or without a carriage return before it, and
/// what follows the last of them is a line unless it is empty.
pub proof fn law_lines(line: Seq<char>, rest: Seq<char>)
    requires
        !line.contains('\n'),
    ensures
        lines_of(Seq::empty()).len() == 0,
        line.len() > 0 ==> lines_of(line) == seq![line],
        line.len() > 0 && line.last() == '\r' ==> lines_of(line.push('\n') + rest) == seq![
            line.drop_last(),
        ] + lines_of(rest),
        line.len() == 0 || line.last() != '\r' ==> lines_of(line.push('\n') + rest) == seq![line]
            + lines_of(rest),
{
    lemma_split_front(line, rest, '\n');
    lemma_split_not_empty(rest, '\n');
    let parts = split_text(rest, '\n');
    let whole = seq![line] + parts;
    assert(whole.last() == parts.last());
    assert(whole.drop_last() =~= seq![line] + parts.drop_last());
    let f = |l: Seq<char>| without_return(l);
    assert(whole.drop_last().map_values(f) =~= seq![without_return(line)]
        + parts.drop_last().map_values(f));
    assert(lines_of(line.push('\n') + rest) =~= seq![without_return(line)] + lines_of(rest));
    assert(seq![line].drop_last() =~= Seq::<Seq<char>>::empty());
    assert(lines_of(line) =~= if line.len() == 0 {
        Seq::empty()
    } else {
        seq![line]
    });
    let none = Seq::<char>::empty();
    assert(split_text(none, '\n') == seq![none]);
    assert(lines_of(none) =~= Seq::<Seq<char>>::empty());
}

/// The number that decimal digits stand for.
pub open spec fn digits_value(digits: Seq<char>) -> int
    decreases digits.len(),
{
    if digits.len() == 0 {
        0
    } else {
        10 * digits_value(digits.drop_last()) + (digits[digits.len() - 1] as int - '0' as int)
    }
}

/// The decimal text of a number stands for it, is made of the digits from 0 to 9, and begins with
/// zero for zero only.
pub proof fn law_decimal_text(n: nat)
    ensures
        digits_value(decimal(n)) == n,
        decimal(n).len() > 0,
        forall|i: int| 0 <= i < decimal(n).len() ==> '0' <= #[trigger] decimal(n)[i] <= '9',
        decimal(n)[0] == '0' ==> n == 0,
    decreases n,
{
    lemma_decimal_len(n);
    lemma_digit_code(n % 10);
    if n < 10 {
        lemma_digit_code(n);
        assert(seq![digit(n)].drop_last() =~= Seq::<char>::empty());
        assert(digits_value(Seq::<char>::empty()) == 0);
    } else {
        law_decimal_text(n / 10);
        let d = decimal(n / 10).push(digit(n % 10));
        assert(d.drop_last() =~= decimal(n / 10));
        assert forall|i: int| 0 <= i < d.len() implies '0' <= #[trigger] d[i] <= '9' by {
            if i < d.len() - 1 {
                assert('0' <= decimal(n / 10)[i] <= '9');
            }
        }
        assert(d[0] == decimal(n / 10)[0]);
    }
}

} // verus!
