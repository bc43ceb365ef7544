//! Text as a sequence of characters: the few string operations that the
//! command line is built from, each with a mathematical meaning.

use vstd::prelude::*;

verus! {

/// How many characters of `s` come before the first `c` (all of them when
/// there is no `c`).
pub open spec fn lead_len(s: Seq<char>, c: char) -> nat
    decreases s.len(),
{
    if s.len() == 0 || s[0] == c {
        0
    } else {
        1 + lead_len(s.drop_first(), c)
    }
}

/// `s` cut at its first `c`, which belongs to neither part.
pub open spec fn cut(s: Seq<char>, c: char) -> Option<(Seq<char>, Seq<char>)> {
    let n = lead_len(s, c) as int;
    if n < s.len() {
        Some((s.take(n), s.skip(n + 1)))
    } else {
        None
    }
}

/// What is left of `s` once every leading `c` is dropped.
pub open spec fn drop_leading(s: Seq<char>, c: char) -> Seq<char>
    decreases s.len(),
{
    if s.len() > 0 && s[0] == c {
        drop_leading(s.drop_first(), c)
    } else {
        s
    }
}

/// The characters with the Unicode property `White_Space`.
pub open spec fn is_space(c: char) -> bool {
    let n = c as u32;
    ||| 0x9 <= n <= 0xD
    ||| n == 0x20
    ||| n == 0x85
    ||| n == 0xA0
    ||| n == 0x1680
    ||| 0x2000 <= n <= 0x200A
    ||| n == 0x2028
    ||| n == 0x2029
    ||| n == 0x202F
    ||| n == 0x205F
    ||| n == 0x3000
}

/// `s` without its leading white space.
pub open spec fn trim_left(s: Seq<char>) -> Seq<char>
    decreases s.len(),
{
    if s.len() > 0 && is_space(s[0]) {
        trim_left(s.drop_first())
    } else {
        s
    }
}

/// `s` without its trailing white space.
pub open spec fn trim_right(s: Seq<char>) -> Seq<char>
    decreases s.len(),
{
    if s.len() > 0 && is_space(s.last()) {
        trim_right(s.drop_last())
    } else {
        s
    }
}

/// `s` without white space at either end.
pub open spec fn trimmed(s: Seq<char>) -> Seq<char> {
    trim_right(trim_left(s))
}

/// The ASCII letter `c` in lower case; any other character as it is.
pub open spec fn ascii_lower(c: char) -> char {
    if 'A' <= c && c <= 'Z' {
        ((c as u32 + 32) as u32) as char
    } else {
        c
    }
}

/// Equality that takes an ASCII letter and its other case for the same.
pub open spec fn same_ignoring_case(a: Seq<char>, b: Seq<char>) -> bool {
    &&& a.len() == b.len()
    &&& forall|i: int| 0 <= i < a.len() ==> ascii_lower(#[trigger] a[i]) == ascii_lower(b[i])
}

/// `s` with each occurrence of `pattern`, read from the left and without
/// overlap, replaced by `with`.
pub open spec fn replaced(s: Seq<char>, pattern: Seq<char>, with: Seq<char>) -> Seq<char>
    decreases s.len(),
{
    if s.len() == 0 || pattern.len() == 0 {
        s
    } else if pattern.is_prefix_of(s) {
        with + replaced(s.skip(pattern.len() as int), pattern, with)
    } else {
        seq![s[0]] + replaced(s.drop_first(), pattern, with)
    }
}

/// The character for a digit below ten.
pub open spec fn digit_char(d: nat) -> char {
    ((48 + d) as u32) as char
}

/// `n` in decimal notation, without leading zeros.
pub open spec fn decimal(n: nat) -> Seq<char>
    decreases n,
{
    if n < 10 {
        seq![digit_char(n)]
    } else {
        decimal(n / 10).push(digit_char(n % 10))
    }
}

/// The texts of `parts` one after the other, with `sep` between neighbours.
pub open spec fn joined(parts: Seq<Seq<char>>, sep: Seq<char>) -> Seq<char>
    decreases parts.len(),
{
    if parts.len() == 0 {
        Seq::empty()
    } else if parts.len() == 1 {
        parts[0]
    } else {
        joined(parts.drop_last(), sep) + sep + parts.last()
    }
}

/// The lines of a list, each with a bullet before it.
pub open spec fn bulleted(lines: Seq<Seq<char>>) -> Seq<Seq<char>> {
    lines.map_values(|l: Seq<char>| "\t- "@ + l)
}

/// Lexicographic order by code point.
pub open spec fn before(a: Seq<char>, b: Seq<char>) -> bool
    decreases a.len(),
{
    if b.len() == 0 {
        false
    } else if a.len() == 0 {
        true
    } else if a[0] == b[0] {
        before(a.drop_first(), b.drop_first())
    } else {
        a[0] < b[0]
    }
}

/// The contents of a list of strings.
pub open spec fn texts(list: Seq<String>) -> Seq<Seq<char>> {
    list.map_values(|s: String| s@)
}

/// Whether two texts are the same.
pub fn same(a: &str, b: &str) -> (r: bool)
    ensures
        r == (a@ == b@),
{
    a.to_owned() == b.to_owned()
}

pub proof fn lemma_lead_len(s: Seq<char>, c: char)
    ensures
        lead_len(s, c) <= s.len(),
        forall|i: int| 0 <= i < lead_len(s, c) ==> s[i] != c,
        lead_len(s, c) < s.len() ==> s[lead_len(s, c) as int] == c,
    decreases s.len(),
{
    if s.len() > 0 && s[0] != c {
        let t = s.drop_first();
        lemma_lead_len(t, c);
        assert forall|i: int| 0 <= i < lead_len(s, c) implies s[i] != c by {
            if i > 0 {
                assert(s[i] == t[i - 1]);
            }
        }
        if lead_len(s, c) < s.len() {
            assert(s[lead_len(s, c) as int] == t[lead_len(t, c) as int]);
        }
    }
}

/// The index of the first `c` is the only one that ends a run without `c`.
pub proof fn lemma_lead_len_unique(s: Seq<char>, c: char, n: nat)
    requires
        n <= s.len(),
        forall|i: int| 0 <= i < n ==> s[i] != c,
        n < s.len() ==> s[n as int] == c,
    ensures
        lead_len(s, c) == n,
{
    lemma_lead_len(s, c);
    if lead_len(s, c) < n {
        assert(s[lead_len(s, c) as int] == c);
    }
}

/// The index of the first `c` in `s`, or the length of `s`.
pub fn find_char(s: &str, c: char) -> (n: usize)
    ensures
        n == lead_len(s@, c),
        n <= s@.len(),
{
    let len: usize = s.unicode_len();
    let mut i: usize = 0;
    while i < len
        invariant
            i <= len,
            len == s@.len(),
            forall|j: int| 0 <= j < i ==> s@[j] != c,
        decreases len - i,
    {
        if s.get_char(i) == c {
            proof {
                lemma_lead_len_unique(s@, c, i as nat);
            }
            return i;
        }
        i = i + 1;
    }
    proof {
        lemma_lead_len_unique(s@, c, i as nat);
    }
    i
}

/// Cuts `s` at its first `c`.
pub fn split_once(s: &str, c: char) -> (r: Option<(&str, &str)>)
    ensures
        match r {
            Some((a, b)) => cut(s@, c) == Some((a@, b@)),
            None => cut(s@, c) is None,
        },
{
    let n: usize = find_char(s, c);
    let len: usize = s.unicode_len();
    if n < len {
        let a = s.substring_char(0, n);
        let b = s.substring_char(n + 1, len);
        assert(a@ =~= s@.take(n as int));
        assert(b@ =~= s@.skip(n + 1));
        Some((a, b))
    } else {
        None
    }
}

/// Whether `c` occurs in `s`.
pub fn has_char(s: &str, c: char) -> (r: bool)
    ensures
        r == s@.contains(c),
{
    let n: usize = find_char(s, c);
    proof {
        lemma_lead_len(s@, c);
    }
    n < s.unicode_len()
}

/// What follows `prefix` in `s`, if `s` starts with it.
pub fn strip_prefix<'a>(s: &'a str, prefix: &str) -> (r: Option<&'a str>)
    ensures
        match r {
            Some(rest) => prefix@.is_prefix_of(s@) && rest@ == s@.skip(prefix@.len() as int),
            None => !prefix@.is_prefix_of(s@),
        },
{
    let n: usize = prefix.unicode_len();
    let len: usize = s.unicode_len();
    if len < n {
        return None;
    }
    let head = s.substring_char(0, n);
    if same(head, prefix) {
        let rest = s.substring_char(n, len);
        assert(rest@ =~= s@.skip(n as int));
        Some(rest)
    } else {
        assert(!prefix@.is_prefix_of(s@)) by {
            if prefix@.is_prefix_of(s@) {
                assert(prefix@ =~= s@.subrange(0, n as int));
            }
        }
        None
    }
}

/// `s` without its leading `c`s.
pub fn trim_start_char(s: &str, c: char) -> (r: &str)
    ensures
        r@ == drop_leading(s@, c),
{
    let len: usize = s.unicode_len();
    let mut i: usize = 0;
    assert(s@.skip(0) =~= s@);
    while i < len && s.get_char(i) == c
        invariant
            i <= len,
            len == s@.len(),
            drop_leading(s@, c) == drop_leading(s@.skip(i as int), c),
        decreases len - i,
    {
        assert(s@.skip(i as int).drop_first() =~= s@.skip(i + 1));
        i = i + 1;
    }
    let r = s.substring_char(i, len);
    assert(r@ =~= s@.skip(i as int));
    r
}

/// Whether `c` is white space.
pub fn is_white_space(c: char) -> (r: bool)
    ensures
        r == is_space(c),
{
    let n: u32 = c as u32;
    (0x9 <= n && n <= 0xD) || n == 0x20 || n == 0x85 || n == 0xA0 || n == 0x1680 || (0x2000 <= n
        && n <= 0x200A) || n == 0x2028 || n == 0x2029 || n == 0x202F || n == 0x205F || n == 0x3000
}

/// `s` without white space at either end.
pub fn trim(s: &str) -> (r: &str)
    ensures
        r@ == trimmed(s@),
{
    let len: usize = s.unicode_len();
    let mut i: usize = 0;
    assert(s@.skip(0) =~= s@);
    while i < len && is_white_space(s.get_char(i))
        invariant
            i <= len,
            len == s@.len(),
            trim_left(s@) == trim_left(s@.skip(i as int)),
        decreases len - i,
    {
        assert(s@.skip(i as int).drop_first() =~= s@.skip(i + 1));
        i = i + 1;
    }
    let ghost left = s@.skip(i as int);
    assert(trim_left(s@) == left);
    let mut j: usize = len;
    assert(s@.subrange(i as int, j as int) =~= left);
    while i < j && is_white_space(s.get_char(j - 1))
        invariant
            i <= j <= len,
            len == s@.len(),
            left == s@.skip(i as int),
            trim_right(left) == trim_right(s@.subrange(i as int, j as int)),
        decreases j,
    {
        assert(s@.subrange(i as int, j as int).drop_last() =~= s@.subrange(i as int, j - 1));
        assert(s@.subrange(i as int, j as int).last() == s@[j - 1]);
        j = j - 1;
    }
    let r = s.substring_char(i, j);
    assert(i < j ==> r@.last() == s@[j - 1]);
    r
}

/// The ASCII letter `c` in lower case; any other character as it is.
pub fn to_ascii_lower(c: char) -> (r: u32)
    ensures
        r == ascii_lower(c) as u32,
{
    let n: u32 = c as u32;
    if 'A' <= c && c <= 'Z' {
        n + 32
    } else {
        n
    }
}

/// Compares two texts, taking an ASCII letter and its other case for the same.
pub fn eq_ignore_ascii_case(a: &str, b: &str) -> (r: bool)
    ensures
        r == same_ignoring_case(a@, b@),
{
    let n: usize = a.unicode_len();
    if n != b.unicode_len() {
        return false;
    }
    let mut i: usize = 0;
    while i < n
        invariant
            i <= n,
            n == a@.len(),
            n == b@.len(),
            forall|j: int| 0 <= j < i ==> ascii_lower(#[trigger] a@[j]) == ascii_lower(b@[j]),
        decreases n - i,
    {
        if to_ascii_lower(a.get_char(i)) != to_ascii_lower(b.get_char(i)) {
            assert(ascii_lower(a@[i as int]) != ascii_lower(b@[i as int]));
            return false;
        }
        i = i + 1;
    }
    true
}

/// Replaces each `pattern` in `s` by `with`.
pub fn replace(s: &str, pattern: &str, with: &str) -> (r: String)
    requires
        pattern@.len() > 0,
    ensures
        r@ == replaced(s@, pattern@, with@),
{
    let len: usize = s.unicode_len();
    let n: usize = pattern.unicode_len();
    let mut out = String::new();
    let mut i: usize = 0;
    assert(s@.skip(0) =~= s@);
    assert(out@ + replaced(s@, pattern@, with@) =~= replaced(s@, pattern@, with@));
    while i < len
        invariant
            i <= len,
            len == s@.len(),
            n == pattern@.len(),
            n > 0,
            replaced(s@, pattern@, with@) == out@ + replaced(s@.skip(i as int), pattern@, with@),
        decreases len - i,
    {
        let rest = s.substring_char(i, len);
        assert(rest@ =~= s@.skip(i as int));
        let ghost prior = out@;
        match strip_prefix(rest, pattern) {
            Some(_) => {
                out.append(with);
                assert(s@.skip(i as int).skip(n as int) =~= s@.skip(i + n));
                i = i + n;
            },
            None => {
                let c = s.substring_char(i, i + 1);
                out.append(c);
                assert(c@ =~= seq![s@.skip(i as int)[0]]);
                assert(s@.skip(i as int).drop_first() =~= s@.skip(i + 1));
                i = i + 1;
            },
        }
        assert(out@ + replaced(s@.skip(i as int), pattern@, with@) =~= prior + (out@.skip(
            prior.len() as int,
        ) + replaced(s@.skip(i as int), pattern@, with@)));
        assert(out@.skip(prior.len() as int) + replaced(s@.skip(i as int), pattern@, with@)
            =~= replaced(rest@, pattern@, with@));
    }
    assert(s@.skip(i as int) =~= Seq::empty());
    assert(out@ + Seq::<char>::empty() =~= out@);
    out
}

fn digit(d: u64) -> (r: &'static str)
    requires
        d < 10,
    ensures
        r@ == seq![digit_char(d as nat)],
{
    proof {
        reveal_strlit("0");
        reveal_strlit("1");
        reveal_strlit("2");
        reveal_strlit("3");
        reveal_strlit("4");
        reveal_strlit("5");
        reveal_strlit("6");
        reveal_strlit("7");
        reveal_strlit("8");
        reveal_strlit("9");
    }
    let r = if d == 0 {
        "0"
    } else if d == 1 {
        "1"
    } else if d == 2 {
        "2"
    } else if d == 3 {
        "3"
    } else if d == 4 {
        "4"
    } else if d == 5 {
        "5"
    } else if d == 6 {
        "6"
    } else if d == 7 {
        "7"
    } else if d == 8 {
        "8"
    } else {
        "9"
    };
    assert(r@ =~= seq![digit_char(d as nat)]);
    r
}

/// Writes `n` in decimal notation.
pub fn decimal_text(n: u64) -> (r: String)
    ensures
        r@ == decimal(n as nat),
    decreases n,
{
    let mut r = if n < 10 {
        String::new()
    } else {
        decimal_text(n / 10)
    };
    r.append(digit(n % 10));
    assert(r@ =~= decimal(n as nat));
    r
}

/// Joins `parts` with `sep` between neighbours.
pub fn join(parts: &Vec<String>, sep: &str) -> (r: String)
    ensures
        r@ == joined(texts(parts@), sep@),
{
    let mut r = String::new();
    let mut i: usize = 0;
    let ghost all = texts(parts@);
    while i < parts.len()
        invariant
            i <= parts.len(),
            all == texts(parts@),
            r@ == joined(all.take(i as int), sep@),
        decreases parts.len() - i,
    {
        if i > 0 {
            r.append(sep);
        }
        r.append(parts[i].as_str());
        assert(all.take(i + 1).drop_last() =~= all.take(i as int));
        assert(all.take(i + 1).last() == parts@[i as int]@);
        assert(i == 0 ==> r@ =~= all.take(1)[0]);
        i = i + 1;
    }
    assert(all.take(i as int) =~= all);
    r
}

/// Puts a bullet before each of the lines.
pub fn bullets(lines: &Vec<String>) -> (r: Vec<String>)
    ensures
        texts(r@) == bulleted(texts(lines@)),
{
    let mut r: Vec<String> = Vec::new();
    let mut i: usize = 0;
    while i < lines.len()
        invariant
            i <= lines.len(),
            r@.len() == i,
            forall|j: int| 0 <= j < i ==> #[trigger] r@[j]@ == "\t- "@ + lines@[j]@,
        decreases lines.len() - i,
    {
        r.push(cat("\t- ", lines[i].as_str()));
        i = i + 1;
    }
    assert(texts(r@) =~= bulleted(texts(lines@))) by {
        assert forall|j: int| 0 <= j < r@.len() implies texts(r@)[j] == bulleted(
            texts(lines@),
        )[j] by {
            assert(r@[j]@ == "\t- "@ + lines@[j]@);
        }
    }
    r
}

/// One text after another.
pub fn cat(a: &str, b: &str) -> (r: String)
    ensures
        r@ == a@ + b@,
{
    let mut r = a.to_owned();
    r.append(b);
    r
}

/// Three texts, one after another.
pub fn cat3(a: &str, b: &str, c: &str) -> (r: String)
    ensures
        r@ == a@ + b@ + c@,
{
    let mut r = a.to_owned();
    r.append(b);
    r.append(c);
    r
}

/// Four texts, one after another.
pub fn cat4(a: &str, b: &str, c: &str, d: &str) -> (r: String)
    ensures
        r@ == a@ + b@ + c@ + d@,
{
    let mut r = a.to_owned();
    r.append(b);
    r.append(c);
    r.append(d);
    r
}

/// Five texts, one after another.
pub fn cat5(a: &str, b: &str, c: &str, d: &str, e: &str) -> (r: String)
    ensures
        r@ == a@ + b@ + c@ + d@ + e@,
{
    let mut r = a.to_owned();
    r.append(b);
    r.append(c);
    r.append(d);
    r.append(e);
    r
}

/// Whether `a` comes strictly before `b` in order of code points.
pub fn less(a: &str, b: &str) -> (r: bool)
    ensures
        r == before(a@, b@),
{
    let n: usize = a.unicode_len();
    let m: usize = b.unicode_len();
    let mut i: usize = 0;
    assert(a@.skip(0) =~= a@);
    assert(b@.skip(0) =~= b@);
    while i < n && i < m
        invariant
            i <= n,
            i <= m,
            n == a@.len(),
            m == b@.len(),
            before(a@, b@) == before(a@.skip(i as int), b@.skip(i as int)),
        decreases n - i,
    {
        let x = a.get_char(i);
        let y = b.get_char(i);
        if x != y {
            return x < y;
        }
        assert(a@.skip(i as int).drop_first() =~= a@.skip(i + 1));
        assert(b@.skip(i as int).drop_first() =~= b@.skip(i + 1));
        i = i + 1;
    }
    i < m
}

/// Dropping a character at the start of a text leaves what comes behind all of them.
pub proof fn what_is_dropped(s: Seq<char>, c: char, n: int)
    requires
        0 <= n <= s.len(),
        forall|i: int| 0 <= i < n ==> #[trigger] s[i] == c,
        n < s.len() ==> s[n] != c,
    ensures
        drop_leading(s, c) == s.skip(n),
    decreases n,
{
    if n > 0 {
        assert(s[0] == c);
        let rest = s.drop_first();
        assert forall|i: int| 0 <= i < n - 1 implies #[trigger] rest[i] == c by {
            assert(rest[i] == s[i + 1]);
        }
        what_is_dropped(rest, c, n - 1);
        assert(rest.skip(n - 1) =~= s.skip(n));
    } else {
        assert(s.skip(0) =~= s);
    }
}

/// A text that is cut at a character is cut at the first one: the part before holds none of
/// them, and the two parts with one between them make up the text. It is not cut if and only
/// if it holds none.
pub proof fn where_texts_are_cut(s: Seq<char>, c: char)
    ensures
        match cut(s, c) {
            Some((head, rest)) => s == head + seq![c] + rest && !head.contains(c),
            None => !s.contains(c),
        },
{
    lemma_lead_len(s, c);
    let n = lead_len(s, c) as int;
    if n < s.len() {
        assert(s =~= s.take(n) + seq![c] + s.skip(n + 1));
        assert forall|i: int| 0 <= i < n implies s.take(n)[i] != c by {
            assert(s.take(n)[i] == s[i]);
        }
    }
}

/// Two texts that are the same but for their case have, in each place, the same character or
/// the two cases of one ASCII letter, and all such texts are the same but for their case.
pub proof fn only_the_case_of_letters_is_ignored(a: Seq<char>, b: Seq<char>)
    ensures
        same_ignoring_case(a, b) <==> a.len() == b.len() && forall|i: int|
            0 <= i < a.len() ==> {
                ||| #[trigger] a[i] == b[i]
                ||| 'A' <= a[i] && a[i] <= 'Z' && b[i] as u32 == a[i] as u32 + 32
                ||| 'A' <= b[i] && b[i] <= 'Z' && a[i] as u32 == b[i] as u32 + 32
            },
{
    assert forall|x: char, y: char|
        (#[trigger] ascii_lower(x) == #[trigger] ascii_lower(y)) <==> (x == y || ('A' <= x && x
            <= 'Z' && y as u32 == x as u32 + 32) || ('A' <= y && y <= 'Z' && x as u32 == y as u32
            + 32)) by {}
    if same_ignoring_case(a, b) {
        assert forall|i: int| 0 <= i < a.len() implies {
            ||| #[trigger] a[i] == b[i]
            ||| 'A' <= a[i] && a[i] <= 'Z' && b[i] as u32 == a[i] as u32 + 32
            ||| 'A' <= b[i] && b[i] <= 'Z' && a[i] as u32 == b[i] as u32 + 32
        } by {
            assert(ascii_lower(a[i]) == ascii_lower(b[i]));
        }
    }
}

/// Trimming takes white space away from both ends of a text and nothing else: what is left
/// neither starts nor ends with white space, and what was before and behind it is white
/// space.
pub proof fn what_is_trimmed(s: Seq<char>)
    ensures
        exists|a: int, b: int|
            0 <= a <= b <= s.len() && trimmed(s) == #[trigger] s.subrange(a, b) && (forall|i: int|
                0 <= i < a || b <= i < s.len() ==> is_space(#[trigger] s[i])),
        trimmed(s).len() > 0 ==> !is_space(trimmed(s)[0]) && !is_space(trimmed(s).last()),
{
    let left = trim_left(s);
    lemma_trim_left(s);
    lemma_trim_right(left);
    let a = s.len() - left.len();
    let b = a + trim_right(left).len();
    assert(trimmed(s) =~= s.subrange(a, b)) by {
        assert(left == s.skip(a));
    }
    assert forall|i: int| 0 <= i < a || b <= i < s.len() implies is_space(#[trigger] s[i]) by {
        if b <= i {
            assert(left[i - a] == s[i]);
        }
    }
    if trimmed(s).len() > 0 {
        assert(trimmed(s)[0] == left[0]);
    }
}

proof fn lemma_trim_left(s: Seq<char>)
    ensures
        trim_left(s).len() <= s.len(),
        trim_left(s) == s.skip(s.len() - trim_left(s).len()),
        forall|i: int| 0 <= i < s.len() - trim_left(s).len() ==> is_space(#[trigger] s[i]),
        trim_left(s).len() > 0 ==> !is_space(trim_left(s)[0]),
    decreases s.len(),
{
    if s.len() > 0 && is_space(s[0]) {
        let rest = s.drop_first();
        lemma_trim_left(rest);
        assert(s.skip(s.len() - trim_left(s).len()) =~= rest.skip(
            rest.len() - trim_left(rest).len(),
        ));
        assert forall|i: int| 0 <= i < s.len() - trim_left(s).len() implies is_space(
            #[trigger] s[i],
        ) by {
            if i > 0 {
                assert(rest[i - 1] == s[i]);
            }
        }
    } else {
        assert(s.skip(0) =~= s);
    }
}

proof fn lemma_trim_right(s: Seq<char>)
    ensures
        trim_right(s).len() <= s.len(),
        trim_right(s) == s.take(trim_right(s).len() as int),
        forall|i: int| trim_right(s).len() <= i < s.len() ==> is_space(#[trigger] s[i]),
        trim_right(s).len() > 0 ==> !is_space(trim_right(s).last()),
    decreases s.len(),
{
    if s.len() > 0 && is_space(s.last()) {
        let rest = s.drop_last();
        lemma_trim_right(rest);
        assert(s.take(trim_right(s).len() as int) =~= rest.take(trim_right(rest).len() as int));
        assert forall|i: int| trim_right(s).len() <= i < s.len() implies is_space(
            #[trigger] s[i],
        ) by {
            if i < rest.len() {
                assert(rest[i] == s[i]);
            }
        }
    } else {
        assert(s.take(s.len() as int) =~= s);
    }
}

/// What a list of texts is joined to: nothing where it is empty, the text where there is one,
/// and else the first ones joined, the separator and the last one.
pub proof fn how_texts_are_joined(parts: Seq<Seq<char>>, last: Seq<char>, sep: Seq<char>)
    ensures
        joined(Seq::<Seq<char>>::empty(), sep).len() == 0,
        joined(seq![last], sep) == last,
        parts.len() > 0 ==> joined(parts.push(last), sep) == joined(parts, sep) + sep + last,
{
    if parts.len() > 0 {
        assert(parts.push(last).drop_last() =~= parts);
    }
}

/// The decimal notation of a number has the value of the number: it consists of digits, the
/// last one stands for what is left by ten, and those before it for the tenth part.
pub proof fn notation_of_numbers(n: nat)
    ensures
        n < 10 ==> decimal(n).len() == 1 && decimal(n)[0] as u32 == 48 + n,
        n >= 10 ==> decimal(n).drop_last() == decimal(n / 10) && decimal(n).last() as u32 == 48 + n
            % 10,
{
    if n >= 10 {
        assert(decimal(n).drop_last() =~= decimal(n / 10));
    }
}

/// Where a text starts with the pattern, what replaces it comes first, and the rest follows
/// with each pattern in it replaced. Where it does not, its first character stays.
pub proof fn each_pattern_is_replaced(
    s: Seq<char>,
    pattern: Seq<char>,
    with: Seq<char>,
    c: char,
)
    requires
        pattern.len() > 0,
    ensures
        replaced(pattern + s, pattern, with) == with + replaced(s, pattern, with),
        !pattern.is_prefix_of(seq![c] + s) ==> replaced(seq![c] + s, pattern, with) == seq![c]
            + replaced(s, pattern, with),
        replaced(Seq::<char>::empty(), pattern, with).len() == 0,
{
    let t = pattern + s;
    assert(t.subrange(0, pattern.len() as int) =~= pattern);
    assert(pattern.is_prefix_of(t));
    assert(t.skip(pattern.len() as int) =~= s);
    assert((seq![c] + s).drop_first() =~= s);
}

/// The usual white space is white space, and no letter, digit or other visible character of
/// ASCII is.
pub proof fn usual_white_space(c: char)
    requires
        (c as u32) < 128,
    ensures
        is_space(c) <==> c == ' ' || c == '\t' || c == '\n' || c == '\r' || c as u32 == 11 || c
            as u32 == 12,
{
}

} // verus!
