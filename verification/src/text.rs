//! Text primitives over `Seq<char>`: the model of every string in this crate.

use vstd::prelude::*;
use vstd::string::*;

verus! {

/// `String::push` of std: appends one character.
pub assume_specification[ String::push ](s: &mut String, c: char)
    ensures
        final(s)@ == old(s)@.push(c),
;

/// A character with the Unicode property White_Space.
pub open spec fn is_space(c: char) -> bool {
    ||| '\u{9}' <= c <= '\u{d}'
    ||| c == ' '
    ||| c == '\u{85}'
    ||| c == '\u{a0}'
    ||| c == '\u{1680}'
    ||| '\u{2000}' <= c <= '\u{200a}'
    ||| c == '\u{2028}'
    ||| c == '\u{2029}'
    ||| c == '\u{202f}'
    ||| c == '\u{205f}'
    ||| c == '\u{3000}'
}

/// Tells white space from other characters.
pub fn space(c: char) -> (r: bool)
    ensures
        r == is_space(c),
{
    ('\u{9}' <= c && c <= '\u{d}') || c == ' ' || c == '\u{85}' || c == '\u{a0}' || c == '\u{1680}'
        || ('\u{2000}' <= c && c <= '\u{200a}') || c == '\u{2028}' || c == '\u{2029}' || c
        == '\u{202f}' || c == '\u{205f}' || c == '\u{3000}'
}

/// The characters of a string, in order.
pub fn chars(s: &str) -> (r: Vec<char>)
    ensures
        r@ == s@,
{
    let mut r: Vec<char> = Vec::new();
    for c in it: s.chars()
        invariant
            it.seq() == s@,
            r@ == s@.take(it.index() as int),
    {
        r.push(c);
    }
    r
}

/// The string made of the characters from `from` up to `to`.
pub fn slice(cs: &Vec<char>, from: usize, to: usize) -> (r: String)
    requires
        from <= to <= cs@.len(),
    ensures
        r@ == cs@.subrange(from as int, to as int),
{
    let mut r = String::new();
    let mut i: usize = from;
    while i < to
        invariant
            from <= i <= to <= cs@.len(),
            r@ == cs@.subrange(from as int, i as int),
        decreases to - i,
    {
        r.push(cs[i]);
        i = i + 1;
        assert(cs@.subrange(from as int, i as int) =~= cs@.subrange(from as int, i - 1).push(
            cs@[i - 1],
        ));
    }
    r
}

/// Whether two strings hold the same characters.
pub fn same(a: &str, b: &str) -> (r: bool)
    ensures
        r == (a@ == b@),
{
    a.to_owned() == b.to_owned()
}

/// Where `c` first stands in `s`; the length of `s` where it does not.
pub open spec fn position(s: Seq<char>, c: char) -> nat
    decreases s.len(),
{
    if s.len() == 0 || s[0] == c {
        0
    } else {
        1 + position(s.skip(1), c)
    }
}

/// What `position` says: no `c` before it, and `c` at it where it is in range.
pub proof fn lemma_position(s: Seq<char>, c: char)
    ensures
        position(s, c) <= s.len(),
        position(s, c) < s.len() ==> s[position(s, c) as int] == c,
        forall|i: int| 0 <= i < position(s, c) ==> s[i] != c,
    decreases s.len(),
{
    if s.len() != 0 && s[0] != c {
        lemma_position(s.skip(1), c);
        assert forall|i: int| 0 <= i < position(s, c) implies s[i] != c by {
            if i > 0 {
                assert(s[i] == s.skip(1)[i - 1]);
            }
        }
    }
}

/// A place before which there is no `c`, and which holds `c` or is the end, is the position.
pub proof fn lemma_position_is(s: Seq<char>, c: char, p: nat)
    requires
        p <= s.len(),
        p < s.len() ==> s[p as int] == c,
        forall|i: int| 0 <= i < p ==> s[i] != c,
    ensures
        position(s, c) == p,
{
    lemma_position(s, c);
}

/// Where `c` first stands among the characters from `from` on; the length where it does not.
pub fn find(cs: &Vec<char>, from: usize, c: char) -> (r: usize)
    requires
        from <= cs@.len(),
    ensures
        r == from + position(cs@.skip(from as int), c),
        from <= r <= cs@.len(),
{
    let mut i: usize = from;
    while i < cs.len() && cs[i] != c
        invariant
            from <= i <= cs@.len(),
            forall|j: int| from <= j < i ==> cs@[j] != c,
        decreases cs@.len() - i,
    {
        i = i + 1;
    }
    proof {
        lemma_position_is(cs@.skip(from as int), c, (i - from) as nat);
    }
    i
}

/// The two parts of `s` around the first `c`, if there is one.
pub open spec fn split_at_first(s: Seq<char>, c: char) -> Option<(Seq<char>, Seq<char>)> {
    let p = position(s, c) as int;
    if p < s.len() {
        Some((s.take(p), s.skip(p + 1)))
    } else {
        None
    }
}

/// Splits a string around the first `c`.
pub fn split_once(s: &str, c: char) -> (r: Option<(String, String)>)
    ensures
        match r {
            Some((a, b)) => split_at_first(s@, c) == Some((a@, b@)),
            None => split_at_first(s@, c) is None,
        },
{
    let cs = chars(s);
    let p = find(&cs, 0, c);
    assert(cs@.skip(0) =~= cs@);
    if p < cs.len() {
        let a = slice(&cs, 0, p);
        let b = slice(&cs, p + 1, cs.len());
        assert(a@ =~= s@.take(p as int));
        assert(b@ =~= s@.skip(p + 1));
        Some((a, b))
    } else {
        None
    }
}

/// `s` without its leading white space.
pub open spec fn trim_start(s: Seq<char>) -> Seq<char>
    decreases s.len(),
{
    if s.len() > 0 && is_space(s[0]) {
        trim_start(s.skip(1))
    } else {
        s
    }
}

/// `s` without its trailing white space.
pub open spec fn trim_end(s: Seq<char>) -> Seq<char>
    decreases s.len(),
{
    if s.len() > 0 && is_space(s.last()) {
        trim_end(s.drop_last())
    } else {
        s
    }
}

/// `s` without white space at either end.
pub open spec fn trimmed(s: Seq<char>) -> Seq<char> {
    trim_end(trim_start(s))
}

/// Cuts white space off both ends of a string.
pub fn trim(s: &str) -> (r: String)
    ensures
        r@ == trimmed(s@),
{
    let cs = chars(s);
    let n = cs.len();
    let mut from: usize = 0;
    proof {
        assert(s@.skip(0) =~= s@);
    }
    while from < n && space(cs[from])
        invariant
            n == cs@.len(),
            cs@ == s@,
            from <= n,
            trim_start(s@) == trim_start(s@.skip(from as int)),
        decreases n - from,
    {
        assert(s@.skip(from as int).skip(1) =~= s@.skip(from + 1));
        from = from + 1;
    }
    let mut to: usize = n;
    proof {
        assert(s@.subrange(from as int, n as int) =~= s@.skip(from as int));
    }
    while from < to && space(cs[to - 1])
        invariant
            n == cs@.len(),
            cs@ == s@,
            from <= to <= n,
            trimmed(s@) == trim_end(s@.subrange(from as int, to as int)),
        decreases to - from,
    {
        assert(s@.subrange(from as int, to as int).drop_last() =~= s@.subrange(
            from as int,
            to - 1,
        ));
        to = to - 1;
    }
    slice(&cs, from, to)
}

/// How many characters stand before the first white space.
pub open spec fn word_len(s: Seq<char>) -> nat
    decreases s.len(),
{
    if s.len() == 0 || is_space(s[0]) {
        0
    } else {
        1 + word_len(s.skip(1))
    }
}

/// A word ends within the text.
pub proof fn lemma_word_len(s: Seq<char>)
    ensures
        word_len(s) <= s.len(),
        word_len(s) < s.len() ==> is_space(s[word_len(s) as int]),
        forall|i: int| 0 <= i < word_len(s) ==> !is_space(s[i]),
    decreases s.len(),
{
    if s.len() != 0 && !is_space(s[0]) {
        lemma_word_len(s.skip(1));
        assert forall|i: int| 0 <= i < word_len(s) implies !is_space(s[i]) by {
            if i > 0 {
                assert(s[i] == s.skip(1)[i - 1]);
            }
        }
    }
}

/// The maximal runs of characters that are not white space, in order.
pub open spec fn words(s: Seq<char>) -> Seq<Seq<char>>
    decreases s.len(),
{
    if s.len() == 0 {
        Seq::empty()
    } else if is_space(s[0]) {
        words(s.skip(1))
    } else {
        proof {
            lemma_word_len(s);
        }
        seq![s.take(word_len(s) as int)] + words(s.skip(word_len(s) as int))
    }
}

/// What a list of strings holds.
pub open spec fn texts(v: Seq<String>) -> Seq<Seq<char>> {
    v.map_values(|s: String| s@)
}

/// Splits a string into its words.
pub fn split_words(s: &str) -> (r: Vec<String>)
    ensures
        texts(r@) == words(s@),
{
    let cs = chars(s);
    let n = cs.len();
    let mut r: Vec<String> = Vec::new();
    let mut i: usize = 0;
    proof {
        assert(s@.skip(0) =~= s@);
        assert(texts(r@) + words(s@) =~= words(s@));
    }
    while i < n
        invariant
            n == cs@.len(),
            cs@ == s@,
            i <= n,
            texts(r@) + words(s@.skip(i as int)) == words(s@),
        decreases n - i,
    {
        let ghost rest = s@.skip(i as int);
        if space(cs[i]) {
            assert(rest.skip(1) =~= s@.skip(i + 1));
            i = i + 1;
        } else {
            let mut j: usize = i + 1;
            while j < n && !space(cs[j])
                invariant
                    n == cs@.len(),
                    cs@ == s@,
                    i < j <= n,
                    forall|k: int| i <= k < j ==> !is_space(cs@[k]),
                decreases n - j,
            {
                j = j + 1;
            }
            let ghost before = texts(r@);
            let w = slice(&cs, i, j);
            proof {
                lemma_word_len(rest);
                let n0 = word_len(rest) as int;
                assert(n0 < j - i ==> rest[n0] == cs@[i + n0]);
                assert(n0 > j - i ==> rest[j - i] == cs@[j as int]);
                assert(n0 == j - i);
                assert(rest.take(j - i) =~= w@);
                assert(rest.skip(j - i) =~= s@.skip(j as int));
            }
            r.push(w);
            proof {
                assert(texts(r@) =~= before.push(w@));
                assert(before + (seq![w@] + words(s@.skip(j as int))) =~= before.push(w@) + words(
                    s@.skip(j as int),
                ));
            }
            i = j;
        }
    }
    proof {
        assert(texts(r@) + words(s@.skip(n as int)) =~= texts(r@));
    }
    r
}

/// The pieces of `s` between the occurrences of `c`.
pub open spec fn pieces(s: Seq<char>, c: char) -> Seq<Seq<char>>
    decreases s.len(),
{
    proof {
        lemma_position(s, c);
    }
    let p = position(s, c) as int;
    if p < s.len() {
        seq![s.take(p)] + pieces(s.skip(p + 1), c)
    } else {
        seq![s]
    }
}

/// Splits a string at every `c`.
pub fn split(s: &str, c: char) -> (r: Vec<String>)
    ensures
        texts(r@) == pieces(s@, c),
{
    let cs = chars(s);
    let n = cs.len();
    let mut r: Vec<String> = Vec::new();
    let mut i: usize = 0;
    let mut p: usize = find(&cs, 0, c);
    proof {
        assert(s@.skip(0) =~= s@);
        assert(texts(r@) + pieces(s@, c) =~= pieces(s@, c));
    }
    while p < n
        invariant
            n == cs@.len(),
            cs@ == s@,
            i <= p <= n,
            p == i + position(s@.skip(i as int), c),
            texts(r@) + pieces(s@.skip(i as int), c) == pieces(s@, c),
        decreases n - p,
    {
        let ghost rest = s@.skip(i as int);
        let ghost before = texts(r@);
        let w = slice(&cs, i, p);
        proof {
            assert(rest.take(p - i) =~= w@);
            assert(rest.skip(p - i + 1) =~= s@.skip(p + 1));
        }
        r.push(w);
        proof {
            assert(texts(r@) =~= before.push(w@));
            assert(before + (seq![w@] + pieces(s@.skip(p + 1), c)) =~= before.push(w@) + pieces(
                s@.skip(p + 1),
                c,
            ));
        }
        i = p + 1;
        p = find(&cs, i, c);
    }
    let ghost before = texts(r@);
    let w = slice(&cs, i, n);
    proof {
        assert(s@.skip(i as int) =~= w@);
    }
    r.push(w);
    proof {
        assert(texts(r@) =~= before.push(w@));
        assert(before + seq![w@] =~= before.push(w@));
    }
    r
}

/// Whether `s` begins with `prefix`.
pub open spec fn starts_with(s: Seq<char>, prefix: Seq<char>) -> bool {
    &&& prefix.len() <= s.len()
    &&& s.take(prefix.len() as int) == prefix
}

/// What follows `prefix` in a string that begins with it.
pub fn strip_prefix(s: &str, prefix: &str) -> (r: Option<String>)
    ensures
        r is Some <==> starts_with(s@, prefix@),
        r matches Some(rest) ==> rest@ == s@.skip(prefix@.len() as int),
{
    let cs = chars(s);
    let ps = chars(prefix);
    if ps.len() > cs.len() {
        return None;
    }
    let mut i: usize = 0;
    while i < ps.len()
        invariant
            ps@.len() <= cs@.len(),
            ps@ == prefix@,
            cs@ == s@,
            i <= ps@.len(),
            forall|j: int| 0 <= j < i ==> cs@[j] == ps@[j],
        decreases ps@.len() - i,
    {
        if cs[i] != ps[i] {
            assert(s@.take(prefix@.len() as int)[i as int] == cs@[i as int]);
            return None;
        }
        i = i + 1;
    }
    let rest = slice(&cs, ps.len(), cs.len());
    proof {
        assert(s@.take(prefix@.len() as int) =~= prefix@);
        assert(rest@ =~= s@.skip(prefix@.len() as int));
    }
    Some(rest)
}

/// The lower-case form of an ASCII letter; any other character as it is.
pub open spec fn ascii_lower(c: char) -> char {
    if 'A' <= c <= 'Z' {
        (c as u8 + 32) as char
    } else {
        c
    }
}

/// `s` with its ASCII letters in lower case.
pub open spec fn lower(s: Seq<char>) -> Seq<char> {
    s.map_values(|c: char| ascii_lower(c))
}

/// Puts an ASCII letter in lower case.
pub fn to_lower(c: char) -> (r: char)
    ensures
        r == ascii_lower(c),
{
    if 'A' <= c && c <= 'Z' {
        (c as u8 + 32) as char
    } else {
        c
    }
}

/// Whether two strings are the same but for the case of ASCII letters.
pub fn same_ignoring_case(a: &str, b: &str) -> (r: bool)
    ensures
        r == (lower(a@) == lower(b@)),
{
    let x = chars(a);
    let y = chars(b);
    if x.len() != y.len() {
        assert(lower(a@).len() != lower(b@).len());
        return false;
    }
    let mut i: usize = 0;
    while i < x.len()
        invariant
            x@ == a@,
            y@ == b@,
            x@.len() == y@.len(),
            i <= x@.len(),
            forall|j: int| 0 <= j < i ==> ascii_lower(x@[j]) == ascii_lower(y@[j]),
        decreases x@.len() - i,
    {
        if to_lower(x[i]) != to_lower(y[i]) {
            assert(lower(a@)[i as int] != lower(b@)[i as int]);
            return false;
        }
        i = i + 1;
    }
    assert(lower(a@) =~= lower(b@));
    true
}

/// The parts in order, with `sep` between each two.
pub open spec fn joined(parts: Seq<Seq<char>>, sep: Seq<char>) -> Seq<char>
    decreases parts.len(),
{
    if parts.len() == 0 {
        Seq::empty()
    } else if parts.len() == 1 {
        parts[0]
    } else {
        joined(parts.drop_last(), sep) + sep + parts.last()
    }
}

/// Joins strings with a separator.
pub fn join(parts: &Vec<String>, sep: &str) -> (r: String)
    ensures
        r@ == joined(texts(parts@), sep@),
{
    let mut r = String::new();
    let ghost all = texts(parts@);
    let mut i: usize = 0;
    while i < parts.len()
        invariant
            i <= parts@.len(),
            all == texts(parts@),
            r@ == joined(all.take(i as int), sep@),
        decreases parts@.len() - i,
    {
        if i > 0 {
            r.append(sep);
        }
        r.append(parts[i].as_str());
        proof {
            let next = all.take(i + 1);
            assert(next.drop_last() =~= all.take(i as int));
            assert(next.last() == parts@[i as int]@);
        }
        i = i + 1;
    }
    assert(all.take(parts@.len() as int) =~= all);
    r
}

/// `s` without the `c`s at its end.
pub open spec fn without_trailing(s: Seq<char>, c: char) -> Seq<char>
    decreases s.len(),
{
    if s.len() > 0 && s.last() == c {
        without_trailing(s.drop_last(), c)
    } else {
        s
    }
}

/// Cuts every `c` off the end of a string.
pub fn trim_trailing(s: &str, c: char) -> (r: String)
    ensures
        r@ == without_trailing(s@, c),
{
    let cs = chars(s);
    let mut to: usize = cs.len();
    proof {
        assert(s@.take(to as int) =~= s@);
    }
    while to > 0 && cs[to - 1] == c
        invariant
            cs@ == s@,
            to <= cs@.len(),
            without_trailing(s@, c) == without_trailing(s@.take(to as int), c),
        decreases to,
    {
        assert(s@.take(to as int).drop_last() =~= s@.take(to - 1));
        to = to - 1;
    }
    let r = slice(&cs, 0, to);
    assert(r@ =~= s@.take(to as int));
    r
}

/// Whether the character `c` stands in a string.
pub fn has_char(s: &str, c: char) -> (r: bool)
    ensures
        r == s@.contains(c),
{
    let cs = chars(s);
    let p = find(&cs, 0, c);
    proof {
        assert(cs@.skip(0) =~= cs@);
        lemma_position(s@, c);
    }
    p < cs.len()
}

/// Whether a string stands in a list of strings.
pub fn has_text(list: &Vec<String>, s: &str) -> (r: bool)
    ensures
        r == texts(list@).contains(s@),
{
    let mut i: usize = 0;
    while i < list.len()
        invariant
            i <= list@.len(),
            forall|j: int| 0 <= j < i ==> list@[j]@ != s@,
        decreases list@.len() - i,
    {
        if same(list[i].as_str(), s) {
            assert(texts(list@)[i as int] == s@);
            return true;
        }
        i = i + 1;
    }
    false
}

/// The character of a decimal digit.
pub open spec fn digit(d: nat) -> char {
    (48 + d) as u8 as char
}

/// The decimal form of a number, without leading zeros.
pub open spec fn decimal(n: nat) -> Seq<char>
    decreases n,
{
    if n < 10 {
        seq![digit(n)]
    } else {
        decimal(n / 10).push(digit(n % 10))
    }
}

/// Writes a number in decimal.
pub fn number(n: u64) -> (r: String)
    ensures
        r@ == decimal(n as nat),
    decreases n,
{
    let mut r = if n < 10 {
        String::new()
    } else {
        number(n / 10)
    };
    r.push((48 + (n % 10) as u8) as char);
    assert(n < 10 ==> r@ =~= seq![digit(n as nat)]);
    r
}

/// Whether every character is a decimal digit.
pub open spec fn all_digits(s: Seq<char>) -> bool {
    forall|i: int| 0 <= i < s.len() ==> '0' <= #[trigger] s[i] <= '9'
}

/// The number that a row of digits stands for.
pub open spec fn digits_value(s: Seq<char>) -> nat
    decreases s.len(),
{
    if s.len() == 0 {
        0
    } else {
        digits_value(s.drop_last()) * 10 + (s.last() as nat - 48) as nat
    }
}

/// `s` without one leading plus sign.
pub open spec fn unsigned(s: Seq<char>) -> Seq<char> {
    if s.len() > 0 && s[0] == '+' {
        s.skip(1)
    } else {
        s
    }
}

/// The number up to `max` that a text denotes: an optional plus sign, then digits and nothing else.
pub open spec fn denoted(s: Seq<char>, max: nat) -> Option<nat> {
    let digits = unsigned(s);
    if digits.len() > 0 && all_digits(digits) && digits_value(digits) <= max {
        Some(digits_value(digits))
    } else {
        None
    }
}

/// A row of digits stands for no less than any beginning of it.
proof fn lemma_digits_value_grows(s: Seq<char>, i: int)
    requires
        all_digits(s),
        0 <= i <= s.len(),
    ensures
        digits_value(s.take(i)) <= digits_value(s),
    decreases s.len(),
{
    if i == s.len() {
        assert(s.take(i) =~= s);
    } else {
        let t = s.drop_last();
        assert(t.take(i) =~= s.take(i));
        assert forall|k: int| 0 <= k < t.len() implies '0' <= #[trigger] t[k] <= '9' by {
            assert(t[k] == s[k]);
        }
        lemma_digits_value_grows(t, i);
    }
}

/// Reads a decimal number that is at most `max`.
pub fn parse_number(s: &str, max: u64) -> (r: Option<u64>)
    ensures
        match r {
            Some(n) => denoted(s@, max as nat) == Some(n as nat),
            None => denoted(s@, max as nat) is None,
        },
{
    let cs = chars(s);
    let from: usize = if cs.len() > 0 && cs[0] == '+' {
        1
    } else {
        0
    };
    let ghost digits = unsigned(s@);
    proof {
        assert(digits =~= s@.skip(from as int));
        assert(digits.take(0) =~= Seq::<char>::empty());
    }
    if from == cs.len() {
        return None;
    }
    let mut i: usize = from;
    let mut n: u64 = 0;
    while i < cs.len()
        invariant
            cs@ == s@,
            from <= i <= cs@.len(),
            from <= 1,
            digits == s@.skip(from as int),
            digits == unsigned(s@),
            n <= max,
            n == digits_value(digits.take(i - from)),
            all_digits(digits.take(i - from)),
        decreases cs@.len() - i,
    {
        let c = cs[i];
        if c < '0' || c > '9' {
            assert(digits[i - from] == c);
            return None;
        }
        let d = c as u64 - 48;
        let ghost next = digits.take(i - from + 1);
        proof {
            assert(next.drop_last() =~= digits.take(i - from));
            assert(next.last() == c);
            assert forall|k: int| 0 <= k < next.len() implies '0' <= #[trigger] next[k] <= '9' by {
                if k < i - from {
                    assert(next[k] == digits.take(i - from)[k]);
                }
            }
            if n * 10 + d > max && all_digits(digits) {
                lemma_digits_value_grows(digits, i - from + 1);
            }
        }
        match n.checked_mul(10) {
            Some(m) => match m.checked_add(d) {
                Some(k) => {
                    if k > max {
                        return None;
                    }
                    n = k;
                },
                None => {
                    return None;
                },
            },
            None => {
                return None;
            },
        }
        i = i + 1;
    }
    assert(digits.take(digits.len() as int) =~= digits);
    Some(n)
}

// What the functions of this module are for.

/// A text that is split once is the first part, the character, and the second part, and the
/// first part does not hold the character; a text that is not split does not hold it at all.
pub proof fn law_split_once(s: Seq<char>, c: char)
    ensures
        match split_at_first(s, c) {
            Some((a, b)) => s == a + seq![c] + b && !a.contains(c),
            None => !s.contains(c),
        },
{
    lemma_position(s, c);
    let p = position(s, c) as int;
    if p < s.len() {
        assert(s =~= s.take(p) + seq![c] + s.skip(p + 1));
        assert forall|i: int| 0 <= i < s.take(p).len() implies s.take(p)[i] != c by {
            assert(s.take(p)[i] == s[i]);
        }
    }
}

/// Where a text begins with its trimmed start.
proof fn lemma_trim_start(s: Seq<char>) -> (from: int)
    ensures
        0 <= from <= s.len(),
        trim_start(s) == s.skip(from),
        forall|k: int| 0 <= k < from ==> is_space(s[k]),
        from < s.len() ==> !is_space(s[from]),
    decreases s.len(),
{
    if s.len() > 0 && is_space(s[0]) {
        let n = lemma_trim_start(s.skip(1));
        assert(s.skip(1).skip(n) =~= s.skip(n + 1));
        assert forall|k: int| 0 <= k < n + 1 implies is_space(s[k]) by {
            if k > 0 {
                assert(s[k] == s.skip(1)[k - 1]);
            }
        }
        if n < s.skip(1).len() {
            assert(s.skip(1)[n] == s[n + 1]);
        }
        n + 1
    } else {
        assert(s.skip(0) =~= s);
        0
    }
}

/// Where a text ends with its trimmed end.
proof fn lemma_trim_end(s: Seq<char>) -> (to: int)
    ensures
        0 <= to <= s.len(),
        trim_end(s) == s.take(to),
        forall|k: int| to <= k < s.len() ==> is_space(s[k]),
        to > 0 ==> !is_space(s[to - 1]),
    decreases s.len(),
{
    if s.len() > 0 && is_space(s.last()) {
        let t = s.drop_last();
        let n = lemma_trim_end(t);
        assert(t.take(n) =~= s.take(n));
        assert forall|k: int| n <= k < s.len() implies is_space(s[k]) by {
            if k < t.len() {
                assert(t[k] == s[k]);
            }
        }
        if n > 0 {
            assert(t[n - 1] == s[n - 1]);
        }
        n
    } else {
        assert(s.take(s.len() as int) =~= s);
        s.len() as int
    }
}

/// Trimming cuts off white space and nothing else, and leaves none at either end.
pub proof fn law_trim(s: Seq<char>)
    ensures
        exists|from: int, to: int|
            {
                &&& 0 <= from <= to <= s.len()
                &&& trimmed(s) == #[trigger] s.subrange(from, to)
                &&& forall|k: int| 0 <= k < from ==> is_space(s[k])
                &&& forall|k: int| to <= k < s.len() ==> is_space(s[k])
            },
        trimmed(s).len() > 0 ==> !is_space(trimmed(s)[0]) && !is_space(trimmed(s).last()),
{
    let from = lemma_trim_start(s);
    let t = s.skip(from);
    let n = lemma_trim_end(t);
    let to = from + n;
    assert(t.take(n) =~= s.subrange(from, to));
    assert forall|k: int| to <= k < s.len() implies is_space(s[k]) by {
        assert(s[k] == t[k - from]);
    }
    if n > 0 {
        assert(s.subrange(from, to)[0] == s[from]);
        assert(s.subrange(from, to).last() == t[n - 1]);
    }
}

/// White space parts words: the words of two texts around it are those of the one, then
/// those of the other.
pub proof fn law_white_space_parts_words(a: Seq<char>, c: char, b: Seq<char>)
    requires
        is_space(c),
    ensures
        words(a + seq![c] + b) == words(a) + words(b),
    decreases a.len(),
{
    let s = a + seq![c] + b;
    if a.len() == 0 {
        assert(s.skip(1) =~= b);
        assert(words(a) + words(b) =~= words(b));
    } else if is_space(a[0]) {
        assert(s.skip(1) =~= a.skip(1) + seq![c] + b);
        law_white_space_parts_words(a.skip(1), c, b);
    } else {
        lemma_word_len(a);
        lemma_word_len(s);
        let n = word_len(a) as int;
        let m = word_len(s) as int;
        assert(n > 0);
        assert(n < a.len() ==> s[n] == a[n]);
        assert(n == a.len() ==> s[n] == c);
        assert(m < n ==> s[m] == a[m]);
        assert(m == n);
        assert(s.take(n) =~= a.take(n));
        assert(s.skip(n) =~= a.skip(n) + seq![c] + b);
        law_white_space_parts_words(a.skip(n), c, b);
        assert(words(s) =~= words(a) + words(b));
    }
}

/// A text without white space is one word, and an empty text is none.
pub proof fn law_a_word_is_one(w: Seq<char>)
    requires
        forall|i: int| 0 <= i < w.len() ==> !is_space(#[trigger] w[i]),
    ensures
        words(w) == (if w.len() == 0 {
            Seq::empty()
        } else {
            seq![w]
        }),
{
    lemma_word_len(w);
    if w.len() > 0 {
        assert(word_len(w) == w.len());
        assert(w.take(w.len() as int) =~= w);
        assert(w.skip(w.len() as int).len() == 0);
        assert(words(w.skip(w.len() as int)) =~= Seq::empty());
        assert(words(w) =~= seq![w]);
    }
}

/// The strings of a list stand in their order, and none is left out.
pub proof fn law_texts(v: Seq<String>)
    ensures
        texts(v).len() == v.len(),
        forall|i: int| 0 <= i < v.len() ==> #[trigger] texts(v)[i] == v[i]@,
{
}

/// A separator parts pieces: the pieces of two texts around it are those of the one, then
/// those of the other.
pub proof fn law_separator_parts_pieces(a: Seq<char>, c: char, b: Seq<char>)
    ensures
        pieces(a + seq![c] + b, c) == pieces(a, c) + pieces(b, c),
    decreases a.len(),
{
    let all = a + seq![c] + b;
    let p = position(a, c);
    lemma_position(a, c);
    if p < a.len() {
        lemma_position_is(all, c, p);
        let rest = a.skip(p as int + 1);
        law_separator_parts_pieces(rest, c, b);
        assert(all.take(p as int) =~= a.take(p as int));
        assert(all.skip(p as int + 1) =~= rest + seq![c] + b);
        assert(pieces(all, c) =~= pieces(a, c) + pieces(b, c));
    } else {
        lemma_position_is(all, c, a.len());
        assert(all.take(a.len() as int) =~= a);
        assert(all.skip(a.len() as int + 1) =~= b);
    }
}

/// A text without the separator is one piece.
pub proof fn law_a_piece_is_one(s: Seq<char>, c: char)
    requires
        !s.contains(c),
    ensures
        pieces(s, c) == seq![s],
{
    lemma_position(s, c);
}

/// A text begins with a prefix exactly where it is the prefix and what follows it.
pub proof fn law_starts_with(s: Seq<char>, prefix: Seq<char>, rest: Seq<char>)
    ensures
        starts_with(prefix + rest, prefix),
        starts_with(s, prefix) ==> s == prefix + s.skip(prefix.len() as int),
        s == prefix + rest ==> starts_with(s, prefix),
{
    assert((prefix + rest).take(prefix.len() as int) =~= prefix);
    if starts_with(s, prefix) {
        assert(s =~= prefix + s.skip(prefix.len() as int));
    }
}

/// Only the capital letters of ASCII change in lower case, each to its small one.
pub proof fn law_lower(s: Seq<char>, i: int)
    requires
        0 <= i < s.len(),
    ensures
        lower(s).len() == s.len(),
        'A' <= s[i] <= 'Z' ==> lower(s)[i] as int == s[i] as int + ('a' as int - 'A' as int),
        s[i] < 'A' || s[i] > 'Z' ==> lower(s)[i] == s[i],
{
}

/// Joined texts: none make nothing, one makes itself, and each further one comes behind a
/// separator.
pub proof fn law_join(parts: Seq<Seq<char>>, part: Seq<char>, sep: Seq<char>)
    ensures
        joined(Seq::empty(), sep) == Seq::<char>::empty(),
        joined(seq![part], sep) == part,
        parts.len() > 0 ==> joined(parts.push(part), sep) == joined(parts, sep) + sep + part,
{
    assert(parts.push(part).drop_last() =~= parts);
}

/// Cutting a character off the end cuts every one there, and nothing else.
pub proof fn law_trim_trailing(s: Seq<char>, c: char)
    ensures
        exists|n: int|
            {
                &&& 0 <= n <= s.len()
                &&& without_trailing(s, c) == #[trigger] s.take(n)
                &&& forall|k: int| n <= k < s.len() ==> s[k] == c
            },
        without_trailing(s, c).len() > 0 ==> without_trailing(s, c).last() != c,
    decreases s.len(),
{
    if s.len() > 0 && s.last() == c {
        let t = s.drop_last();
        law_trim_trailing(t, c);
        let n = choose|n: int|
            {
                &&& 0 <= n <= t.len()
                &&& without_trailing(t, c) == #[trigger] t.take(n)
                &&& forall|k: int| n <= k < t.len() ==> t[k] == c
            };
        assert(t.take(n) =~= s.take(n));
        assert forall|k: int| n <= k < s.len() implies s[k] == c by {
            if k < t.len() {
                assert(t[k] == s[k]);
            }
        }
    } else {
        assert(s.take(s.len() as int) =~= s);
    }
}

/// What digits stand for: nothing is zero, and each digit to the right counts one tenth.
pub proof fn law_digits(s: Seq<char>, c: char)
    requires
        '0' <= c <= '9',
    ensures
        digits_value(Seq::empty()) == 0,
        digits_value(s.push(c)) == 10 * digits_value(s) + (c as int - '0' as int),
{
    assert(s.push(c).drop_last() =~= s);
}

/// A number in decimal reads back as itself, and has no zero in front.
pub proof fn law_decimal(n: nat)
    ensures
        decimal(n).len() > 0,
        all_digits(decimal(n)),
        digits_value(decimal(n)) == n,
        n > 0 ==> decimal(n)[0] != '0',
    decreases n,
{
    if n < 10 {
        assert(decimal(n) =~= Seq::empty().push(digit(n)));
        law_digits(Seq::empty(), digit(n));
    } else {
        law_decimal(n / 10);
        law_digits(decimal(n / 10), digit(n % 10));
    }
}

/// A number is read exactly where a text is digits alone, with or without a plus sign in
/// front, and stands for no more than the greatest one allowed.
pub proof fn law_parse_number(digits: Seq<char>, other: Seq<char>, max: nat)
    requires
        digits.len() > 0,
        forall|i: int| 0 <= i < digits.len() ==> '0' <= #[trigger] digits[i] <= '9',
    ensures
        digits_value(digits) <= max ==> {
            &&& denoted(digits, max) == Some(digits_value(digits))
            &&& denoted(seq!['+'] + digits, max) == Some(digits_value(digits))
        },
        digits_value(digits) > max ==> {
            &&& denoted(digits, max) is None
            &&& denoted(seq!['+'] + digits, max) is None
        },
        other.len() == 0 ==> denoted(other, max) is None && denoted(seq!['+'] + other, max) is None,
        (exists|i: int|
            0 <= i < other.len() && !('0' <= #[trigger] other[i] <= '9') && (i > 0 || other[i]
                != '+')) ==> denoted(other, max) is None,
{
    assert((seq!['+'] + digits).skip(1) =~= digits);
    assert((seq!['+'] + other).skip(1) =~= other);
    if exists|i: int|
        0 <= i < other.len() && !('0' <= #[trigger] other[i] <= '9') && (i > 0 || other[i]
            != '+') {
        let i = choose|i: int|
            0 <= i < other.len() && !('0' <= #[trigger] other[i] <= '9') && (i > 0 || other[i]
                != '+');
        if other[0] == '+' {
            assert(other.skip(1)[i - 1] == other[i]);
        }
    }
}

} // verus!
