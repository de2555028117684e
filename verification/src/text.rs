//! Text as sequences of characters: trimming, words and prefixes.

use vstd::prelude::*;
use vstd::string::*;

verus! {

/// The characters with the Unicode property `White_Space`.
pub open spec fn is_white_space(c: char) -> bool {
    let n = c as u32;
    ||| 0x9 <= n <= 0xd
    ||| n == 0x20
    ||| n == 0x85
    ||| n == 0xa0
    ||| n == 0x1680
    ||| 0x2000 <= n <= 0x200a
    ||| n == 0x2028
    ||| n == 0x2029
    ||| n == 0x202f
    ||| n == 0x205f
    ||| n == 0x3000
}

/// Whether `c` has the Unicode property `White_Space`.
pub fn white_space(c: char) -> (r: bool)
    ensures
        r == is_white_space(c),
{
    let n: u32 = c as u32;
    (0x9 <= n && n <= 0xd) || n == 0x20 || n == 0x85 || n == 0xa0 || n == 0x1680 || (0x2000 <= n
        && n <= 0x200a) || n == 0x2028 || n == 0x2029 || n == 0x202f || n == 0x205f || n == 0x3000
}

/// `s` without the white space that it begins with.
pub open spec fn trimmed_start(s: Seq<char>) -> Seq<char>
    decreases s.len(),
{
    if s.len() > 0 && is_white_space(s[0]) {
        trimmed_start(s.skip(1))
    } else {
        s
    }
}

/// `s` without the white space that it ends with.
pub open spec fn trimmed_end(s: Seq<char>) -> Seq<char>
    decreases s.len(),
{
    if s.len() > 0 && is_white_space(s.last()) {
        trimmed_end(s.drop_last())
    } else {
        s
    }
}

/// `s` without the white space at both ends.
pub open spec fn trimmed(s: Seq<char>) -> Seq<char> {
    trimmed_end(trimmed_start(s))
}

/// How many characters of `s` stand before its first white space.
pub open spec fn word_len(s: Seq<char>) -> nat
    decreases s.len(),
{
    if s.len() == 0 || is_white_space(s[0]) {
        0
    } else {
        1 + word_len(s.skip(1))
    }
}

/// `s` without the `@` signs that it begins with.
pub open spec fn without_ats(s: Seq<char>) -> Seq<char>
    decreases s.len(),
{
    if s.len() > 0 && s[0] == '@' {
        without_ats(s.skip(1))
    } else {
        s
    }
}

pub proof fn lemma_trimmed_start_at(s: Seq<char>, a: int)
    requires
        0 <= a <= s.len(),
        forall|i: int| 0 <= i < a ==> is_white_space(#[trigger] s[i]),
        a == s.len() || !is_white_space(s[a]),
    ensures
        trimmed_start(s) == s.skip(a),
    decreases s.len(),
{
    if a > 0 {
        assert forall|i: int| 0 <= i < a - 1 implies is_white_space(#[trigger] s.skip(1)[i]) by {
            assert(s.skip(1)[i] == s[i + 1]);
        }
        lemma_trimmed_start_at(s.skip(1), a - 1);
        assert(s.skip(1).skip(a - 1) =~= s.skip(a));
    } else {
        assert(s.skip(0) =~= s);
    }
}

pub proof fn lemma_trimmed_end_at(s: Seq<char>, b: int)
    requires
        0 <= b <= s.len(),
        forall|i: int| b <= i < s.len() ==> is_white_space(#[trigger] s[i]),
        b == 0 || !is_white_space(s[b - 1]),
    ensures
        trimmed_end(s) == s.take(b),
    decreases s.len(),
{
    if b < s.len() {
        assert(is_white_space(s[s.len() - 1]));
        lemma_trimmed_end_at(s.drop_last(), b);
        assert(s.drop_last().take(b) =~= s.take(b));
    } else {
        assert(s.take(b) =~= s);
    }
}

pub proof fn lemma_word_len_at(s: Seq<char>, n: int)
    requires
        0 <= n <= s.len(),
        forall|i: int| 0 <= i < n ==> !is_white_space(#[trigger] s[i]),
        n == s.len() || is_white_space(s[n]),
    ensures
        word_len(s) == n,
    decreases s.len(),
{
    if n > 0 {
        assert(!is_white_space(s[0]));
        assert forall|i: int| 0 <= i < n - 1 implies !is_white_space(#[trigger] s.skip(1)[i]) by {
            assert(s.skip(1)[i] == s[i + 1]);
        }
        lemma_word_len_at(s.skip(1), n - 1);
    }
}

pub proof fn lemma_word_len(s: Seq<char>)
    ensures
        word_len(s) <= s.len(),
        forall|i: int| 0 <= i < word_len(s) ==> !is_white_space(#[trigger] s[i]),
        word_len(s) == s.len() || is_white_space(s[word_len(s) as int]),
    decreases s.len(),
{
    if s.len() > 0 && !is_white_space(s[0]) {
        lemma_word_len(s.skip(1));
        assert forall|i: int| 0 <= i < word_len(s) implies !is_white_space(#[trigger] s[i]) by {
            if i > 0 {
                assert(s.skip(1)[i - 1] == s[i]);
            }
        }
    }
}

pub proof fn lemma_without_ats_at(s: Seq<char>, n: int)
    requires
        0 <= n <= s.len(),
        forall|i: int| 0 <= i < n ==> #[trigger] s[i] == '@',
        n == s.len() || s[n] != '@',
    ensures
        without_ats(s) == s.skip(n),
    decreases s.len(),
{
    if n > 0 {
        assert(s[0] == '@');
        assert forall|i: int| 0 <= i < n - 1 implies #[trigger] s.skip(1)[i] == '@' by {
            assert(s.skip(1)[i] == s[i + 1]);
        }
        lemma_without_ats_at(s.skip(1), n - 1);
        assert(s.skip(1).skip(n - 1) =~= s.skip(n));
    } else {
        assert(s.skip(0) =~= s);
    }
}

/// The characters of `s`, in order.
pub fn chars_of(s: &str) -> (v: Vec<char>)
    ensures
        v@ == s@,
{
    let mut v: Vec<char> = Vec::new();
    for c in it: s.chars()
        invariant
            v@ == it.seq().take(it.index()),
            it.seq() == s@,
    {
        v.push(c);
    }
    v
}

/// `s` without the white space at both ends.
pub fn trim(s: &str) -> (r: &str)
    ensures
        r@ == trimmed(s@),
{
    let cs = chars_of(s);
    let mut a: usize = 0;
    while a < cs.len() && white_space(cs[a])
        invariant
            a <= cs.len(),
            forall|i: int| 0 <= i < a ==> is_white_space(#[trigger] cs@[i]),
        decreases cs.len() - a,
    {
        a = a + 1;
    }
    let mut b: usize = cs.len();
    while b > a && white_space(cs[b - 1])
        invariant
            a <= b <= cs.len(),
            forall|i: int| b <= i < cs.len() ==> is_white_space(#[trigger] cs@[i]),
        decreases b,
    {
        b = b - 1;
    }
    proof {
        lemma_trimmed_start_at(s@, a as int);
        let t = s@.skip(a as int);
        lemma_trimmed_end_at(t, b - a);
        assert(t.take(b - a) =~= s@.subrange(a as int, b as int));
    }
    s.substring_char(a, b)
}

/// The words of `s`: the longest runs of characters that are not white space.
pub open spec fn words(s: Seq<char>) -> Seq<Seq<char>>
    decreases s.len(),
{
    let t = trimmed_start(s);
    if t.len() == 0 {
        Seq::empty()
    } else {
        proof {
            lemma_trimmed_start(s);
            lemma_word_len(t);
        }
        seq![t.take(word_len(t) as int)] + words(t.skip(word_len(t) as int))
    }
}

pub proof fn lemma_trimmed_start(s: Seq<char>)
    ensures
        trimmed_start(s).len() <= s.len(),
        trimmed_start(s) == s.skip(s.len() - trimmed_start(s).len()),
        trimmed_start(s).len() > 0 ==> !is_white_space(trimmed_start(s)[0]),
        forall|i: int|
            0 <= i < s.len() - trimmed_start(s).len() ==> is_white_space(#[trigger] s[i]),
    decreases s.len(),
{
    if s.len() > 0 && is_white_space(s[0]) {
        let rest = s.skip(1);
        lemma_trimmed_start(rest);
        let k = rest.len() - trimmed_start(rest).len();
        assert(rest.skip(k) =~= s.skip(k + 1));
        assert forall|i: int| 0 <= i < k + 1 implies is_white_space(#[trigger] s[i]) by {
            if i > 0 {
                assert(rest[i - 1] == s[i]);
            }
        }
    } else {
        assert(s.skip(0) =~= s);
    }
}

/// The views of the strings of `v`, in order.
pub open spec fn strings_view(v: Seq<String>) -> Seq<Seq<char>> {
    v.map_values(|s: String| s@)
}

/// The words of `s`, in order.
pub fn split_words(s: &str) -> (r: Vec<String>)
    ensures
        strings_view(r@) == words(s@),
{
    let cs = chars_of(s);
    let mut r: Vec<String> = Vec::new();
    let mut i: usize = 0;
    proof {
        assert(s@.skip(0) =~= s@);
        assert(strings_view(r@) + words(s@) =~= words(s@));
    }
    loop
        invariant
            cs@ == s@,
            i <= cs.len(),
            strings_view(r@) + words(s@.skip(i as int)) == words(s@),
        ensures
            strings_view(r@) == words(s@),
        decreases cs.len() - i,
    {
        let ghost rest = s@.skip(i as int);
        let mut a: usize = i;
        while a < cs.len() && white_space(cs[a])
            invariant
                cs@ == s@,
                i <= a <= cs.len(),
                rest == s@.skip(i as int),
                forall|k: int| 0 <= k < a - i ==> is_white_space(#[trigger] rest[k]),
            decreases cs.len() - a,
        {
            assert(rest[a - i] == s@[a as int]);
            a = a + 1;
        }
        proof {
            if a < cs.len() {
                assert(rest[a - i] == s@[a as int]);
            }
            lemma_trimmed_start_at(rest, a - i);
            assert(rest.skip(a - i) =~= s@.skip(a as int));
        }
        let ghost t = s@.skip(a as int);
        if a == cs.len() {
            proof {
                assert(words(rest) =~= Seq::empty());
                assert(strings_view(r@) + words(rest) =~= strings_view(r@));
            }
            break;
        }
        let mut b: usize = a;
        while b < cs.len() && !white_space(cs[b])
            invariant
                cs@ == s@,
                a <= b <= cs.len(),
                t == s@.skip(a as int),
                forall|k: int| 0 <= k < b - a ==> !is_white_space(#[trigger] t[k]),
            decreases cs.len() - b,
        {
            assert(t[b - a] == s@[b as int]);
            b = b + 1;
        }
        proof {
            assert(t[0] == s@[a as int]);
            if b < cs.len() {
                assert(t[b - a] == s@[b as int]);
            }
            lemma_word_len_at(t, b - a);
            lemma_word_len(t);
            assert(b > a);
            assert(t.take(b - a) =~= s@.subrange(a as int, b as int));
            assert(t.skip(b - a) =~= s@.skip(b as int));
        }
        let ghost before = r@;
        r.push(s.substring_char(a, b).to_string());
        proof {
            assert(strings_view(r@) =~= strings_view(before).push(t.take(b - a)));
            assert(strings_view(r@) + words(s@.skip(b as int)) =~= strings_view(before) + (seq![
                t.take(b - a),
            ] + words(s@.skip(b as int))));
        }
        i = b;
    }
    r
}

/// The texts of `list` one after the other, with one space between each two.
pub open spec fn joined(list: Seq<Seq<char>>) -> Seq<char>
    decreases list.len(),
{
    if list.len() == 0 {
        Seq::empty()
    } else if list.len() == 1 {
        list[0]
    } else {
        joined(list.drop_last()) + seq![' '] + list.last()
    }
}

/// The strings of `list` from `from` on, with one space between each two.
pub fn join_words(list: &Vec<String>, from: usize) -> (r: String)
    requires
        from <= list.len(),
    ensures
        r@ == joined(strings_view(list@).skip(from as int)),
{
    let ghost all = strings_view(list@).skip(from as int);
    let mut r = String::new();
    let mut i: usize = from;
    while i < list.len()
        invariant
            from <= i <= list.len(),
            all == strings_view(list@).skip(from as int),
            r@ == joined(all.take(i - from)),
        decreases list.len() - i,
    {
        proof {
            reveal_strlit(" ");
            assert(" "@ =~= seq![' ']);
            assert(all.take(i + 1 - from).drop_last() =~= all.take(i - from));
            assert(all[i - from] == list@[i as int]@);
        }
        if i > from {
            r.append(" ");
        }
        r.append(list[i].as_str());
        i = i + 1;
    }
    assert(all.take(list.len() - from) =~= all);
    r
}

/// `s` split at its first white space, which belongs to neither part.
pub fn split_first_word(s: &str) -> (r: (&str, &str))
    ensures
        r.0@ == s@.take(word_len(s@) as int),
        r.1@ == (if word_len(s@) < s@.len() {
            s@.skip(word_len(s@) as int + 1)
        } else {
            Seq::empty()
        }),
{
    let cs = chars_of(s);
    let mut n: usize = 0;
    while n < cs.len() && !white_space(cs[n])
        invariant
            n <= cs.len(),
            forall|i: int| 0 <= i < n ==> !is_white_space(#[trigger] cs@[i]),
        decreases cs.len() - n,
    {
        n = n + 1;
    }
    proof {
        lemma_word_len_at(s@, n as int);
        assert(s@.subrange(0, n as int) =~= s@.take(n as int));
        assert(n < s@.len() ==> s@.subrange(n + 1, s@.len() as int) =~= s@.skip(n + 1));
        assert(s@.subrange(s@.len() as int, s@.len() as int) =~= Seq::empty());
    }
    let rest: usize = if n < cs.len() { n + 1 } else { n };
    (s.substring_char(0, n), s.substring_char(rest, cs.len()))
}

/// `s` without the `@` signs that it begins with.
pub fn trim_ats(s: &str) -> (r: &str)
    ensures
        r@ == without_ats(s@),
{
    let cs = chars_of(s);
    let mut n: usize = 0;
    while n < cs.len() && cs[n] == '@'
        invariant
            n <= cs.len(),
            forall|i: int| 0 <= i < n ==> #[trigger] cs@[i] == '@',
        decreases cs.len() - n,
    {
        n = n + 1;
    }
    proof {
        lemma_without_ats_at(s@, n as int);
        assert(s@.subrange(n as int, s@.len() as int) =~= s@.skip(n as int));
    }
    s.substring_char(n, cs.len())
}

/// The lower case of an ASCII letter; any other character is left as it is.
pub open spec fn ascii_lower(c: char) -> char {
    if 'A' <= c <= 'Z' {
        (c as u32 + 32) as char
    } else {
        c
    }
}

/// Whether `c` is an ASCII character, which takes one byte in UTF-8.
pub open spec fn is_ascii_char(c: char) -> bool {
    (c as u32) < 128
}

/// Whether `s` begins with `p`, where upper and lower case ASCII letters of `s` are taken as equal.
pub open spec fn has_command_word(s: Seq<char>, p: Seq<char>) -> bool {
    &&& p.len() <= s.len()
    &&& forall|i: int| 0 <= i < p.len() ==> ascii_lower(#[trigger] s[i]) == p[i]
}

/// Whether the two texts are the same up to the case of ASCII letters.
pub open spec fn same_ignoring_case(a: Seq<char>, b: Seq<char>) -> bool {
    &&& a.len() == b.len()
    &&& forall|i: int| 0 <= i < a.len() ==> ascii_lower(#[trigger] a[i]) == ascii_lower(b[i])
}

fn to_ascii_lower(c: char) -> (r: char)
    ensures
        r == ascii_lower(c),
{
    if 'A' <= c && c <= 'Z' {
        ((c as u8) + 32u8) as char
    } else {
        c
    }
}

/// Whether `s` begins with `p`, where upper and lower case ASCII letters of `s` are taken as equal.
pub fn starts_with_command(s: &str, p: &str) -> (r: bool)
    ensures
        r == has_command_word(s@, p@),
{
    let cs = chars_of(s);
    let ps = chars_of(p);
    if ps.len() > cs.len() {
        return false;
    }
    let mut i: usize = 0;
    while i < ps.len()
        invariant
            i <= ps.len() <= cs.len(),
            cs@ == s@,
            ps@ == p@,
            forall|k: int| 0 <= k < i ==> ascii_lower(#[trigger] s@[k]) == p@[k],
        decreases ps.len() - i,
    {
        if to_ascii_lower(cs[i]) != ps[i] {
            assert(ascii_lower(s@[i as int]) != p@[i as int]);
            return false;
        }
        i = i + 1;
    }
    true
}

/// Whether the two texts are the same.
pub fn same_text(a: &str, b: &str) -> (r: bool)
    ensures
        r == (a@ == b@),
{
    let x = chars_of(a);
    let y = chars_of(b);
    if x.len() != y.len() {
        return false;
    }
    let mut i: usize = 0;
    while i < x.len()
        invariant
            i <= x.len() == y.len(),
            x@ == a@,
            y@ == b@,
            forall|k: int| 0 <= k < i ==> a@[k] == b@[k],
        decreases x.len() - i,
    {
        if x[i] != y[i] {
            assert(a@[i as int] != b@[i as int]);
            return false;
        }
        i = i + 1;
    }
    assert(a@ =~= b@);
    true
}

/// Whether `s` is white space only.
pub open spec fn is_blank(s: Seq<char>) -> bool {
    forall|i: int| 0 <= i < s.len() ==> is_white_space(#[trigger] s[i])
}

/// Whether `s` is one word: not empty, and without white space.
pub open spec fn is_word(s: Seq<char>) -> bool {
    &&& s.len() > 0
    &&& forall|i: int| 0 <= i < s.len() ==> !is_white_space(#[trigger] s[i])
}

/// Whether `s` neither begins nor ends with white space.
pub open spec fn is_trim(s: Seq<char>) -> bool {
    s.len() > 0 ==> !is_white_space(s[0]) && !is_white_space(s.last())
}

/// Trimming leaves no white space at the ends, and changes nothing where there is none.
pub proof fn lemma_trimmed(s: Seq<char>)
    ensures
        is_trim(trimmed(s)),
        is_trim(s) ==> trimmed(s) == s,
        trimmed(s).len() <= s.len(),
{
    let t = trimmed_start(s);
    lemma_trimmed_start(s);
    lemma_trimmed_end(t);
    if trimmed_end(t).len() > 0 {
        assert(trimmed_end(t)[0] == t[0]);
    }
}

pub proof fn lemma_trimmed_end(s: Seq<char>)
    ensures
        trimmed_end(s).len() <= s.len(),
        trimmed_end(s) == s.take(trimmed_end(s).len() as int),
        trimmed_end(s).len() > 0 ==> !is_white_space(trimmed_end(s).last()),
        forall|i: int| trimmed_end(s).len() <= i < s.len() ==> is_white_space(#[trigger] s[i]),
    decreases s.len(),
{
    if s.len() > 0 && is_white_space(s.last()) {
        let rest = s.drop_last();
        lemma_trimmed_end(rest);
        let k = trimmed_end(rest).len() as int;
        assert(rest.take(k) =~= s.take(k));
        assert forall|i: int| k <= i < s.len() implies is_white_space(#[trigger] s[i]) by {
            if i < s.len() - 1 {
                assert(rest[i] == s[i]);
            }
        }
    } else {
        assert(s.take(s.len() as int) =~= s);
    }
}

/// White space at the ends does not change what trimming gives.
pub proof fn lemma_trimmed_padded(l: Seq<char>, s: Seq<char>, r: Seq<char>)
    requires
        is_blank(l),
        is_blank(r),
    ensures
        trimmed(l + s + r) == trimmed(s),
{
    let p = l + s + r;
    lemma_trimmed_start(s);
    let t = trimmed_start(s);
    let k = s.len() - t.len();
    lemma_trimmed_end(t);
    let e = trimmed_end(t);
    if t.len() == 0 {
        assert forall|i: int| 0 <= i < p.len() implies is_white_space(#[trigger] p[i]) by {
            if i < l.len() {
                assert(p[i] == l[i]);
            } else if i < l.len() + s.len() {
                assert(p[i] == s[i - l.len()]);
            } else {
                assert(p[i] == r[i - l.len() - s.len()]);
            }
        }
        lemma_trimmed_start_at(p, p.len() as int);
        assert(trimmed(p) =~= trimmed(s));
    } else {
        let a = l.len() + k;
        assert(p[a] == s[k]);
        assert(s[k] == t[0]);
        assert forall|i: int| 0 <= i < a implies is_white_space(#[trigger] p[i]) by {
            if i < l.len() {
                assert(p[i] == l[i]);
            } else {
                assert(p[i] == s[i - l.len()]);
            }
        }
        lemma_trimmed_start_at(p, a);
        let q = p.skip(a);
        assert(q =~= t + r);
        let b = e.len() as int;
        assert(b > 0) by {
            if b == 0 {
                assert(is_white_space(t[0]));
            }
        }
        assert(q[b - 1] == e.last());
        assert forall|i: int| b <= i < q.len() implies is_white_space(#[trigger] q[i]) by {
            if i < t.len() {
                assert(q[i] == t[i]);
            } else {
                assert(q[i] == r[i - t.len()]);
            }
        }
        lemma_trimmed_end_at(q, b);
        assert(q.take(b) =~= e);
    }
}

/// Stripping `@` signs leaves a text that does not begin with one.
pub proof fn lemma_without_ats(s: Seq<char>)
    ensures
        without_ats(s).len() <= s.len(),
        without_ats(s) == s.skip(s.len() - without_ats(s).len()),
        without_ats(s).len() > 0 ==> without_ats(s)[0] != '@',
    decreases s.len(),
{
    if s.len() > 0 && s[0] == '@' {
        let rest = s.skip(1);
        lemma_without_ats(rest);
        let k = rest.len() - without_ats(rest).len();
        assert(rest.skip(k) =~= s.skip(k + 1));
    } else {
        assert(s.skip(0) =~= s);
    }
}

pub proof fn lemma_joined_front(list: Seq<Seq<char>>)
    requires
        list.len() > 1,
    ensures
        joined(list) == list[0] + seq![' '] + joined(list.skip(1)),
    decreases list.len(),
{
    if list.len() == 2 {
        assert(list.drop_last() =~= seq![list[0]]);
        assert(list.skip(1) =~= seq![list[1]]);
        assert(joined(list.drop_last()) == list[0]);
        assert(joined(list.skip(1)) == list[1]);
    } else {
        let init = list.drop_last();
        lemma_joined_front(init);
        assert(init.skip(1) =~= list.skip(1).drop_last());
        assert(joined(list) =~= list[0] + seq![' '] + joined(list.skip(1)));
    }
}

/// A word at the front of a text, with white space or nothing behind it, is its first word.
pub proof fn lemma_words_front(w: Seq<char>, rest: Seq<char>)
    requires
        is_word(w),
        rest.len() == 0 || is_white_space(rest[0]),
    ensures
        words(w + rest) == seq![w] + words(rest),
{
    let s = w + rest;
    assert(s[0] == w[0]);
    assert forall|i: int| 0 <= i < w.len() implies !is_white_space(#[trigger] s[i]) by {
        assert(s[i] == w[i]);
    }
    if rest.len() > 0 {
        assert(s[w.len() as int] == rest[0]);
    }
    lemma_word_len_at(s, w.len() as int);
    assert(s.take(w.len() as int) =~= w);
    assert(s.skip(w.len() as int) =~= rest);
}

/// A space at the front of a text does not change its words.
pub proof fn lemma_words_spaced(s: Seq<char>)
    ensures
        words(seq![' '] + s) == words(s),
{
    let t = seq![' '] + s;
    assert(t.skip(1) =~= s);
    assert(trimmed_start(t) == trimmed_start(s));
}

/// Splitting joined words gives the words back.
pub proof fn lemma_words_joined(list: Seq<Seq<char>>)
    requires
        forall|i: int| 0 <= i < list.len() ==> is_word(#[trigger] list[i]),
    ensures
        words(joined(list)) == list,
        list.len() > 0 ==> is_trim(joined(list)) && joined(list).len() > 0,
    decreases list.len(),
{
    if list.len() == 0 {
        assert(list =~= Seq::empty());
    } else if list.len() == 1 {
        let w = list[0];
        assert(w + Seq::<char>::empty() =~= w);
        lemma_words_front(w, Seq::empty());
        assert(words(Seq::<char>::empty()) =~= Seq::empty());
        assert(seq![w] + words(Seq::<char>::empty()) =~= list);
        assert(joined(list) == w);
    } else {
        let w = list[0];
        let tail = list.skip(1);
        assert forall|i: int| 0 <= i < tail.len() implies is_word(#[trigger] tail[i]) by {
            assert(tail[i] == list[i + 1]);
        }
        lemma_joined_front(list);
        lemma_words_joined(tail);
        let rest = seq![' '] + joined(tail);
        assert(joined(list) =~= w + rest);
        assert(rest[0] == ' ');
        lemma_words_front(w, rest);
        lemma_words_spaced(joined(tail));
        assert(seq![w] + tail =~= list);
        assert(joined(list).last() == joined(tail).last());
        assert(joined(list)[0] == w[0]);
    }
}

/// The view of an optional string.
pub open spec fn opt_view(s: Option<String>) -> Option<Seq<char>> {
    match s {
        Some(s) => Some(s@),
        None => None,
    }
}

/// The view of an optional string slice.
pub open spec fn opt_str_view(s: Option<&str>) -> Option<Seq<char>> {
    match s {
        Some(s) => Some(s@),
        None => None,
    }
}

/// `s`, or the empty text where there is none.
pub open spec fn or_empty(s: Option<Seq<char>>) -> Seq<char> {
    match s {
        Some(s) => s,
        None => Seq::empty(),
    }
}

/// The views of pairs of strings, in order.
pub open spec fn pairs_view(v: Seq<(String, String)>) -> Seq<(Seq<char>, Seq<char>)> {
    v.map_values(|p: (String, String)| (p.0@, p.1@))
}

/// `s`, or the empty text where there is none.
pub fn unwrap_text(s: Option<String>) -> (r: String)
    ensures
        r@ == or_empty(opt_view(s)),
{
    match s {
        Some(s) => s,
        None => String::new(),
    }
}

/// Trimming gives what stands between the white space at the ends.
pub proof fn law_trim(s: &str, l: Seq<char>, inner: Seq<char>, r: Seq<char>, out: &str)
    requires
        call_ensures(trim, (s,), out),
        s@ == l + inner + r,
        is_blank(l),
        is_blank(r),
        is_trim(inner),
    ensures
        out@ == inner,
{
    lemma_trimmed_padded(l, inner, r);
    lemma_trimmed(inner);
}

/// The words of `list` one after the other, each with its gap in front of it, and a gap at the end.
pub open spec fn spaced(gaps: Seq<Seq<char>>, list: Seq<Seq<char>>, end: Seq<char>) -> Seq<char>
    decreases list.len(),
{
    if list.len() == 0 {
        end
    } else {
        gaps[0] + list[0] + spaced(gaps.skip(1), list.skip(1), end)
    }
}

/// Whether `gaps` can part the words of a list: white space only, and not empty but for the first.
pub open spec fn are_gaps(gaps: Seq<Seq<char>>) -> bool {
    forall|i: int| 0 <= i < gaps.len() ==> is_blank(#[trigger] gaps[i]) && (i > 0 ==> gaps[i].len() > 0)
}

/// White space at the front of a text does not change its words, and white space alone has none.
pub proof fn lemma_words_blank(b: Seq<char>, s: Seq<char>)
    requires
        is_blank(b),
    ensures
        words(b + s) == words(s),
        words(b) == Seq::<Seq<char>>::empty(),
    decreases b.len(),
{
    if b.len() == 0 {
        assert(b + s =~= s);
        assert(trimmed_start(b) =~= Seq::empty());
    } else {
        let rest = b.skip(1);
        assert forall|i: int| 0 <= i < rest.len() implies is_white_space(#[trigger] rest[i]) by {
            assert(rest[i] == b[i + 1]);
        }
        lemma_words_blank(rest, s);
        assert((b + s).skip(1) =~= rest + s);
        assert((b + s)[0] == b[0]);
        assert(trimmed_start(b + s) == trimmed_start(rest + s));
        assert(trimmed_start(b) == trimmed_start(rest));
    }
}

/// The words of a text are its words, however they are parted.
pub proof fn lemma_words_spaced_out(
    gaps: Seq<Seq<char>>,
    list: Seq<Seq<char>>,
    end: Seq<char>,
)
    requires
        gaps.len() == list.len(),
        are_gaps(gaps),
        is_blank(end),
        forall|i: int| 0 <= i < list.len() ==> is_word(#[trigger] list[i]),
    ensures
        words(spaced(gaps, list, end)) == list,
    decreases list.len(),
{
    if list.len() == 0 {
        lemma_words_blank(end, Seq::empty());
        assert(list =~= Seq::empty());
    } else {
        let g = gaps.skip(1);
        let t = list.skip(1);
        assert forall|i: int| 0 <= i < g.len() implies is_blank(#[trigger] g[i]) && g[i].len() > 0 by {
            assert(g[i] == gaps[i + 1]);
        }
        assert forall|i: int| 0 <= i < t.len() implies is_word(#[trigger] t[i]) by {
            assert(t[i] == list[i + 1]);
        }
        lemma_words_spaced_out(g, t, end);
        let rest = spaced(g, t, end);
        if t.len() > 0 {
            assert(g[0].len() > 0);
            assert(rest[0] == g[0][0]);
            assert(is_white_space(g[0][0]));
        } else if rest.len() > 0 {
            assert(rest == end);
        }
        assert(is_word(list[0]));
        assert(is_blank(gaps[0]));
        lemma_words_front(list[0], rest);
        lemma_words_blank(gaps[0], list[0] + rest);
        assert(gaps[0] + list[0] + rest =~= gaps[0] + (list[0] + rest));
        assert(seq![list[0]] + t =~= list);
    }
}

/// Splitting gives every word, in order and unchanged, however the words are parted.
pub proof fn law_split_words(
    s: &str,
    gaps: Seq<Seq<char>>,
    list: Seq<Seq<char>>,
    end: Seq<char>,
    out: Vec<String>,
)
    requires
        call_ensures(split_words, (s,), out),
        s@ == spaced(gaps, list, end),
        gaps.len() == list.len(),
        are_gaps(gaps),
        is_blank(end),
        forall|i: int| 0 <= i < list.len() ==> is_word(#[trigger] list[i]),
    ensures
        out@.len() == list.len(),
        forall|i: int| 0 <= i < list.len() ==> (#[trigger] out@[i])@ == list[i],
{
    lemma_words_spaced_out(gaps, list, end);
    assert forall|i: int| 0 <= i < list.len() implies (#[trigger] out@[i])@ == list[i] by {
        assert(strings_view(out@)[i] == out@[i]@);
    }
}

/// A text is split behind its first word, and the one white space there belongs to neither part.
pub proof fn law_split_first_word(s: &str, w: Seq<char>, rest: Seq<char>, out: (&str, &str))
    requires
        call_ensures(split_first_word, (s,), out),
        s@ == w + rest,
        forall|i: int| 0 <= i < w.len() ==> !is_white_space(#[trigger] w[i]),
        rest.len() > 0 ==> is_white_space(rest[0]),
    ensures
        out.0@ == w,
        rest.len() == 0 ==> out.1@.len() == 0,
        rest.len() > 0 ==> out.1@ == rest.skip(1),
{
    let n = w.len() as int;
    assert forall|i: int| 0 <= i < n implies !is_white_space(#[trigger] s@[i]) by {
        assert(s@[i] == w[i]);
    }
    if rest.len() > 0 {
        assert(s@[n] == rest[0]);
        assert(s@.skip(n + 1) =~= rest.skip(1));
    }
    lemma_word_len_at(s@, n);
    assert(s@.take(n) =~= w);
}

/// The `@` signs in front are taken off, and nothing else.
pub proof fn law_trim_ats(s: &str, ats: Seq<char>, rest: Seq<char>, out: &str)
    requires
        call_ensures(trim_ats, (s,), out),
        s@ == ats + rest,
        forall|i: int| 0 <= i < ats.len() ==> #[trigger] ats[i] == '@',
        rest.len() > 0 ==> rest[0] != '@',
    ensures
        out@ == rest,
{
    let n = ats.len() as int;
    assert forall|i: int| 0 <= i < n implies #[trigger] s@[i] == '@' by {
        assert(s@[i] == ats[i]);
    }
    if rest.len() > 0 {
        assert(s@[n] == rest[0]);
    }
    lemma_without_ats_at(s@, n);
    assert(s@.skip(n) =~= rest);
}

/// Joining from one place on gives the text there, a space, and what joining from the next place
/// on gives; from the last place on it gives the last text, and behind it nothing.
pub proof fn law_join_words(
    list: Vec<String>,
    from: usize,
    after: usize,
    out: String,
    next: String,
)
    requires
        from < list@.len(),
        after == from + 1,
        call_ensures(join_words, (&list, from), out),
        call_ensures(join_words, (&list, after), next),
    ensures
        from + 1 == list@.len() ==> out@ == list@[from as int]@ && next@.len() == 0,
        from + 1 < list@.len() ==> out@ == list@[from as int]@ + seq![' '] + next@,
{
    let all = strings_view(list@);
    let here = all.skip(from as int);
    assert(here[0] == list@[from as int]@);
    assert(here.skip(1) =~= all.skip(from + 1));
    if from + 1 < list@.len() {
        lemma_joined_front(here);
    } else {
        assert(here.len() == 1);
        assert(all.skip(from + 1).len() == 0);
    }
}

/// Whether `c` is the letter or sign `p`, or its capital.
pub open spec fn spells(c: char, p: char) -> bool {
    c == p || 'a' <= p <= 'z' && c as u32 + 32 == p as u32
}

/// Whether `s` begins with `word`, in small letters or capitals.
pub open spec fn begins_with(s: Seq<char>, word: Seq<char>) -> bool {
    &&& word.len() <= s.len()
    &&& forall|i: int| 0 <= i < word.len() ==> spells(#[trigger] s[i], word[i])
}

/// Whether `s` holds no capital ASCII letter.
pub open spec fn is_small(s: Seq<char>) -> bool {
    forall|i: int| 0 <= i < s.len() ==> !('A' <= #[trigger] s[i] <= 'Z')
}

/// A text has a command word exactly if it begins with it, in small letters or capitals.
pub proof fn lemma_command_word(s: Seq<char>, word: Seq<char>)
    requires
        is_small(word),
    ensures
        has_command_word(s, word) == begins_with(s, word),
{
    if has_command_word(s, word) {
        assert forall|i: int| 0 <= i < word.len() implies spells(#[trigger] s[i], word[i]) by {
            assert(ascii_lower(s[i]) == word[i]);
        }
    }
    if begins_with(s, word) {
        assert forall|i: int| 0 <= i < word.len() implies ascii_lower(#[trigger] s[i])
            == word[i] by {
            assert(spells(s[i], word[i]));
            assert(!('A' <= word[i] <= 'Z'));
            let n = s[i] as u32;
            if s[i] != word[i] {
                assert(((n + 32) as char) as u32 == n + 32);
                assert((word[i] as u32) as char == word[i]);
            }
        }
    }
}

/// A command word is found exactly where the text begins with it, in small letters or capitals.
pub proof fn law_starts_with_command(s: &str, word: &str, out: bool)
    requires
        call_ensures(starts_with_command, (s, word), out),
        is_small(word@),
    ensures
        out <==> begins_with(s@, word@),
{
    lemma_command_word(s@, word@);
}

/// A text that is there is taken as it is; where there is none the text is empty.
pub proof fn law_unwrap_text(s: Option<String>, out: String)
    requires
        call_ensures(unwrap_text, (s,), out),
    ensures
        s matches Some(t) ==> out@ == t@,
        s is None ==> out@.len() == 0,
{
}

} // verus!
