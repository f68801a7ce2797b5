//! Character-sequence utilities shared by the parser, the evaluator and the
//! encoders. Every executable function here carries an exact contract over
//! the corresponding spec function on `Seq<char>`.

use vstd::prelude::*;

verus! {

/// The whitespace characters recognized when trimming and tokenizing
/// (the ASCII whitespace set).
pub open spec fn is_space(c: char) -> bool {
    c == ' ' || c == '\t' || c == '\n' || c == '\r' || c == '\x0b' || c == '\x0c'
}

/// Executable whitespace test.
pub fn space(c: char) -> (r: bool)
    ensures
        r == is_space(c),
{
    c == ' ' || c == '\t' || c == '\n' || c == '\r' || c == '\x0b' || c == '\x0c'
}

/// Number of leading whitespace characters of `s`.
pub open spec fn leading_spaces(s: Seq<char>) -> int
    decreases s.len(),
{
    if s.len() == 0 || !is_space(s[0]) {
        0
    } else {
        1 + leading_spaces(s.drop_first())
    }
}

pub proof fn lemma_leading_spaces(s: Seq<char>)
    ensures
        0 <= leading_spaces(s) <= s.len(),
        forall|i: int| 0 <= i < leading_spaces(s) ==> is_space(s[i]),
        leading_spaces(s) < s.len() ==> !is_space(s[leading_spaces(s)]),
    decreases s.len(),
{
    if s.len() == 0 || !is_space(s[0]) {
    } else {
        lemma_leading_spaces(s.drop_first());
        assert forall|i: int| 0 <= i < leading_spaces(s) implies is_space(s[i]) by {
            if i > 0 {
                assert(s.drop_first()[i - 1] == s[i]);
            }
        }
        if leading_spaces(s) < s.len() {
            assert(s.drop_first()[leading_spaces(s) - 1] == s[leading_spaces(s)]);
        }
    }
}

/// Number of trailing whitespace characters of `s`.
pub open spec fn trailing_spaces(s: Seq<char>) -> int
    decreases s.len(),
{
    if s.len() == 0 || !is_space(s.last()) {
        0
    } else {
        1 + trailing_spaces(s.drop_last())
    }
}

pub proof fn lemma_trailing_spaces(s: Seq<char>)
    ensures
        0 <= trailing_spaces(s) <= s.len(),
        forall|i: int| s.len() - trailing_spaces(s) <= i < s.len() ==> is_space(s[i]),
        trailing_spaces(s) < s.len() ==> !is_space(s[s.len() - trailing_spaces(s) - 1]),
    decreases s.len(),
{
    if s.len() == 0 || !is_space(s.last()) {
    } else {
        lemma_trailing_spaces(s.drop_last());
        assert forall|i: int| s.len() - trailing_spaces(s) <= i < s.len() implies is_space(
            s[i],
        ) by {
            if i < s.len() - 1 {
                assert(s.drop_last()[i] == s[i]);
            }
        }
    }
}

/// `s` with surrounding whitespace removed.
pub open spec fn spec_trim(s: Seq<char>) -> Seq<char> {
    let a = leading_spaces(s);
    if a == s.len() {
        Seq::empty()
    } else {
        s.subrange(a, s.len() - trailing_spaces(s))
    }
}

pub proof fn lemma_trim_bounds(s: Seq<char>)
    ensures
        leading_spaces(s) < s.len() ==> leading_spaces(s) + trailing_spaces(s) < s.len(),
{
    lemma_leading_spaces(s);
    lemma_trailing_spaces(s);
    let a = leading_spaces(s);
    let b = trailing_spaces(s);
    if a < s.len() && a + b >= s.len() {
        assert(is_space(s[a]));
    }
}

/// Trim surrounding whitespace from a character slice.
pub fn trim(s: &[char]) -> (r: &[char])
    ensures
        r@ == spec_trim(s@),
{
    proof {
        lemma_leading_spaces(s@);
        lemma_trailing_spaces(s@);
        lemma_trim_bounds(s@);
    }
    let mut a: usize = 0;
    while a < s.len() && space(s[a])
        invariant
            0 <= a <= s@.len(),
            forall|i: int| 0 <= i < a ==> is_space(s@[i]),
            a <= leading_spaces(s@),
        decreases s@.len() - a,
    {
        proof {
            lemma_leading_spaces(s@);
            if a + 1 > leading_spaces(s@) {
                assert(is_space(s@[leading_spaces(s@)]));
            }
        }
        a = a + 1;
    }
    proof {
        lemma_leading_spaces(s@);
        if a < leading_spaces(s@) {
            assert(is_space(s@[a as int]));
        }
        assert(a == leading_spaces(s@));
    }
    if a == s.len() {
        return &s[0..0];
    }
    let mut b: usize = s.len();
    while b > a && space(s[b - 1])
        invariant
            a <= b <= s@.len(),
            a == leading_spaces(s@) < s@.len(),
            forall|i: int| b <= i < s@.len() ==> is_space(s@[i]),
            s@.len() - b <= trailing_spaces(s@),
        decreases b,
    {
        proof {
            lemma_trailing_spaces(s@);
            if s@.len() - (b - 1) > trailing_spaces(s@) {
                assert(is_space(s@[s@.len() - trailing_spaces(s@) - 1]));
            }
        }
        b = b - 1;
    }
    proof {
        lemma_trailing_spaces(s@);
        lemma_trim_bounds(s@);
        if s@.len() - b < trailing_spaces(s@) {
            assert(is_space(s@[b - 1]));
        }
        assert(s@.len() - b == trailing_spaces(s@));
    }
    &s[a..b]
}

/// The characters of `s` as a vector.
pub fn to_chars(s: &str) -> (r: Vec<char>)
    ensures
        r@ == s@,
{
    let n = s.unicode_len();
    let mut r: Vec<char> = Vec::new();
    let mut i: usize = 0;
    while i < n
        invariant
            n == s@.len(),
            0 <= i <= n,
            r@ == s@.subrange(0, i as int),
        decreases n - i,
    {
        r.push(s.get_char(i));
        proof {
            assert(r@ =~= s@.subrange(0, i + 1));
        }
        i = i + 1;
    }
    proof {
        assert(r@ =~= s@);
    }
    r
}

/// Whether a character slice holds exactly the characters of a string slice.
pub fn eq_str(v: &[char], s: &str) -> (r: bool)
    ensures
        r == (v@ == s@),
{
    let n = s.unicode_len();
    if v.len() != n {
        proof {
            assert(v@.len() != s@.len());
        }
        return false;
    }
    let mut i: usize = 0;
    while i < n
        invariant
            n == s@.len() == v@.len(),
            0 <= i <= n,
            forall|j: int| 0 <= j < i ==> v@[j] == s@[j],
        decreases n - i,
    {
        if v[i] != s.get_char(i) {
            return false;
        }
        i = i + 1;
    }
    proof {
        assert(v@ =~= s@);
    }
    true
}

/// Index of the first occurrence of `c` in `s`.
pub open spec fn find_char(s: Seq<char>, c: char) -> Option<int>
    decreases s.len(),
{
    if s.len() == 0 {
        None
    } else if s[0] == c {
        Some(0)
    } else {
        match find_char(s.drop_first(), c) {
            None => None,
            Some(i) => Some(i + 1),
        }
    }
}

pub proof fn lemma_find_char(s: Seq<char>, c: char)
    ensures
        match find_char(s, c) {
            None => forall|j: int| 0 <= j < s.len() ==> s[j] != c,
            Some(i) => 0 <= i < s.len() && s[i] == c && forall|j: int| 0 <= j < i ==> s[j] != c,
        },
    decreases s.len(),
{
    if s.len() == 0 {
    } else if s[0] == c {
    } else {
        lemma_find_char(s.drop_first(), c);
        assert forall|j: int| 1 <= j < s.len() implies s.drop_first()[j - 1] == s[j] by {}
    }
}

/// Whether `c` occurs in `s`.
pub open spec fn contains_char(s: Seq<char>, c: char) -> bool {
    find_char(s, c) is Some
}

/// Find the first occurrence of `c` in `v`.
pub fn find(v: &[char], c: char) -> (r: Option<usize>)
    ensures
        match r {
            None => find_char(v@, c) is None,
            Some(i) => find_char(v@, c) == Some(i as int),
        },
{
    proof {
        lemma_find_char(v@, c);
    }
    let mut i: usize = 0;
    while i < v.len()
        invariant
            0 <= i <= v@.len(),
            forall|j: int| 0 <= j < i ==> v@[j] != c,
        decreases v@.len() - i,
    {
        if v[i] == c {
            proof {
                lemma_find_char(v@, c);
            }
            return Some(i);
        }
        i = i + 1;
    }
    proof {
        lemma_find_char(v@, c);
    }
    None
}

/// Index of the last occurrence of `c` in `s`.
pub open spec fn rfind_char(s: Seq<char>, c: char) -> Option<int>
    decreases s.len(),
{
    if s.len() == 0 {
        None
    } else if s.last() == c {
        Some(s.len() - 1)
    } else {
        rfind_char(s.drop_last(), c)
    }
}

pub proof fn lemma_rfind_char(s: Seq<char>, c: char)
    ensures
        match rfind_char(s, c) {
            None => forall|j: int| 0 <= j < s.len() ==> s[j] != c,
            Some(i) => 0 <= i < s.len() && s[i] == c && forall|j: int|
                i < j < s.len() ==> s[j] != c,
        },
    decreases s.len(),
{
    if s.len() == 0 {
    } else if s.last() == c {
    } else {
        lemma_rfind_char(s.drop_last(), c);
        assert forall|j: int| 0 <= j < s.len() - 1 implies s.drop_last()[j] == s[j] by {}
    }
}

/// Find the last occurrence of `c` in `v`.
pub fn rfind(v: &[char], c: char) -> (r: Option<usize>)
    ensures
        match r {
            None => rfind_char(v@, c) is None,
            Some(i) => rfind_char(v@, c) == Some(i as int),
        },
{
    let mut i: usize = v.len();
    while i > 0
        invariant
            0 <= i <= v@.len(),
            forall|j: int| i <= j < v@.len() ==> v@[j] != c,
        decreases i,
    {
        i = i - 1;
        if v[i] == c {
            proof {
                lemma_rfind_char(v@, c);
            }
            return Some(i);
        }
    }
    proof {
        lemma_rfind_char(v@, c);
    }
    None
}

/// Whether `p` occurs as a prefix of `s`.
pub open spec fn spec_starts_with(s: Seq<char>, p: Seq<char>) -> bool {
    s.len() >= p.len() && s.subrange(0, p.len() as int) == p
}

/// Whether `v` starts with the characters of `p`.
pub fn starts_with_str(v: &[char], p: &str) -> (r: bool)
    ensures
        r == spec_starts_with(v@, p@),
{
    let n = p.unicode_len();
    if v.len() < n {
        return false;
    }
    eq_str(&v[0..n], p)
}

/// Index of the first occurrence of `p` as a contiguous part of `s`.
pub open spec fn find_sub(s: Seq<char>, p: Seq<char>) -> Option<int>
    decreases s.len(),
{
    if p.len() > s.len() {
        None
    } else if s.subrange(0, p.len() as int) == p {
        Some(0)
    } else if s.len() == 0 {
        None
    } else {
        match find_sub(s.drop_first(), p) {
            None => None,
            Some(i) => Some(i + 1),
        }
    }
}

pub proof fn lemma_find_sub(s: Seq<char>, p: Seq<char>)
    ensures
        match find_sub(s, p) {
            None => forall|j: int|
                0 <= j <= s.len() - p.len() ==> #[trigger] s.subrange(j, j + p.len()) != p,
            Some(i) => 0 <= i <= s.len() - p.len() && s.subrange(i, i + p.len()) == p
                && forall|j: int| 0 <= j < i ==> #[trigger] s.subrange(j, j + p.len()) != p,
        },
    decreases s.len(),
{
    if p.len() > s.len() {
    } else if s.subrange(0, p.len() as int) == p {
    } else if s.len() == 0 {
    } else {
        lemma_find_sub(s.drop_first(), p);
        assert forall|j: int| 1 <= j <= s.len() - p.len() implies #[trigger] s.subrange(
            j,
            j + p.len(),
        ) =~= s.drop_first().subrange(j - 1, j - 1 + p.len()) by {}
    }
}

/// Whether `p` occurs as a contiguous part of `s`.
pub open spec fn contains_sub(s: Seq<char>, p: Seq<char>) -> bool {
    find_sub(s, p) is Some
}

/// Find the first occurrence of the characters of `p` inside `v`.
pub fn find_str(v: &[char], p: &str) -> (r: Option<usize>)
    ensures
        match r {
            None => find_sub(v@, p@) is None,
            Some(i) => find_sub(v@, p@) == Some(i as int),
        },
{
    let n = p.unicode_len();
    if n > v.len() {
        return None;
    }
    if n == 0 {
        proof {
            assert(v@.subrange(0, 0) =~= p@);
        }
        return Some(0);
    }
    let mut i: usize = 0;
    while i <= v.len() - n
        invariant
            1 <= n == p@.len() <= v@.len(),
            0 <= i <= v@.len() - n + 1,
            forall|j: int| 0 <= j < i ==> #[trigger] v@.subrange(j, j + p@.len()) != p@,
        decreases v@.len() + 1 - i,
    {
        if eq_str(&v[i..i + n], p) {
            proof {
                lemma_find_sub(v@, p@);
            }
            return Some(i);
        }
        i = i + 1;
    }
    proof {
        lemma_find_sub(v@, p@);
    }
    None
}

/// Whether the characters of `p` occur inside `v`.
pub fn contains_str(v: &[char], p: &str) -> (r: bool)
    ensures
        r == contains_sub(v@, p@),
{
    find_str(v, p).is_some()
}

/// ASCII lower-casing of one character.
pub open spec fn lower_char(c: char) -> char {
    if 'A' <= c <= 'Z' {
        ((c as int) + 32) as char
    } else {
        c
    }
}

/// The sequence `s` lower-cased character by character.
pub open spec fn spec_to_lower(s: Seq<char>) -> Seq<char> {
    Seq::new(s.len(), |i: int| lower_char(s[i]))
}

/// Lower-case every character of `v` (ASCII letters only).
pub fn to_lower(v: &[char]) -> (r: Vec<char>)
    ensures
        r@ == spec_to_lower(v@),
{
    let mut r: Vec<char> = Vec::new();
    let mut i: usize = 0;
    while i < v.len()
        invariant
            0 <= i <= v@.len(),
            r@ == spec_to_lower(v@).subrange(0, i as int),
        decreases v@.len() - i,
    {
        let c = v[i];
        if 'A' <= c && c <= 'Z' {
            r.push(((c as u8) + 32) as char);
        } else {
            r.push(c);
        }
        proof {
            assert(r@ =~= spec_to_lower(v@).subrange(0, i + 1));
        }
        i = i + 1;
    }
    proof {
        assert(r@ =~= spec_to_lower(v@));
    }
    r
}

/// How many times `c` occurs in `s`.
pub open spec fn count_char(s: Seq<char>, c: char) -> int
    decreases s.len(),
{
    if s.len() == 0 {
        0
    } else {
        (if s[0] == c {
            1int
        } else {
            0int
        }) + count_char(s.drop_first(), c)
    }
}

/// Split `s` on every occurrence of `c`, keeping empty pieces.
pub open spec fn split_char(s: Seq<char>, c: char) -> Seq<Seq<char>>
    decreases s.len(),
{
    match find_char(s, c) {
        None => seq![s],
        Some(i) => if 0 <= i < s.len() {
            seq![s.subrange(0, i)] + split_char(s.subrange(i + 1, s.len() as int), c)
        } else {
            seq![s]
        },
    }
}

pub proof fn lemma_split_char_len(s: Seq<char>, c: char)
    ensures
        split_char(s, c).len() == 1 + count_char(s, c),
    decreases s.len(),
{
    lemma_find_char(s, c);
    match find_char(s, c) {
        None => {
            lemma_count_none(s, c);
        },
        Some(i) => {
            let rest = s.subrange(i + 1, s.len() as int);
            lemma_split_char_len(rest, c);
            lemma_count_split(s, c, i);
        },
    }
}

proof fn lemma_count_none(s: Seq<char>, c: char)
    requires
        forall|j: int| 0 <= j < s.len() ==> s[j] != c,
    ensures
        count_char(s, c) == 0,
    decreases s.len(),
{
    if s.len() > 0 {
        lemma_count_none(s.drop_first(), c);
    }
}

proof fn lemma_count_split(s: Seq<char>, c: char, i: int)
    requires
        0 <= i < s.len(),
        s[i] == c,
        forall|j: int| 0 <= j < i ==> s[j] != c,
    ensures
        count_char(s, c) == 1 + count_char(s.subrange(i + 1, s.len() as int), c),
    decreases i,
{
    if i == 0 {
        assert(s.drop_first() =~= s.subrange(1, s.len() as int));
    } else {
        let t = s.drop_first();
        lemma_count_split(t, c, i - 1);
        assert(t.subrange(i, t.len() as int) =~= s.subrange(i + 1, s.len() as int));
    }
}

/// Split `v` on every occurrence of `c`, keeping empty pieces.
pub fn split_all(v: &[char], c: char) -> (r: Vec<Vec<char>>)
    ensures
        r.deep_view() == split_char(v@, c),
{
    let mut r: Vec<Vec<char>> = Vec::new();
    let mut start: usize = 0;
    let mut i: usize = 0;
    proof {
        assert(v@.subrange(0, v@.len() as int) =~= v@);
        assert(r.deep_view() =~~= Seq::<Seq<char>>::empty());
        assert(split_char(v@, c) =~~= r.deep_view() + split_char(
            v@.subrange(0, v@.len() as int),
            c,
        ));
    }
    while i < v.len()
        invariant
            0 <= start <= i <= v@.len(),
            forall|j: int| start <= j < i ==> v@[j] != c,
            split_char(v@, c) == r.deep_view() + split_char(
                v@.subrange(start as int, v@.len() as int),
                c,
            ),
        decreases v@.len() - i,
    {
        if v[i] == c {
            let ghost tail = v@.subrange(start as int, v@.len() as int);
            proof {
                lemma_find_char(tail, c);
                assert(tail[i - start] == v@[i as int]);
                match find_char(tail, c) {
                    None => {
                        assert(tail[i - start] == c);
                    },
                    Some(k) => {
                        if k < i - start {
                            assert(v@[k + start] == tail[k]);
                        } else if k > i - start {
                            assert(tail[i - start] == c);
                        }
                    },
                }
                assert(find_char(tail, c) == Some(i - start as int));
            }
            let piece = chars_vec(&v[start..i]);
            let ghost old_r = r.deep_view();
            r.push(piece);
            proof {
                assert(r.deep_view() =~~= old_r.push(tail.subrange(0, i - start as int)));
                assert(tail.subrange(i - start + 1, tail.len() as int) =~= v@.subrange(
                    i + 1,
                    v@.len() as int,
                ));
                assert(split_char(tail, c) == seq![tail.subrange(0, i - start as int)]
                    + split_char(v@.subrange(i + 1, v@.len() as int), c));
                assert(split_char(v@, c) =~~= r.deep_view() + split_char(
                    v@.subrange(i + 1, v@.len() as int),
                    c,
                ));
            }
            start = i + 1;
        }
        i = i + 1;
    }
    let ghost tail = v@.subrange(start as int, v@.len() as int);
    proof {
        lemma_find_char(tail, c);
        match find_char(tail, c) {
            Some(k) => {
                assert(v@[k + start] == tail[k]);
            },
            None => {},
        }
        assert(find_char(tail, c) is None);
    }
    let piece = chars_vec(&v[start..v.len()]);
    let ghost old_r = r.deep_view();
    r.push(piece);
    proof {
        assert(r.deep_view() =~~= old_r.push(tail));
        assert(split_char(tail, c) == seq![tail]);
        assert(r.deep_view() =~~= old_r + split_char(tail, c));
    }
    r
}

/// Copy a slice of characters into a vector.
pub fn chars_vec(v: &[char]) -> (r: Vec<char>)
    ensures
        r@ == v@,
{
    let mut r: Vec<char> = Vec::new();
    let mut i: usize = 0;
    while i < v.len()
        invariant
            0 <= i <= v@.len(),
            r@ == v@.subrange(0, i as int),
        decreases v@.len() - i,
    {
        r.push(v[i]);
        proof {
            assert(r@ =~= v@.subrange(0, i + 1));
        }
        i = i + 1;
    }
    proof {
        assert(r@ =~= v@);
    }
    r
}

/// Build a `String` from a character slice.
///
/// Relies on `String`'s `FromIterator` over `char`: collecting yields exactly
/// the characters handed in, in order.
#[verifier::external_body]
pub fn chars_to_string(v: &[char]) -> (r: String)
    ensures
        r@ == v@,
{
    v.iter().collect()
}


/// Index of the first whitespace character in `s`.
pub open spec fn find_space_at(s: Seq<char>) -> Option<int>
    decreases s.len(),
{
    if s.len() == 0 {
        None
    } else if is_space(s[0]) {
        Some(0)
    } else {
        match find_space_at(s.drop_first()) {
            None => None,
            Some(i) => Some(i + 1),
        }
    }
}

pub proof fn lemma_find_space_at(s: Seq<char>)
    ensures
        match find_space_at(s) {
            None => forall|j: int| 0 <= j < s.len() ==> !is_space(s[j]),
            Some(i) => 0 <= i < s.len() && is_space(s[i]) && forall|j: int|
                0 <= j < i ==> !is_space(s[j]),
        },
    decreases s.len(),
{
    if s.len() == 0 {
    } else if is_space(s[0]) {
    } else {
        lemma_find_space_at(s.drop_first());
        assert forall|j: int| 1 <= j < s.len() implies s.drop_first()[j - 1] == s[j] by {}
    }
}

/// Find the first whitespace character in `v`.
pub fn find_space(v: &[char]) -> (r: Option<usize>)
    ensures
        match r {
            None => find_space_at(v@) is None,
            Some(i) => find_space_at(v@) == Some(i as int),
        },
{
    let mut i: usize = 0;
    while i < v.len()
        invariant
            0 <= i <= v@.len(),
            forall|j: int| 0 <= j < i ==> !is_space(v@[j]),
        decreases v@.len() - i,
    {
        if space(v[i]) {
            proof {
                lemma_find_space_at(v@);
            }
            return Some(i);
        }
        i = i + 1;
    }
    proof {
        lemma_find_space_at(v@);
    }
    None
}

/// Whether two character slices hold the same characters.
pub fn eq_chars(a: &[char], b: &[char]) -> (r: bool)
    ensures
        r == (a@ == b@),
{
    if a.len() != b.len() {
        proof {
            assert(a@.len() != b@.len());
        }
        return false;
    }
    let mut i: usize = 0;
    while i < a.len()
        invariant
            a@.len() == b@.len(),
            0 <= i <= a@.len(),
            forall|j: int| 0 <= j < i ==> a@[j] == b@[j],
        decreases a@.len() - i,
    {
        if a[i] != b[i] {
            return false;
        }
        i = i + 1;
    }
    proof {
        assert(a@ =~= b@);
    }
    true
}

pub proof fn lemma_trim_le(s: Seq<char>)
    ensures
        spec_trim(s).len() <= s.len(),
{
    lemma_leading_spaces(s);
    lemma_trailing_spaces(s);
    lemma_trim_bounds(s);
}

pub proof fn lemma_lower_char_cases(c: char)
    ensures
        'A' <= c <= 'Z' ==> 'a' <= lower_char(c) <= 'z' && lower_char(c) as int == c as int + 32,
        !('A' <= c <= 'Z') ==> lower_char(c) == c,
{
}


pub proof fn lemma_contains_count(s: Seq<char>, c: char)
    ensures
        count_char(s, c) >= 0,
        contains_char(s, c) ==> count_char(s, c) >= 1,
    decreases s.len(),
{
    if s.len() > 0 {
        lemma_contains_count(s.drop_first(), c);
    }
}

} // verus!
