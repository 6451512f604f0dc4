use vstd::prelude::*;

verus! {

/// `String::push` appends one character to the end of the string.
pub assume_specification[ String::push ](s: &mut String, c: char)
    ensures
        final(s)@ == old(s)@.push(c),
;

/// The characters of `s`, in order.
pub fn chars_of(s: &str) -> (r: Vec<char>)
    ensures
        r@ == s@,
{
    let mut out: Vec<char> = Vec::new();
    for c in it: s.chars()
        invariant
            it.seq() == s@,
            out@ == it.seq().take(it.index()),
    {
        out.push(c);
    }
    out
}

/// The string made of the characters `v[from..to]`.
pub fn string_of(v: &Vec<char>, from: usize, to: usize) -> (r: String)
    requires
        from <= to <= v@.len(),
    ensures
        r@ == v@.subrange(from as int, to as int),
{
    let mut out = String::new();
    let mut i: usize = from;
    while i < to
        invariant
            from <= i <= to <= v@.len(),
            out@ == v@.subrange(from as int, i as int),
        decreases to - i,
    {
        out.push(v[i]);
        i += 1;
    }
    out
}

/// Whether every character of `s` is one of the 128 ASCII characters.
pub open spec fn all_ascii(s: Seq<char>) -> bool {
    forall|i: int| 0 <= i < s.len() ==> (#[trigger] s[i] as u32) < 128
}

/// The lowercase form of an ASCII letter; any other character unchanged.
pub open spec fn ascii_lower_char(c: char) -> char {
    if 'A' <= c && c <= 'Z' {
        ((c as u8) + 32) as char
    } else {
        c
    }
}

/// `s` with each ASCII capital replaced by its lowercase letter.
pub open spec fn ascii_lower(s: Seq<char>) -> Seq<char> {
    Seq::new(s.len(), |i: int| ascii_lower_char(s[i]))
}

/// Whether `c` has the Unicode property White_Space.
pub open spec fn is_whitespace(c: char) -> bool {
    let n = c as u32;
    ||| 0x09 <= n <= 0x0d
    ||| n == 0x20
    ||| n == 0x85
    ||| n == 0xa0
    ||| n == 0x1680
    ||| 0x2000 <= n <= 0x200a
    ||| n == 0x2028
    ||| n == 0x2029
    ||| n == 0x202f
    ||| n == 0x205f
    ||| n == 0x3000
}

/// `s` without its white space.
pub open spec fn without_whitespace(s: Seq<char>) -> Seq<char> {
    s.filter(|c: char| !is_whitespace(c))
}

/// Whether `c` is a decimal digit, `0` to `9`.
pub open spec fn is_digit(c: char) -> bool {
    '0' <= c && c <= '9'
}

/// Whether `s` begins with `prefix`.
pub open spec fn has_prefix(s: Seq<char>, prefix: Seq<char>) -> bool {
    prefix.len() <= s.len() && s.take(prefix.len() as int) == prefix
}

/// Whether `s` ends with `suffix`.
pub open spec fn has_suffix(s: Seq<char>, suffix: Seq<char>) -> bool {
    suffix.len() <= s.len() && s.skip(s.len() - suffix.len()) == suffix
}

/// The index of the first `c` in `s`, or the length of `s` where there is none.
pub open spec fn position(s: Seq<char>, c: char) -> int
    decreases s.len(),
{
    if s.len() == 0 || s[0] == c {
        0
    } else {
        1 + position(s.drop_first(), c)
    }
}

/// `position` is within bounds, points at `c` when inside, and nothing before it is `c`.
pub proof fn lemma_position(s: Seq<char>, c: char)
    ensures
        0 <= position(s, c) <= s.len(),
        position(s, c) < s.len() ==> s[position(s, c)] == c,
        forall|j: int| 0 <= j < position(s, c) ==> s[j] != c,
    decreases s.len(),
{
    if s.len() == 0 || s[0] == c {
    } else {
        let t = s.drop_first();
        lemma_position(t, c);
        assert forall|j: int| 0 <= j < position(s, c) implies s[j] != c by {
            if j > 0 {
                assert(s[j] == t[j - 1]);
            }
        }
    }
}

/// An index that holds `c` and has no `c` before it is the `position` of `c`.
pub proof fn lemma_position_is(s: Seq<char>, c: char, k: int)
    requires
        0 <= k <= s.len(),
        k < s.len() ==> s[k] == c,
        forall|j: int| 0 <= j < k ==> s[j] != c,
    ensures
        position(s, c) == k,
{
    lemma_position(s, c);
    let p = position(s, c);
    if p < k {
        assert(s[p] == c);
    } else if k < p {
        assert(s[k] == c);
    }
}

pub fn is_whitespace_char(c: char) -> (r: bool)
    ensures
        r == is_whitespace(c),
{
    let n: u32 = c as u32;
    (0x09 <= n && n <= 0x0d) || n == 0x20 || n == 0x85 || n == 0xa0 || n == 0x1680 || (0x2000 <= n
        && n <= 0x200a) || n == 0x2028 || n == 0x2029 || n == 0x202f || n == 0x205f || n == 0x3000
}

pub fn is_digit_char(c: char) -> (r: bool)
    ensures
        r == is_digit(c),
{
    '0' <= c && c <= '9'
}

pub fn lower_ascii_char(c: char) -> (r: char)
    ensures
        r == ascii_lower_char(c),
{
    if 'A' <= c && c <= 'Z' {
        let n: u8 = c as u8 + 32;
        n as char
    } else {
        c
    }
}

/// The first index at or after `from` that holds `c`.
pub fn find_from(v: &Vec<char>, c: char, from: usize) -> (r: usize)
    requires
        from <= v@.len(),
    ensures
        r == from + position(v@.skip(from as int), c),
        from <= r <= v@.len(),
{
    let mut i: usize = from;
    while i < v.len() && v[i] != c
        invariant
            from <= i <= v@.len(),
            forall|j: int| from <= j < i ==> v@[j] != c,
        decreases v@.len() - i,
    {
        i += 1;
    }
    proof {
        let t = v@.skip(from as int);
        assert forall|j: int| 0 <= j < i - from implies t[j] != c by {
            assert(t[j] == v@[from + j]);
        }
        lemma_position_is(t, c, i - from);
    }
    i
}

/// Whether `v` begins with the characters of `prefix`.
pub fn starts_with(v: &Vec<char>, prefix: &str) -> (r: bool)
    ensures
        r == has_prefix(v@, prefix@),
{
    let p = chars_of(prefix);
    if p.len() > v.len() {
        return false;
    }
    let mut i: usize = 0;
    while i < p.len()
        invariant
            i <= p@.len() <= v@.len(),
            p@ == prefix@,
            forall|j: int| 0 <= j < i ==> v@[j] == p@[j],
        decreases p@.len() - i,
    {
        if v[i] != p[i] {
            proof {
                assert(v@.take(p@.len() as int)[i as int] == v@[i as int]);
            }
            return false;
        }
        i += 1;
    }
    proof {
        assert(v@.take(p@.len() as int) =~= p@);
    }
    true
}

/// Whether `v` ends with the characters of `suffix`.
pub fn ends_with(v: &Vec<char>, suffix: &str) -> (r: bool)
    ensures
        r == has_suffix(v@, suffix@),
{
    let p = chars_of(suffix);
    if p.len() > v.len() {
        return false;
    }
    let off: usize = v.len() - p.len();
    let mut i: usize = 0;
    while i < p.len()
        invariant
            i <= p@.len() <= v@.len(),
            off + p@.len() == v@.len(),
            v@.len() <= usize::MAX,
            p@ == suffix@,
            forall|j: int| 0 <= j < i ==> v@[off + j] == p@[j],
        decreases p@.len() - i,
    {
        if v[off + i] != p[i] {
            proof {
                assert(v@.skip(off as int)[i as int] == v@[off + i]);
            }
            return false;
        }
        i += 1;
    }
    proof {
        assert(v@.skip(off as int) =~= p@);
    }
    true
}

/// Whether the two hold the same characters.
pub fn same_chars(a: &Vec<char>, b: &Vec<char>) -> (r: bool)
    ensures
        r == (a@ == b@),
{
    if a.len() != b.len() {
        return false;
    }
    let mut i: usize = 0;
    while i < a.len()
        invariant
            i <= a@.len(),
            a@.len() == b@.len(),
            forall|j: int| 0 <= j < i ==> a@[j] == b@[j],
        decreases a@.len() - i,
    {
        if a[i] != b[i] {
            return false;
        }
        i += 1;
    }
    proof {
        assert(a@ =~= b@);
    }
    true
}

/// Whether the two strings hold the same characters.
pub fn same_text(a: &str, b: &str) -> (r: bool)
    ensures
        r == (a@ == b@),
{
    let x = chars_of(a);
    let y = chars_of(b);
    same_chars(&x, &y)
}

/// `v` with each ASCII capital replaced by its lowercase letter.
pub fn lower_ascii(v: &Vec<char>) -> (r: Vec<char>)
    ensures
        r@ == ascii_lower(v@),
{
    let mut out: Vec<char> = Vec::new();
    let mut i: usize = 0;
    while i < v.len()
        invariant
            i <= v@.len(),
            out@.len() == i,
            forall|j: int| 0 <= j < i ==> out@[j] == ascii_lower_char(v@[j]),
        decreases v@.len() - i,
    {
        out.push(lower_ascii_char(v[i]));
        i += 1;
    }
    proof {
        assert(out@ =~= ascii_lower(v@));
    }
    out
}

/// `v` without its white space.
pub fn strip_whitespace(v: &Vec<char>) -> (r: Vec<char>)
    ensures
        r@ == without_whitespace(v@),
{
    let ghost keep = |c: char| !is_whitespace(c);
    let mut out: Vec<char> = Vec::new();
    let mut i: usize = 0;
    proof {
        reveal(Seq::filter);
        assert(v@.take(0) =~= Seq::<char>::empty());
    }
    while i < v.len()
        invariant
            i <= v@.len(),
            keep == |c: char| !is_whitespace(c),
            out@ == v@.take(i as int).filter(keep),
        decreases v@.len() - i,
    {
        proof {
            reveal(Seq::filter);
            assert(v@.take(i + 1).drop_last() =~= v@.take(i as int));
        }
        if !is_whitespace_char(v[i]) {
            out.push(v[i]);
        }
        i += 1;
    }
    proof {
        assert(v@.take(v@.len() as int) =~= v@);
    }
    out
}

/// What `str::to_lowercase` returns for a string of these characters.
pub uninterp spec fn lowercase_of(s: Seq<char>) -> Seq<char>;

/// Whether `char::is_alphabetic` holds of this character.
pub uninterp spec fn alphabetic(c: char) -> bool;

/// The lowercase form of `s`: letter by letter on ASCII text, Unicode's mapping otherwise.
pub open spec fn lower(s: Seq<char>) -> Seq<char> {
    if all_ascii(s) {
        ascii_lower(s)
    } else {
        lowercase_of(s)
    }
}

/// Whether `c` is a letter: `a` to `z` and `A` to `Z` among the ASCII characters, the
/// Unicode property Alphabetic beyond them.
pub open spec fn is_alpha(c: char) -> bool {
    if (c as u32) < 128 {
        ('a' <= c && c <= 'z') || ('A' <= c && c <= 'Z')
    } else {
        alphabetic(c)
    }
}

/// The number of letters that `s` begins with.
pub open spec fn alpha_run(s: Seq<char>) -> int
    decreases s.len(),
{
    if s.len() == 0 || !is_alpha(s[0]) {
        0
    } else {
        1 + alpha_run(s.drop_first())
    }
}

/// Whether every character of `s` is a letter.
pub open spec fn all_alpha(s: Seq<char>) -> bool {
    forall|i: int| 0 <= i < s.len() ==> is_alpha(#[trigger] s[i])
}

/// Whether every character of `s` is a decimal digit.
pub open spec fn all_digits(s: Seq<char>) -> bool {
    forall|i: int| 0 <= i < s.len() ==> is_digit(#[trigger] s[i])
}

/// `alpha_run` is within bounds, everything before it is a letter, and what it points at is not.
pub proof fn lemma_alpha_run(s: Seq<char>)
    ensures
        0 <= alpha_run(s) <= s.len(),
        alpha_run(s) < s.len() ==> !is_alpha(s[alpha_run(s)]),
        forall|j: int| 0 <= j < alpha_run(s) ==> is_alpha(#[trigger] s[j]),
    decreases s.len(),
{
    if s.len() == 0 || !is_alpha(s[0]) {
    } else {
        let t = s.drop_first();
        lemma_alpha_run(t);
        assert forall|j: int| 0 <= j < alpha_run(s) implies is_alpha(#[trigger] s[j]) by {
            if j > 0 {
                assert(s[j] == t[j - 1]);
            }
        }
    }
}

/// An index with only letters before it, which holds none itself, is the `alpha_run`.
pub proof fn lemma_alpha_run_is(s: Seq<char>, k: int)
    requires
        0 <= k <= s.len(),
        k < s.len() ==> !is_alpha(s[k]),
        forall|j: int| 0 <= j < k ==> is_alpha(#[trigger] s[j]),
    ensures
        alpha_run(s) == k,
{
    lemma_alpha_run(s);
    let p = alpha_run(s);
    if p < k {
        assert(is_alpha(s[p]));
    } else if k < p {
        assert(is_alpha(s[k]));
    }
}

/// Text without white space is left as it is by `without_whitespace`.
pub proof fn lemma_no_whitespace_fixed(s: Seq<char>)
    requires
        forall|i: int| 0 <= i < s.len() ==> !is_whitespace(#[trigger] s[i]),
    ensures
        without_whitespace(s) == s,
    decreases s.len(),
{
    reveal(Seq::filter);
    if s.len() > 0 {
        let t = s.drop_last();
        assert forall|i: int| 0 <= i < t.len() implies !is_whitespace(#[trigger] t[i]) by {
            assert(t[i] == s[i]);
        }
        lemma_no_whitespace_fixed(t);
        assert(t.push(s.last()) =~= s);
    }
}

/// Every character of `without_whitespace(s)` is a character of `s` that is no white space.
pub proof fn lemma_without_whitespace(s: Seq<char>)
    ensures
        forall|i: int|
            0 <= i < without_whitespace(s).len() ==> !is_whitespace(
                #[trigger] without_whitespace(s)[i],
            ) && s.contains(without_whitespace(s)[i]),
    decreases s.len(),
{
    reveal(Seq::filter);
    if s.len() > 0 {
        let t = s.drop_last();
        lemma_without_whitespace(t);
        let w = without_whitespace(s);
        assert forall|i: int| 0 <= i < w.len() implies !is_whitespace(#[trigger] w[i])
            && s.contains(w[i]) by {
            if i < without_whitespace(t).len() {
                let c = without_whitespace(t)[i];
                assert(t.contains(c));
                let j = choose|j: int| 0 <= j < t.len() && t[j] == c;
                assert(s[j] == c);
            } else {
                assert(w[i] == s.last());
                assert(s[s.len() - 1] == s.last());
            }
        }
    }
}

/// Lowercase ASCII text is left as it is by `lower`.
pub proof fn lemma_lower_fixed(s: Seq<char>)
    requires
        all_ascii(s),
        forall|i: int| 0 <= i < s.len() ==> !('A' <= #[trigger] s[i] && s[i] <= 'Z'),
    ensures
        lower(s) == s,
{
    assert(ascii_lower(s) =~= s);
}

/// `str::to_lowercase`: the lowercase form of the string. On ASCII text it replaces the
/// letters `A` to `Z` by `a` to `z` and changes nothing else.
#[verifier::external_body]
pub(crate) fn to_lowercase(s: &str) -> (r: String)
    ensures
        r@ == lowercase_of(s@),
        all_ascii(s@) ==> r@ == ascii_lower(s@),
{
    s.to_lowercase()
}

/// `char::is_alphabetic`: whether the character has the Unicode property Alphabetic.
/// Among the ASCII characters these are the letters `a` to `z` and `A` to `Z`.
#[verifier::external_body]
pub(crate) fn is_alphabetic(c: char) -> (r: bool)
    ensures
        r == alphabetic(c),
        (c as u32) < 128 ==> r == (('a' <= c && c <= 'z') || ('A' <= c && c <= 'Z')),
{
    c.is_alphabetic()
}

/// The lowercase form of `s`.
pub fn lowercase(s: &str) -> (r: String)
    ensures
        r@ == lower(s@),
{
    to_lowercase(s)
}

/// Whether `c` is a letter.
pub fn is_alpha_char(c: char) -> (r: bool)
    ensures
        r == is_alpha(c),
{
    is_alphabetic(c)
}

/// The number of letters that `v` begins with.
pub fn leading_letters(v: &Vec<char>) -> (r: usize)
    ensures
        r == alpha_run(v@),
        r <= v@.len(),
{
    let mut i: usize = 0;
    while i < v.len() && is_alpha_char(v[i])
        invariant
            i <= v@.len(),
            forall|j: int| 0 <= j < i ==> is_alpha(#[trigger] v@[j]),
        decreases v@.len() - i,
    {
        i += 1;
    }
    proof {
        lemma_alpha_run_is(v@, i as int);
    }
    i
}

/// The string, where there is one, as a sequence of characters.
pub open spec fn text_view(s: Option<String>) -> Option<Seq<char>> {
    match s {
        Some(t) => Some(t@),
        None => None,
    }
}

/// The strings as sequences of characters.
pub open spec fn text_views(v: Seq<String>) -> Seq<Seq<char>> {
    Seq::new(v.len(), |i: int| v[i]@)
}

/// Whether one of the strings holds the characters of `s`.
pub fn contains_text(v: &Vec<String>, s: &str) -> (r: bool)
    ensures
        r == text_views(v@).contains(s@),
{
    let mut i: usize = 0;
    while i < v.len()
        invariant
            i <= v@.len(),
            forall|j: int| 0 <= j < i ==> text_views(v@)[j] != s@,
        decreases v@.len() - i,
    {
        if same_text(v[i].as_str(), s) {
            assert(text_views(v@)[i as int] == s@);
            return true;
        }
        i += 1;
    }
    false
}

} // verus!
