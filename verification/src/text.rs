//! Character-level text utilities shared by the ingestion and chunking code.
//!
//! Text is handled as sequences of `char`; the spec functions here state what
//! the standard string operations (`trim`, `lines`, `split`, `find`, ...) do on
//! such sequences, and the executable functions compute them.

use vstd::prelude::*;
use vstd::std_specs::iter::IteratorSpec;

verus! {

// ---------------------------------------------------------------------------
// Conversions between strings and character vectors
// ---------------------------------------------------------------------------

/// Appends one character to a string (`String::push`).
/// Trusted: the new contents are the old contents followed by `c`.
#[verifier::external_body]
pub fn push_char(s: &mut String, c: char)
    ensures
        final(s)@ == old(s)@.push(c),
{
    s.push(c);
}

/// The characters of a string slice, in order.
pub fn to_chars(s: &str) -> (v: Vec<char>)
    ensures
        v@ == s@,
{
    let mut v: Vec<char> = Vec::new();
    for c in it: s.chars()
        invariant
            v@ == it.seq().take(it.index()),
    {
        v.push(c);
        assert(v@ == it.seq().take(it.index() + 1));
    }
    v
}

/// A string holding exactly the given characters.
pub fn from_chars(v: &[char]) -> (s: String)
    ensures
        s@ == v@,
{
    let mut s = String::new();
    let mut i: usize = 0;
    while i < v.len()
        invariant
            i <= v.len(),
            s@ == v@.take(i as int),
        decreases v.len() - i,
    {
        push_char(&mut s, v[i]);
        i += 1;
        assert(s@ == v@.take(i as int));
    }
    assert(v@.take(v@.len() as int) == v@);
    s
}

/// The views of a sequence of character vectors.
pub open spec fn views_of(v: Seq<Vec<char>>) -> Seq<Seq<char>> {
    Seq::new(v.len(), |i: int| v[i]@)
}

/// The views of a sequence of strings.
pub open spec fn string_views(v: Seq<String>) -> Seq<Seq<char>> {
    Seq::new(v.len(), |i: int| v[i]@)
}

/// Strings holding the given character vectors, in order.
pub fn strings_from(v: &Vec<Vec<char>>) -> (r: Vec<String>)
    ensures
        string_views(r@) == views_of(v@),
{
    let mut r: Vec<String> = Vec::new();
    let mut i: usize = 0;
    while i < v.len()
        invariant
            i <= v.len(),
            r@.len() == i,
            forall|k: int| 0 <= k < i ==> #[trigger] r@[k]@ == v@[k]@,
        decreases v.len() - i,
    {
        r.push(from_chars(v[i].as_slice()));
        i += 1;
    }
    assert(string_views(r@) =~= views_of(v@));
    r
}

// ---------------------------------------------------------------------------
// Whitespace and trimming
// ---------------------------------------------------------------------------

/// `char::is_whitespace`: the Unicode `White_Space` property.
pub open spec fn is_white(c: char) -> bool {
    let u = c as u32;
    ||| (9 <= u && u <= 13)
    ||| u == 32
    ||| u == 0x85
    ||| u == 0xA0
    ||| u == 0x1680
    ||| (0x2000 <= u && u <= 0x200A)
    ||| u == 0x2028
    ||| u == 0x2029
    ||| u == 0x202F
    ||| u == 0x205F
    ||| u == 0x3000
}

/// Whether `c` is whitespace.
pub fn is_whitespace(c: char) -> (b: bool)
    ensures
        b == is_white(c),
{
    let u = c as u32;
    (9 <= u && u <= 13) || u == 32 || u == 0x85 || u == 0xA0 || u == 0x1680 || (0x2000 <= u && u
        <= 0x200A) || u == 0x2028 || u == 0x2029 || u == 0x202F || u == 0x205F || u == 0x3000
}

/// Number of whitespace characters at the start of `s`.
pub open spec fn lead_white(s: Seq<char>) -> nat
    decreases s.len(),
{
    if s.len() == 0 {
        0
    } else if is_white(s[0]) {
        1 + lead_white(s.drop_first())
    } else {
        0
    }
}

/// Number of whitespace characters at the end of `s`.
pub open spec fn trail_white(s: Seq<char>) -> nat
    decreases s.len(),
{
    if s.len() == 0 {
        0
    } else if is_white(s.last()) {
        1 + trail_white(s.drop_last())
    } else {
        0
    }
}

/// `str::trim_start`.
pub open spec fn trim_start(s: Seq<char>) -> Seq<char> {
    s.skip(lead_white(s) as int)
}

/// `str::trim_end`.
pub open spec fn trim_end(s: Seq<char>) -> Seq<char> {
    s.take(s.len() - trail_white(s))
}

/// `str::trim`.
pub open spec fn trim(s: Seq<char>) -> Seq<char> {
    trim_end(trim_start(s))
}

/// Leading whitespace does not change the trimmed text.
pub proof fn lemma_trim_after_white(c: char, x: Seq<char>)
    requires
        is_white(c),
    ensures
        trim(seq![c] + x) == trim(x),
{
    let y = seq![c] + x;
    assert(y.drop_first() =~= x);
    assert(lead_white(y) == 1 + lead_white(x));
    lemma_lead_white_bound(x);
    assert(y.skip(lead_white(y) as int) =~= x.skip(lead_white(x) as int));
}

/// Trailing whitespace does not change the trimmed text.
pub proof fn lemma_trim_drop_white(x: Seq<char>)
    requires
        x.len() > 0,
        is_white(x.last()),
    ensures
        trim(x.drop_last()) == trim(x),
    decreases x.len(),
{
    let d = x.drop_last();
    lemma_lead_white_bound(x);
    lemma_lead_white_bound(d);
    lemma_lead_white_prefix(x);
    if lead_white(x) == x.len() {
        assert(trim_start(x) =~= Seq::<char>::empty());
        assert(trim_start(d) =~= Seq::<char>::empty());
    } else {
        let z = trim_start(d);
        assert(trim_start(x) =~= z.push(x.last()));
        assert(z.push(x.last()).drop_last() =~= z);
        lemma_trail_white_bound(z);
        assert(trim_end(z.push(x.last())) =~= trim_end(z));
    }
}

/// Dropping a trailing whitespace character keeps the leading whitespace
/// count, unless the whole text is whitespace.
proof fn lemma_lead_white_prefix(x: Seq<char>)
    requires
        x.len() > 0,
        is_white(x.last()),
    ensures
        lead_white(x) == x.len() ==> lead_white(x.drop_last()) == x.drop_last().len(),
        lead_white(x) < x.len() ==> lead_white(x.drop_last()) == lead_white(x),
    decreases x.len(),
{
    if x.len() == 1 {
        assert(x.drop_last() =~= Seq::<char>::empty());
        assert(x[0] == x.last());
        assert(x.drop_first() =~= Seq::<char>::empty());
    } else if is_white(x[0]) {
        let t = x.drop_first();
        assert(t.last() == x.last());
        lemma_lead_white_prefix(t);
        assert(x.drop_last().drop_first() =~= t.drop_last());
        assert(x.drop_last()[0] == x[0]);
    } else {
        assert(x.drop_last()[0] == x[0]);
    }
}

pub proof fn lemma_lead_white_bound(s: Seq<char>)
    ensures
        lead_white(s) <= s.len(),
    decreases s.len(),
{
    if s.len() > 0 && is_white(s[0]) {
        lemma_lead_white_bound(s.drop_first());
    }
}

pub proof fn lemma_trail_white_bound(s: Seq<char>)
    ensures
        trail_white(s) <= s.len(),
    decreases s.len(),
{
    if s.len() > 0 && is_white(s.last()) {
        lemma_trail_white_bound(s.drop_last());
    }
}

/// Index of the first character of `s[from..]` that is not whitespace, or `s.len()`.
fn skip_white(s: &[char], from: usize) -> (i: usize)
    requires
        from <= s.len(),
    ensures
        from <= i <= s.len(),
        i == from + lead_white(s@.skip(from as int)),
{
    let mut i = from;
    while i < s.len() && is_whitespace(s[i])
        invariant
            from <= i <= s.len(),
            lead_white(s@.skip(from as int)) == (i - from) + lead_white(s@.skip(i as int)),
        decreases s.len() - i,
    {
        assert(s@.skip(i as int).drop_first() =~= s@.skip(i + 1));
        i += 1;
    }
    i
}

/// Trims whitespace from both ends of `s[from..to]`, returning the bounds.
fn trim_bounds(s: &[char], from: usize, to: usize) -> (r: (usize, usize))
    requires
        from <= to <= s.len(),
    ensures
        from <= r.0 <= r.1 <= to,
        s@.subrange(r.0 as int, r.1 as int) == trim(s@.subrange(from as int, to as int)),
{
    let ghost t = s@.subrange(from as int, to as int);
    let mut i = from;
    while i < to && is_whitespace(s[i])
        invariant
            from <= i <= to <= s.len(),
            t == s@.subrange(from as int, to as int),
            lead_white(t) == (i - from) + lead_white(s@.subrange(i as int, to as int)),
        decreases to - i,
    {
        assert(s@.subrange(i as int, to as int).drop_first() =~= s@.subrange(i + 1, to as int));
        i += 1;
    }
    assert(trim_start(t) =~= s@.subrange(i as int, to as int));
    let ghost u = s@.subrange(i as int, to as int);
    let mut j = to;
    while j > i && is_whitespace(s[j - 1])
        invariant
            from <= i <= j <= to <= s.len(),
            u == s@.subrange(i as int, to as int),
            trail_white(u) == (to - j) + trail_white(s@.subrange(i as int, j as int)),
        decreases j - i,
    {
        assert(s@.subrange(i as int, j as int).drop_last() =~= s@.subrange(i as int, j - 1));
        j -= 1;
    }
    assert(trim_end(u) =~= s@.subrange(i as int, j as int));
    (i, j)
}

/// `str::trim` on a character slice.
pub fn trim_chars(s: &[char]) -> (r: Vec<char>)
    ensures
        r@ == trim(s@),
{
    let (i, j) = trim_bounds(s, 0, s.len());
    assert(s@.subrange(0, s@.len() as int) =~= s@);
    slice_to_vec(s, i, j)
}

/// The characters `s[from..to]` as a vector.
pub fn slice_to_vec(s: &[char], from: usize, to: usize) -> (r: Vec<char>)
    requires
        from <= to <= s.len(),
    ensures
        r@ == s@.subrange(from as int, to as int),
{
    let mut r: Vec<char> = Vec::new();
    let mut k = from;
    while k < to
        invariant
            from <= k <= to <= s.len(),
            r@ == s@.subrange(from as int, k as int),
        decreases to - k,
    {
        r.push(s[k]);
        k += 1;
        assert(r@ =~= s@.subrange(from as int, k as int));
    }
    r
}

// ---------------------------------------------------------------------------
// Prefixes, suffixes and substring search
// ---------------------------------------------------------------------------

/// `str::starts_with`.
pub open spec fn starts_with(s: Seq<char>, p: Seq<char>) -> bool {
    p.len() <= s.len() && s.take(p.len() as int) == p
}

/// `str::ends_with`.
pub open spec fn ends_with(s: Seq<char>, p: Seq<char>) -> bool {
    p.len() <= s.len() && s.skip(s.len() - p.len()) == p
}

/// `p` occurs in `s` starting at index `k`.
pub open spec fn match_at(s: Seq<char>, p: Seq<char>, k: int) -> bool {
    0 <= k && k + p.len() <= s.len() && s.subrange(k, k + p.len()) == p
}

/// `k` is the leftmost occurrence of `p` in `s`.
pub open spec fn first_match(s: Seq<char>, p: Seq<char>, k: int) -> bool {
    match_at(s, p, k) && forall|j: int| 0 <= j < k ==> !match_at(s, p, j)
}

/// `str::contains` with a string pattern.
pub open spec fn contains(s: Seq<char>, p: Seq<char>) -> bool {
    exists|k: int| match_at(s, p, k)
}

/// `str::find` with a string pattern, in characters: the leftmost occurrence.
pub open spec fn find(s: Seq<char>, p: Seq<char>) -> Option<int> {
    if contains(s, p) {
        Some(choose|k: int| first_match(s, p, k))
    } else {
        None
    }
}

/// Every occurrence has a leftmost occurrence.
pub proof fn lemma_first_match_exists(s: Seq<char>, p: Seq<char>, k: int)
    requires
        match_at(s, p, k),
    ensures
        exists|j: int| first_match(s, p, j),
    decreases k,
{
    if exists|j: int| 0 <= j < k && match_at(s, p, j) {
        let j = choose|j: int| 0 <= j < k && match_at(s, p, j);
        lemma_first_match_exists(s, p, j);
    } else {
        assert(first_match(s, p, k));
    }
}

/// The leftmost occurrence is unique, so `find` returns it.
pub proof fn lemma_find_is_first(s: Seq<char>, p: Seq<char>, k: int)
    requires
        first_match(s, p, k),
    ensures
        find(s, p) == Some(k),
{
    lemma_first_match_exists(s, p, k);
    let c = choose|j: int| first_match(s, p, j);
    assert(first_match(s, p, c));
    if c < k {
        assert(!match_at(s, p, c));
    }
    if k < c {
        assert(!match_at(s, p, k));
    }
}

/// What `find` returns is the leftmost occurrence.
pub proof fn lemma_find_some(s: Seq<char>, p: Seq<char>)
    ensures
        find(s, p) matches Some(k) ==> first_match(s, p, k),
{
    if contains(s, p) {
        let k = choose|k: int| match_at(s, p, k);
        lemma_first_match_exists(s, p, k);
    }
}

/// Whether `p` occurs in `s` at index `k`.
pub fn matches_at(s: &[char], p: &[char], k: usize) -> (b: bool)
    ensures
        b == match_at(s@, p@, k as int),
{
    if k > s.len() || p.len() > s.len() - k {
        return false;
    }
    let mut i: usize = 0;
    while i < p.len()
        invariant
            i <= p.len(),
            k + p.len() <= s.len(),
            forall|j: int| 0 <= j < i ==> s@[k + j] == p@[j],
        decreases p.len() - i,
    {
        if s[k + i] != p[i] {
            assert(s@.subrange(k as int, k + p.len())[i as int] != p@[i as int]);
            return false;
        }
        i += 1;
    }
    assert(s@.subrange(k as int, k + p.len()) =~= p@);
    true
}

/// Leftmost occurrence of `p` in `s` at or after index `from`.
pub fn find_from(s: &[char], p: &[char], from: usize) -> (r: Option<usize>)
    requires
        from <= s.len(),
    ensures
        match r {
            Some(k) => from <= k && match_at(s@, p@, k as int) && forall|j: int|
                from <= j < k ==> !match_at(s@, p@, j),
            None => forall|j: int| from <= j ==> !match_at(s@, p@, j),
        },
{
    let mut k = from;
    while k < s.len()
        invariant
            from <= k <= s.len(),
            forall|j: int| from <= j < k ==> !match_at(s@, p@, j),
        decreases s.len() - k,
    {
        if matches_at(s, p, k) {
            return Some(k);
        }
        k += 1;
    }
    if matches_at(s, p, k) {
        return Some(k);
    }
    None
}

/// `str::find` with a string pattern.
pub fn find_chars(s: &[char], p: &[char]) -> (r: Option<usize>)
    ensures
        match r {
            Some(k) => find(s@, p@) == Some(k as int),
            None => find(s@, p@) is None,
        },
{
    let r = find_from(s, p, 0);
    match r {
        Some(k) => {
            proof {
                lemma_find_is_first(s@, p@, k as int);
            }
        },
        None => {},
    }
    r
}

/// `str::contains` with a string pattern.
pub fn contains_chars(s: &[char], p: &[char]) -> (b: bool)
    ensures
        b == contains(s@, p@),
{
    let r = find_from(s, p, 0);
    r.is_some()
}

/// `str::starts_with` with a string pattern.
pub fn starts_with_chars(s: &[char], p: &[char]) -> (b: bool)
    ensures
        b == starts_with(s@, p@),
{
    let b = matches_at(s, p, 0);
    proof {
        if b {
            assert(s@.take(p@.len() as int) =~= s@.subrange(0, p@.len() as int));
        } else if p@.len() <= s@.len() {
            assert(s@.take(p@.len() as int) =~= s@.subrange(0, p@.len() as int));
        }
    }
    b
}

/// `str::ends_with` with a string pattern.
pub fn ends_with_chars(s: &[char], p: &[char]) -> (b: bool)
    ensures
        b == ends_with(s@, p@),
{
    if p.len() > s.len() {
        return false;
    }
    let k = s.len() - p.len();
    let b = matches_at(s, p, k);
    assert(s@.skip(k as int) =~= s@.subrange(k as int, k + p@.len()));
    b
}

/// Starts with the given character.
pub open spec fn starts_with_char(s: Seq<char>, c: char) -> bool {
    s.len() > 0 && s[0] == c
}

/// Contains the given character.
pub open spec fn has_char(s: Seq<char>, c: char) -> bool {
    exists|i: int| 0 <= i < s.len() && s[i] == c
}

/// Whether `c` occurs in `s`.
pub fn has_char_exec(s: &[char], c: char) -> (b: bool)
    ensures
        b == has_char(s@, c),
{
    let mut i: usize = 0;
    while i < s.len()
        invariant
            i <= s.len(),
            forall|j: int| 0 <= j < i ==> s@[j] != c,
        decreases s.len() - i,
    {
        if s[i] == c {
            return true;
        }
        i += 1;
    }
    false
}

// ---------------------------------------------------------------------------
// Joining
// ---------------------------------------------------------------------------

/// `[String]::join(sep)`.
pub open spec fn join(parts: Seq<Seq<char>>, sep: Seq<char>) -> Seq<char>
    decreases parts.len(),
{
    if parts.len() == 0 {
        Seq::empty()
    } else if parts.len() == 1 {
        parts[0]
    } else {
        join(parts.drop_last(), sep) + sep + parts.last()
    }
}

/// Joins the parts with `sep` between consecutive parts.
pub fn join_chars(parts: &Vec<Vec<char>>, sep: &[char]) -> (r: Vec<char>)
    ensures
        r@ == join(views_of(parts@), sep@),
{
    let mut r: Vec<char> = Vec::new();
    let mut i: usize = 0;
    while i < parts.len()
        invariant
            i <= parts.len(),
            r@ == join(views_of(parts@).take(i as int), sep@),
        decreases parts.len() - i,
    {
        let ghost before = r@;
        if i > 0 {
            append_chars(&mut r, sep);
        }
        append_chars(&mut r, parts[i].as_slice());
        proof {
            let t = views_of(parts@).take(i + 1);
            assert(t.drop_last() =~= views_of(parts@).take(i as int));
            if i == 0 {
                assert(r@ =~= t[0]);
            } else {
                assert(r@ =~= before + sep@ + t.last());
            }
        }
        i += 1;
    }
    assert(views_of(parts@).take(parts@.len() as int) =~= views_of(parts@));
    r
}

/// Appends all characters of `s` to `v`.
pub fn append_chars(v: &mut Vec<char>, s: &[char])
    ensures
        final(v)@ == old(v)@ + s@,
{
    let mut i: usize = 0;
    let ghost start = v@;
    while i < s.len()
        invariant
            i <= s.len(),
            v@ == start + s@.take(i as int),
        decreases s.len() - i,
    {
        v.push(s[i]);
        i += 1;
        assert(v@ =~= start + s@.take(i as int));
    }
    assert(s@.take(s@.len() as int) =~= s@);
}

// ---------------------------------------------------------------------------
// Decimal numerals
// ---------------------------------------------------------------------------

/// The decimal digit for `d < 10`.
pub open spec fn digit_char(d: nat) -> char {
    if d == 0 {
        '0'
    } else if d == 1 {
        '1'
    } else if d == 2 {
        '2'
    } else if d == 3 {
        '3'
    } else if d == 4 {
        '4'
    } else if d == 5 {
        '5'
    } else if d == 6 {
        '6'
    } else if d == 7 {
        '7'
    } else if d == 8 {
        '8'
    } else {
        '9'
    }
}

/// How `{}` formats an unsigned integer: its decimal digits.
pub open spec fn decimal(n: nat) -> Seq<char>
    decreases n,
{
    if n < 10 {
        seq![digit_char(n)]
    } else {
        decimal(n / 10).push(digit_char(n % 10))
    }
}

fn digit_exec(d: u64) -> (c: char)
    requires
        d < 10,
    ensures
        c == digit_char(d as nat),
{
    if d == 0 {
        '0'
    } else if d == 1 {
        '1'
    } else if d == 2 {
        '2'
    } else if d == 3 {
        '3'
    } else if d == 4 {
        '4'
    } else if d == 5 {
        '5'
    } else if d == 6 {
        '6'
    } else if d == 7 {
        '7'
    } else if d == 8 {
        '8'
    } else {
        '9'
    }
}

/// The decimal digits of `n`.
pub fn decimal_chars(n: u64) -> (r: Vec<char>)
    ensures
        r@ == decimal(n as nat),
    decreases n,
{
    if n < 10 {
        let mut v: Vec<char> = Vec::new();
        v.push(digit_exec(n));
        assert(v@ =~= seq![digit_char(n as nat)]);
        v
    } else {
        let mut v = decimal_chars(n / 10);
        v.push(digit_exec(n % 10));
        v
    }
}

/// The decimal digits of a 128-bit `n`.
pub fn decimal_chars_wide(n: u128) -> (r: Vec<char>)
    ensures
        r@ == decimal(n as nat),
    decreases n,
{
    if n < 10 {
        let mut v: Vec<char> = Vec::new();
        v.push(digit_exec(n as u64));
        assert(v@ =~= seq![digit_char(n as nat)]);
        v
    } else {
        let mut v = decimal_chars_wide(n / 10);
        v.push(digit_exec((n % 10) as u64));
        v
    }
}

/// Appends the decimal digits of `n` to `v`.
pub fn append_decimal(v: &mut Vec<char>, n: u64)
    ensures
        final(v)@ == old(v)@ + decimal(n as nat),
{
    let d = decimal_chars(n);
    append_chars(v, d.as_slice());
}


// ---------------------------------------------------------------------------
// Splitting
// ---------------------------------------------------------------------------

/// `str::split` with a single-character separator: the pieces between
/// separators, always at least one.
pub open spec fn split_on(s: Seq<char>, c: char) -> Seq<Seq<char>>
    decreases s.len(),
{
    if s.len() == 0 {
        seq![Seq::empty()]
    } else {
        let prev = split_on(s.drop_last(), c);
        if s.last() == c {
            prev.push(Seq::empty())
        } else {
            prev.update(prev.len() - 1, prev.last().push(s.last()))
        }
    }
}

/// A text without the separator is one piece.
pub proof fn lemma_split_on_none(w: Seq<char>, c: char)
    requires
        !w.contains(c),
    ensures
        split_on(w, c) == seq![w],
    decreases w.len(),
{
    if w.len() > 0 {
        assert(!w.drop_last().contains(c)) by {
            if w.drop_last().contains(c) {
                let k = choose|k: int| 0 <= k < w.drop_last().len() && w.drop_last()[k] == c;
                assert(w[k] == c);
            }
        }
        lemma_split_on_none(w.drop_last(), c);
        assert(w.last() != c) by {
            assert(w[w.len() - 1] == w.last());
        }
        assert(w.drop_last().push(w.last()) =~= w);
    } else {
        assert(w =~= Seq::<char>::empty());
    }
}

/// A first piece without the separator, then the separator: the pieces
/// are that piece, then the pieces of the rest.
pub proof fn lemma_split_on_first(w: Seq<char>, c: char, t: Seq<char>)
    requires
        !w.contains(c),
    ensures
        split_on(w.push(c) + t, c) == seq![w] + split_on(t, c),
    decreases t.len(),
{
    let s = w.push(c) + t;
    if t.len() == 0 {
        assert(s =~= w.push(c));
        assert(s.drop_last() =~= w);
        lemma_split_on_none(w, c);
        assert(split_on(t, c) == seq![Seq::<char>::empty()]);
        assert(split_on(s, c) =~= seq![w] + split_on(t, c));
    } else {
        lemma_split_on_first(w, c, t.drop_last());
        assert(s.drop_last() =~= w.push(c) + t.drop_last());
        assert(s.last() == t.last());
        lemma_split_on_nonempty(t.drop_last(), c);
        let prev = split_on(t.drop_last(), c);
        if t.last() == c {
            assert(split_on(s, c) =~= seq![w] + prev.push(Seq::empty()));
        } else {
            assert((seq![w] + prev).update((seq![w] + prev).len() - 1, (seq![w] + prev).last().push(t.last()))
                =~= seq![w] + prev.update(prev.len() - 1, prev.last().push(t.last())));
        }
    }
}

/// Splitting at a separator that stands between two texts gives the pieces
/// of the first, then the pieces of the second.
pub proof fn lemma_split_on_concat(u: Seq<char>, c: char, t: Seq<char>)
    ensures
        split_on(u.push(c) + t, c) == split_on(u, c) + split_on(t, c),
    decreases t.len(),
{
    let s = u.push(c) + t;
    lemma_split_on_nonempty(u, c);
    if t.len() == 0 {
        assert(s =~= u.push(c));
        assert(s.drop_last() =~= u);
        assert(split_on(t, c) == seq![Seq::<char>::empty()]);
        assert(split_on(s, c) =~= split_on(u, c) + split_on(t, c));
    } else {
        lemma_split_on_concat(u, c, t.drop_last());
        assert(s.drop_last() =~= u.push(c) + t.drop_last());
        assert(s.last() == t.last());
        lemma_split_on_nonempty(t.drop_last(), c);
        let head = split_on(u, c);
        let prev = split_on(t.drop_last(), c);
        if t.last() == c {
            assert(split_on(s, c) =~= head + prev.push(Seq::empty()));
        } else {
            assert((head + prev).update((head + prev).len() - 1, (head + prev).last().push(t.last()))
                =~= head + prev.update(prev.len() - 1, prev.last().push(t.last())));
        }
    }
}

pub proof fn lemma_split_on_nonempty(s: Seq<char>, c: char)
    ensures
        split_on(s, c).len() >= 1,
    decreases s.len(),
{
    if s.len() > 0 {
        lemma_split_on_nonempty(s.drop_last(), c);
    }
}

/// The pieces of `s` between occurrences of `c`.
pub fn split_on_chars(s: &[char], c: char) -> (r: Vec<Vec<char>>)
    ensures
        views_of(r@) == split_on(s@, c),
{
    let mut out: Vec<Vec<char>> = Vec::new();
    let mut cur: Vec<char> = Vec::new();
    let mut i: usize = 0;
    assert(views_of(out@).push(cur@) =~= split_on(s@.take(0), c));
    while i < s.len()
        invariant
            i <= s.len(),
            views_of(out@).push(cur@) == split_on(s@.take(i as int), c),
        decreases s.len() - i,
    {
        let ghost t1 = s@.take(i + 1);
        assert(t1.drop_last() =~= s@.take(i as int));
        let ghost o0 = views_of(out@);
        let ghost c0 = cur@;
        if s[i] == c {
            let mut fresh: Vec<char> = Vec::new();
            std::mem::swap(&mut fresh, &mut cur);
            out.push(fresh);
            assert(views_of(out@).push(cur@) =~= o0.push(c0).push(Seq::empty()));
        } else {
            cur.push(s[i]);
            assert(views_of(out@).push(cur@) =~= o0.push(c0).update(o0.len() as int, c0.push(s@[i as int])));
        }
        i += 1;
    }
    assert(s@.take(s@.len() as int) =~= s@);
    let ghost o0 = views_of(out@);
    out.push(cur);
    assert(views_of(out@) =~= o0.push(cur@));
    out
}

/// A line taken from before a `\n` loses one trailing `\r`.
pub open spec fn strip_cr(line: Seq<char>) -> Seq<char> {
    if line.len() > 0 && line.last() == '\r' {
        line.drop_last()
    } else {
        line
    }
}

/// `str::lines`: pieces ended by `\n` (without a trailing `\r`), then the
/// final piece if it is not empty.
pub open spec fn lines(s: Seq<char>) -> Seq<Seq<char>> {
    let p = split_on(s, '\n');
    let ended = p.drop_last().map_values(|l: Seq<char>| strip_cr(l));
    if p.last().len() == 0 {
        ended
    } else {
        ended.push(p.last())
    }
}

fn strip_cr_exec(v: Vec<char>) -> (r: Vec<char>)
    ensures
        r@ == strip_cr(v@),
{
    let mut v = v;
    if v.len() > 0 && v[v.len() - 1] == '\r' {
        v.pop();
    }
    v
}

/// The lines of `s` as character vectors.
pub fn lines_chars(s: &[char]) -> (r: Vec<Vec<char>>)
    ensures
        views_of(r@) == lines(s@),
{
    let mut out: Vec<Vec<char>> = Vec::new();
    let mut cur: Vec<char> = Vec::new();
    let mut i: usize = 0;
    proof {
        assert(s@.take(0) =~= Seq::<char>::empty());
    }
    while i < s.len()
        invariant
            i <= s.len(),
            split_on(s@.take(i as int), '\n').len() >= 1,
            views_of(out@) == split_on(s@.take(i as int), '\n').drop_last().map_values(
                |l: Seq<char>| strip_cr(l),
            ),
            cur@ == split_on(s@.take(i as int), '\n').last(),
        decreases s.len() - i,
    {
        let ghost t = s@.take(i as int);
        let ghost t1 = s@.take(i + 1);
        assert(t1.drop_last() =~= t);
        assert(t1.last() == s@[i as int]);
        let c = s[i];
        if c == '\n' {
            let line = strip_cr_exec(cur);
            out.push(line);
            cur = Vec::new();
            proof {
                let p0 = split_on(t, '\n');
                let p1 = split_on(t1, '\n');
                assert(p1 == p0.push(Seq::<char>::empty()));
                assert(p1.drop_last() =~= p0);
                assert(p0 =~= p0.drop_last().push(p0.last()));
                assert(p0.map_values(|l: Seq<char>| strip_cr(l)) =~= p0.drop_last().map_values(
                    |l: Seq<char>| strip_cr(l),
                ).push(strip_cr(p0.last())));
                assert(views_of(out@) =~= p1.drop_last().map_values(|l: Seq<char>| strip_cr(l)));
                assert(cur@ =~= p1.last());
            }
        } else {
            cur.push(c);
            proof {
                let p0 = split_on(t, '\n');
                let p1 = split_on(t1, '\n');
                assert(p1.drop_last() =~= p0.drop_last());
                assert(views_of(out@) =~= p1.drop_last().map_values(|l: Seq<char>| strip_cr(l)));
            }
        }
        i += 1;
    }
    assert(s@.take(s@.len() as int) =~= s@);
    if cur.len() > 0 {
        out.push(cur);
        assert(views_of(out@) =~= lines(s@));
    } else {
        assert(views_of(out@) =~= lines(s@));
    }
    out
}

/// `str::split` with a non-empty string pattern: the pieces between the
/// leftmost non-overlapping occurrences.
pub open spec fn split_str(s: Seq<char>, p: Seq<char>) -> Seq<Seq<char>>
    decreases s.len(),
{
    if p.len() == 0 {
        seq![s]
    } else {
        match find(s, p) {
            Some(k) => if 0 <= k && k + p.len() <= s.len() {
                seq![s.take(k)] + split_str(s.skip(k + p.len()), p)
            } else {
                seq![s]
            },
            None => seq![s],
        }
    }
}

/// Occurrences in a suffix are occurrences in the whole, shifted.
pub proof fn lemma_match_skip(s: Seq<char>, p: Seq<char>, pos: int, j: int)
    requires
        0 <= pos <= s.len(),
        0 <= j,
    ensures
        match_at(s.skip(pos), p, j) == match_at(s, p, j + pos),
{
    if 0 <= j && j + p.len() <= s.len() - pos {
        assert(s.skip(pos).subrange(j, j + p.len()) =~= s.subrange(j + pos, j + pos + p.len()));
    }
}

/// The pieces of `s` split at the non-empty pattern `p`.
pub fn split_str_chars(s: &[char], p: &[char]) -> (r: Vec<Vec<char>>)
    requires
        p@.len() > 0,
    ensures
        views_of(r@) == split_str(s@, p@),
{
    let mut out: Vec<Vec<char>> = Vec::new();
    let mut pos: usize = 0;
    assert(s@.skip(0) =~= s@);
    loop
        invariant
            pos <= s.len(),
            p@.len() > 0,
            split_str(s@, p@) == views_of(out@) + split_str(s@.skip(pos as int), p@),
        decreases s.len() - pos,
    {
        let ghost rest = s@.skip(pos as int);
        match find_from(s, p, pos) {
            Some(k) => {
                proof {
                    lemma_match_skip(s@, p@, pos as int, k - pos);
                    assert forall|j: int| 0 <= j < k - pos implies !match_at(rest, p@, j) by {
                        lemma_match_skip(s@, p@, pos as int, j);
                    }
                    lemma_find_is_first(rest, p@, k - pos);
                    assert(rest.take(k - pos) =~= s@.subrange(pos as int, k as int));
                    assert(rest.skip(k - pos + p@.len()) =~= s@.skip(k + p@.len()));
                }
                let piece = slice_to_vec(s, pos, k);
                let ghost before = out@;
                out.push(piece);
                proof {
                    assert(views_of(out@) =~= views_of(before) + seq![rest.take(k - pos)]);
                }
                pos = k + p.len();
            },
            None => {
                proof {
                    assert forall|j: int| !match_at(rest, p@, j) by {
                        if j >= 0 {
                            lemma_match_skip(s@, p@, pos as int, j);
                        }
                    }
                    assert(!contains(rest, p@));
                    assert(rest =~= s@.subrange(pos as int, s@.len() as int));
                }
                let piece = slice_to_vec(s, pos, s.len());
                let ghost before = out@;
                out.push(piece);
                proof {
                    assert(views_of(out@) =~= views_of(before) + seq![rest]);
                }
                return out;
            },
        }
    }
}

// ---------------------------------------------------------------------------
// Case folding
// ---------------------------------------------------------------------------

/// A character with ASCII upper case turned to lower case.
pub open spec fn ascii_lower(c: char) -> char {
    if 'A' <= c && c <= 'Z' {
        ((c as u32) + 32) as char
    } else {
        c
    }
}

/// A character with ASCII lower case turned to upper case.
pub open spec fn ascii_upper(c: char) -> char {
    if 'a' <= c && c <= 'z' {
        ((c as u32) - 32) as char
    } else {
        c
    }
}

/// A text with ASCII upper case turned to lower case, character by
/// character.
pub open spec fn lower_ascii(s: Seq<char>) -> Seq<char> {
    s.map_values(|c: char| ascii_lower(c))
}

/// A text with ASCII lower case turned to upper case, character by
/// character.
pub open spec fn upper_ascii(s: Seq<char>) -> Seq<char> {
    s.map_values(|c: char| ascii_upper(c))
}

/// Every character is ASCII.
pub open spec fn is_ascii_text(s: Seq<char>) -> bool {
    forall|i: int| 0 <= i < s.len() ==> (s[i] as u32) < 128
}

pub fn lower_ascii_exec(s: &[char]) -> (r: Vec<char>)
    ensures
        r@ == lower_ascii(s@),
{
    let mut r: Vec<char> = Vec::new();
    let mut i: usize = 0;
    while i < s.len()
        invariant
            i <= s@.len(),
            r@ == lower_ascii(s@.take(i as int)),
        decreases s@.len() - i,
    {
        let c = s[i];
        let d = if 'A' <= c && c <= 'Z' {
            let u: u8 = (c as u8) + 32;
            assert((c as u8) as u32 == c as u32);
            u as char
        } else {
            c
        };
        assert(d == ascii_lower(c));
        r.push(d);
        assert(lower_ascii(s@.take(i + 1)) =~= lower_ascii(s@.take(i as int)).push(ascii_lower(s@[i as int])));
        i += 1;
    }
    assert(s@.take(i as int) =~= s@);
    r
}

/// What `str::to_lowercase` returns for the given characters.
pub uninterp spec fn spec_to_lowercase(s: Seq<char>) -> Seq<char>;

/// `str::to_lowercase`. Trusted: the result is the lowercase form that std
/// computes from the characters of `s` (Unicode `Lowercase` mapping), named
/// by `spec_to_lowercase`. Of that mapping only the ASCII part is stated:
/// an ASCII text is lowered letter by letter, `A`-`Z` to `a`-`z`, all else
/// kept, as for `str::to_ascii_lowercase`.
#[verifier::external_body]
pub fn to_lowercase(s: &str) -> (r: String)
    ensures
        r@ == spec_to_lowercase(s@),
        is_ascii_text(s@) ==> r@ == lower_ascii(s@),
{
    s.to_lowercase()
}

/// The lowercase form of a character slice.
pub fn lowercase_chars(s: &[char]) -> (r: Vec<char>)
    ensures
        r@ == spec_to_lowercase(s@),
{
    let st = from_chars(s);
    let lower = to_lowercase(st.as_str());
    to_chars(lower.as_str())
}


// ---------------------------------------------------------------------------
// Equality
// ---------------------------------------------------------------------------

/// Whether two character slices are equal.
pub fn chars_eq(a: &[char], b: &[char]) -> (r: bool)
    ensures
        r == (a@ == b@),
{
    if a.len() != b.len() {
        return false;
    }
    let mut i: usize = 0;
    while i < a.len()
        invariant
            i <= a.len(),
            a.len() == b.len(),
            forall|j: int| 0 <= j < i ==> a@[j] == b@[j],
        decreases a.len() - i,
    {
        if a[i] != b[i] {
            return false;
        }
        i += 1;
    }
    assert(a@ =~= b@);
    true
}

/// Whether two string slices hold the same characters.
pub fn str_eq(a: &str, b: &str) -> (r: bool)
    ensures
        r == (a@ == b@),
{
    let va = to_chars(a);
    let vb = to_chars(b);
    chars_eq(va.as_slice(), vb.as_slice())
}

/// An owned copy of a string slice.
pub fn owned(s: &str) -> (r: String)
    ensures
        r@ == s@,
{
    s.to_owned()
}

} // verus!
