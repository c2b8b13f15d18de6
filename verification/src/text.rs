//! Text as sequences of characters: the small vocabulary of string
//! operations that the rest of the crate is specified with.
//!
//! Every operation has a spec function over `Seq<char>` and an executable
//! counterpart over `Vec<char>` that is proved to compute it.

use vstd::prelude::*;

verus! {

/// `String::push` appends one character.
pub assume_specification[ String::push ](s: &mut String, c: char)
    ensures
        final(s)@ == old(s)@.push(c),
;

/// The characters of `s`, in order.
pub fn chars_of(s: &str) -> (v: Vec<char>)
    ensures
        v@ == s@,
{
    let mut v: Vec<char> = Vec::new();
    for c in it: s.chars()
        invariant
            v@ == it.seq().take(it.index()),
            it.seq() == s@,
    {
        v.push(c);
    }
    v
}

/// The string made of the characters of `v`, in order.
pub fn string_of(v: &Vec<char>) -> (s: String)
    ensures
        s@ == v@,
{
    let mut s = String::new();
    let mut i: usize = 0;
    while i < v.len()
        invariant
            i <= v.len(),
            s@ == v@.take(i as int),
        decreases v.len() - i,
    {
        s.push(v[i]);
        i += 1;
    }
    s
}

/// The characters `v[from..to]` as a vector of their own.
pub fn slice_of(v: &Vec<char>, from: usize, to: usize) -> (r: Vec<char>)
    requires
        from <= to <= v.len(),
    ensures
        r@ == v@.subrange(from as int, to as int),
{
    let mut r: Vec<char> = Vec::new();
    let mut i: usize = from;
    while i < to
        invariant
            from <= i <= to <= v.len(),
            r@ == v@.subrange(from as int, i as int),
        decreases to - i,
    {
        r.push(v[i]);
        i += 1;
    }
    r
}

/// Appends the characters of `tail` to `out`.
pub fn push_all(out: &mut Vec<char>, tail: &Vec<char>)
    ensures
        final(out)@ == old(out)@ + tail@,
{
    let mut i: usize = 0;
    while i < tail.len()
        invariant
            i <= tail.len(),
            out@ == old(out)@ + tail@.take(i as int),
        decreases tail.len() - i,
    {
        out.push(tail[i]);
        i += 1;
    }
    assert(tail@.take(tail.len() as int) == tail@);
}

/// Appends the characters of the string `tail` to `out`.
pub fn push_str(out: &mut Vec<char>, tail: &str)
    ensures
        final(out)@ == old(out)@ + tail@,
{
    let t = chars_of(tail);
    push_all(out, &t);
}

/// Whether two texts hold the same characters.
pub fn same_text(a: &Vec<char>, b: &Vec<char>) -> (r: bool)
    ensures
        r == (a@ == b@),
{
    if a.len() != b.len() {
        return false;
    }
    let mut i: usize = 0;
    while i < a.len()
        invariant
            i <= a.len(),
            a.len() == b.len(),
            forall|k: int| 0 <= k < i ==> a@[k] == b@[k],
        decreases a.len() - i,
    {
        if a[i] != b[i] {
            return false;
        }
        i += 1;
    }
    assert(a@ =~= b@);
    true
}

/// Whether the text `a` spells the string `b`.
pub fn is_str(a: &Vec<char>, b: &str) -> (r: bool)
    ensures
        r == (a@ == b@),
{
    let t = chars_of(b);
    same_text(a, &t)
}

/// Whether two strings hold the same characters.
pub fn str_eq(a: &str, b: &str) -> (r: bool)
    ensures
        r == (a@ == b@),
{
    let x = chars_of(a);
    let y = chars_of(b);
    same_text(&x, &y)
}

/// A result whose success is a string, seen as the string's characters.
pub open spec fn text_result<E>(r: Result<String, E>) -> Result<Seq<char>, E> {
    match r {
        Ok(s) => Ok(s@),
        Err(e) => Err(e),
    }
}

// ---------------------------------------------------------------------------
// Whitespace and trimming
// ---------------------------------------------------------------------------

/// The characters with the Unicode property `White_Space`.
pub open spec fn is_whitespace(c: char) -> bool {
    let n = c as u32;
    ||| 0x09 <= n <= 0x0D
    ||| n == 0x20
    ||| n == 0x85
    ||| n == 0xA0
    ||| n == 0x1680
    ||| 0x2000 <= n <= 0x200A
    ||| n == 0x2028
    ||| n == 0x2029
    ||| n == 0x202F
    ||| n == 0x205F
    ||| n == 0x3000
}

/// Whether `c` is whitespace.
pub fn char_is_whitespace(c: char) -> (r: bool)
    ensures
        r == is_whitespace(c),
{
    let n: u32 = c as u32;
    (0x09 <= n && n <= 0x0D) || n == 0x20 || n == 0x85 || n == 0xA0 || n == 0x1680 || (0x2000 <= n
        && n <= 0x200A) || n == 0x2028 || n == 0x2029 || n == 0x202F || n == 0x205F || n == 0x3000
}

/// The first position at or after `i` that holds no whitespace, or the
/// length of `s`.
pub open spec fn skip_whitespace(s: Seq<char>, i: int) -> int
    decreases s.len() - i,
{
    if 0 <= i < s.len() && is_whitespace(s[i]) {
        skip_whitespace(s, i + 1)
    } else {
        i
    }
}

/// The end of `s[..j]` once its trailing whitespace is dropped.
pub open spec fn drop_trailing_whitespace(s: Seq<char>, j: int) -> int
    decreases j,
{
    if 0 < j <= s.len() && is_whitespace(s[j - 1]) {
        drop_trailing_whitespace(s, j - 1)
    } else {
        j
    }
}

/// `s` without its leading whitespace.
pub open spec fn trimmed_start(s: Seq<char>) -> Seq<char> {
    s.skip(skip_whitespace(s, 0))
}

/// `s` without its trailing whitespace.
pub open spec fn trimmed_end(s: Seq<char>) -> Seq<char> {
    s.take(drop_trailing_whitespace(s, s.len() as int))
}

/// `s` without its leading and trailing whitespace.
pub open spec fn trimmed(s: Seq<char>) -> Seq<char> {
    trimmed_end(trimmed_start(s))
}

/// Whether `s` holds nothing but whitespace.
pub open spec fn is_blank(s: Seq<char>) -> bool {
    forall|k: int| 0 <= k < s.len() ==> is_whitespace(#[trigger] s[k])
}

/// What `skip_whitespace` finds: everything that it passes over is
/// whitespace, and what it stops at is not.
pub proof fn lemma_skip_whitespace(s: Seq<char>, i: int)
    requires
        0 <= i <= s.len(),
    ensures
        i <= skip_whitespace(s, i) <= s.len(),
        forall|k: int| i <= k < skip_whitespace(s, i) ==> is_whitespace(#[trigger] s[k]),
        skip_whitespace(s, i) < s.len() ==> !is_whitespace(s[skip_whitespace(s, i)]),
    decreases s.len() - i,
{
    if i < s.len() && is_whitespace(s[i]) {
        lemma_skip_whitespace(s, i + 1);
    }
}

/// What `drop_trailing_whitespace` finds: everything that it passes over
/// is whitespace, and what it stops behind is not.
pub proof fn lemma_drop_trailing_whitespace(s: Seq<char>, j: int)
    requires
        0 <= j <= s.len(),
    ensures
        0 <= drop_trailing_whitespace(s, j) <= j,
        forall|k: int| drop_trailing_whitespace(s, j) <= k < j ==> is_whitespace(#[trigger] s[k]),
        drop_trailing_whitespace(s, j) > 0 ==> !is_whitespace(
            s[drop_trailing_whitespace(s, j) - 1],
        ),
    decreases j,
{
    if 0 < j && is_whitespace(s[j - 1]) {
        lemma_drop_trailing_whitespace(s, j - 1);
    }
}

/// Trimming leaves nothing exactly when the text is blank.
pub proof fn lemma_trimmed_empty(s: Seq<char>)
    ensures
        trimmed(s).len() == 0 <==> is_blank(s),
        trimmed_start(s).len() == 0 <==> is_blank(s),
        trimmed_end(s).len() == 0 <==> is_blank(s),
{
    lemma_skip_whitespace(s, 0);
    lemma_drop_trailing_whitespace(s, s.len() as int);
    let t = trimmed_start(s);
    lemma_drop_trailing_whitespace(t, t.len() as int);
    let a = skip_whitespace(s, 0);
    if trimmed(s).len() == 0 && t.len() > 0 {
        assert(t[0] == s[a]);
        assert(is_whitespace(t[0]));
    }
    if is_blank(s) && a < s.len() {
        assert(is_whitespace(s[a]));
    }
    let e = drop_trailing_whitespace(s, s.len() as int);
    if is_blank(s) && e > 0 {
        assert(is_whitespace(s[e - 1]));
    }
}

/// A trimmed text starts and ends with something other than whitespace,
/// so trimming it again changes nothing.
pub proof fn lemma_trimmed_is_fixed(s: Seq<char>)
    ensures
        trimmed(trimmed(s)) == trimmed(s),
        trimmed(s).len() > 0 ==> !is_whitespace(trimmed(s).first()) && !is_whitespace(
            trimmed(s).last(),
        ),
{
    lemma_skip_whitespace(s, 0);
    let t = trimmed_start(s);
    lemma_drop_trailing_whitespace(t, t.len() as int);
    let u = trimmed(s);
    if u.len() > 0 {
        assert(u.first() == t[0]);
        assert(t[0] == s[skip_whitespace(s, 0)]);
        assert(u.last() == t[u.len() - 1]);
        assert(skip_whitespace(u, 0) == 0);
        assert(trimmed_start(u) =~= u);
        assert(drop_trailing_whitespace(u, u.len() as int) == u.len());
        assert(trimmed_end(u) =~= u);
    } else {
        assert(skip_whitespace(u, 0) == 0);
        assert(trimmed_start(u) =~= u);
        assert(drop_trailing_whitespace(u, 0) == 0);
        assert(trimmed_end(u) =~= u);
    }
}

/// The first position at or after `from` that holds no whitespace.
pub fn skip_whitespace_from(v: &Vec<char>, from: usize) -> (r: usize)
    requires
        from <= v.len(),
    ensures
        r == skip_whitespace(v@, from as int),
        from <= r <= v.len(),
{
    let mut i: usize = from;
    while i < v.len() && char_is_whitespace(v[i])
        invariant
            from <= i <= v.len(),
            skip_whitespace(v@, from as int) == skip_whitespace(v@, i as int),
        decreases v.len() - i,
    {
        i += 1;
    }
    i
}

/// The end of `v[..to]` once its trailing whitespace is dropped.
pub fn drop_trailing_whitespace_to(v: &Vec<char>, to: usize) -> (r: usize)
    requires
        to <= v.len(),
    ensures
        r == drop_trailing_whitespace(v@, to as int),
        r <= to,
{
    let mut j: usize = to;
    while j > 0 && char_is_whitespace(v[j - 1])
        invariant
            j <= to <= v.len(),
            drop_trailing_whitespace(v@, to as int) == drop_trailing_whitespace(v@, j as int),
        decreases j,
    {
        j -= 1;
    }
    j
}

/// `v` without its leading whitespace.
pub fn trim_start(v: &Vec<char>) -> (r: Vec<char>)
    ensures
        r@ == trimmed_start(v@),
{
    let a = skip_whitespace_from(v, 0);
    slice_of(v, a, v.len())
}

/// `v` without its trailing whitespace.
pub fn trim_end(v: &Vec<char>) -> (r: Vec<char>)
    ensures
        r@ == trimmed_end(v@),
{
    let e = drop_trailing_whitespace_to(v, v.len());
    slice_of(v, 0, e)
}

/// `v` without its leading and trailing whitespace.
pub fn trim(v: &Vec<char>) -> (r: Vec<char>)
    ensures
        r@ == trimmed(v@),
{
    let t = trim_start(v);
    trim_end(&t)
}

// ---------------------------------------------------------------------------
// ASCII lower case
// ---------------------------------------------------------------------------

/// `c` with the ASCII capital letters mapped to their small forms.
pub open spec fn ascii_lower(c: char) -> char {
    if 'A' <= c <= 'Z' {
        ((c as u8) + 32) as char
    } else {
        c
    }
}

/// `s` with the ASCII capital letters mapped to their small forms.
pub open spec fn lowered(s: Seq<char>) -> Seq<char> {
    Seq::new(s.len(), |i: int| ascii_lower(s[i]))
}

/// `c` in ASCII lower case.
pub fn char_ascii_lower(c: char) -> (r: char)
    ensures
        r == ascii_lower(c),
{
    if 'A' <= c && c <= 'Z' {
        ((c as u8) + 32) as char
    } else {
        c
    }
}

/// `v` in ASCII lower case.
pub fn to_ascii_lower(v: &Vec<char>) -> (r: Vec<char>)
    ensures
        r@ == lowered(v@),
{
    let mut r: Vec<char> = Vec::new();
    let mut i: usize = 0;
    while i < v.len()
        invariant
            i <= v.len(),
            r@ == lowered(v@).take(i as int),
        decreases v.len() - i,
    {
        r.push(char_ascii_lower(v[i]));
        i += 1;
    }
    r
}

// ---------------------------------------------------------------------------
// Searching
// ---------------------------------------------------------------------------

/// Whether `pat` stands in `s` at position `i`.
pub open spec fn occurs_at(s: Seq<char>, pat: Seq<char>, i: int) -> bool {
    0 <= i && i + pat.len() <= s.len() && s.subrange(i, i + pat.len()) == pat
}

/// Whether `s` begins with `pat`.
pub open spec fn starts_with(s: Seq<char>, pat: Seq<char>) -> bool {
    occurs_at(s, pat, 0)
}

/// Whether `pat` stands somewhere in `s`.
pub open spec fn contains(s: Seq<char>, pat: Seq<char>) -> bool {
    exists|i: int| occurs_at(s, pat, i)
}

/// The first position at or after `from` where `pat` stands in `s`.
pub open spec fn find_from(s: Seq<char>, pat: Seq<char>, from: int) -> Option<int>
    decreases s.len() - from,
{
    if from < 0 || from + pat.len() > s.len() {
        None
    } else if occurs_at(s, pat, from) {
        Some(from)
    } else if from >= s.len() {
        None
    } else {
        find_from(s, pat, from + 1)
    }
}

/// The first position where `pat` stands in `s`.
pub open spec fn find(s: Seq<char>, pat: Seq<char>) -> Option<int> {
    find_from(s, pat, 0)
}

/// What `find_from` finds: the pattern stands at the position found and
/// at none between `from` and it; where nothing is found, it stands at no
/// position from `from` on.
pub proof fn lemma_find_from(s: Seq<char>, pat: Seq<char>, from: int)
    requires
        0 <= from,
    ensures
        match find_from(s, pat, from) {
            Some(i) => from <= i && occurs_at(s, pat, i) && forall|k: int|
                from <= k < i ==> !occurs_at(s, pat, k),
            None => forall|k: int| from <= k ==> !occurs_at(s, pat, k),
        },
    decreases s.len() - from,
{
    if from + pat.len() > s.len() {
    } else if occurs_at(s, pat, from) {
    } else if from >= s.len() {
    } else {
        lemma_find_from(s, pat, from + 1);
    }
}

/// `find` succeeds exactly when the pattern is contained.
pub proof fn lemma_find_contains(s: Seq<char>, pat: Seq<char>)
    ensures
        find(s, pat) is Some <==> contains(s, pat),
{
    lemma_find_from(s, pat, 0);
    if contains(s, pat) {
        let i = choose|i: int| occurs_at(s, pat, i);
        assert(occurs_at(s, pat, i));
    }
}

/// Whether `pat` stands in `v` at position `i`.
pub fn occurs_at_index(v: &Vec<char>, pat: &Vec<char>, i: usize) -> (r: bool)
    ensures
        r == occurs_at(v@, pat@, i as int),
{
    if pat.len() > v.len() || i > v.len() - pat.len() {
        return false;
    }
    let mut k: usize = 0;
    while k < pat.len()
        invariant
            k <= pat.len(),
            i + pat.len() <= v.len(),
            forall|j: int| 0 <= j < k ==> v@[i + j] == pat@[j],
        decreases pat.len() - k,
    {
        if v[i + k] != pat[k] {
            assert(v@.subrange(i as int, i + pat.len())[k as int] != pat@[k as int]);
            return false;
        }
        k += 1;
    }
    assert(v@.subrange(i as int, i + pat.len()) =~= pat@);
    true
}

/// The first position at or after `from` where `pat` stands in `v`.
pub fn find_in(v: &Vec<char>, pat: &Vec<char>, from: usize) -> (r: Option<usize>)
    ensures
        match r {
            Some(i) => find_from(v@, pat@, from as int) == Some(i as int) && from <= i && i
                + pat.len() <= v.len(),
            None => find_from(v@, pat@, from as int) is None,
        },
{
    if pat.len() > v.len() || from > v.len() - pat.len() {
        return None;
    }
    let last: usize = v.len() - pat.len();
    let mut i: usize = from;
    loop
        invariant
            from <= i <= last,
            last == v.len() - pat.len(),
            pat.len() <= v.len(),
            find_from(v@, pat@, from as int) == find_from(v@, pat@, i as int),
        decreases last - i,
    {
        if occurs_at_index(v, pat, i) {
            return Some(i);
        }
        if i == last {
            assert(find_from(v@, pat@, i + 1) is None);
            return None;
        }
        i += 1;
    }
}

/// Whether `v` begins with `pat`.
pub fn text_starts_with(v: &Vec<char>, pat: &Vec<char>) -> (r: bool)
    ensures
        r == starts_with(v@, pat@),
{
    occurs_at_index(v, pat, 0)
}

/// Whether `pat` stands somewhere in `v`.
pub fn text_contains(v: &Vec<char>, pat: &str) -> (r: bool)
    ensures
        r == contains(v@, pat@),
{
    let p = chars_of(pat);
    proof {
        lemma_find_contains(v@, p@);
    }
    find_in(v, &p, 0).is_some()
}

/// The last position of the character `c` in `s`.
pub open spec fn last_index_of(s: Seq<char>, c: char) -> Option<int>
    decreases s.len(),
{
    if s.len() == 0 {
        None
    } else if s.last() == c {
        Some(s.len() - 1)
    } else {
        last_index_of(s.drop_last(), c)
    }
}

/// What `last_index_of` finds: the character stands at the position
/// found and at none behind it; where nothing is found, it stands nowhere.
pub proof fn lemma_last_index_of(s: Seq<char>, c: char)
    ensures
        match last_index_of(s, c) {
            Some(i) => 0 <= i < s.len() && s[i] == c && forall|k: int|
                i < k < s.len() ==> s[k] != c,
            None => forall|k: int| 0 <= k < s.len() ==> s[k] != c,
        },
    decreases s.len(),
{
    if s.len() > 0 && s.last() != c {
        lemma_last_index_of(s.drop_last(), c);
        assert(forall|k: int| 0 <= k < s.len() - 1 ==> s.drop_last()[k] == s[k]);
    }
}

/// The last position of the character `c` in `v`.
pub fn rfind_char(v: &Vec<char>, c: char) -> (r: Option<usize>)
    ensures
        match r {
            Some(i) => last_index_of(v@, c) == Some(i as int) && i < v.len(),
            None => last_index_of(v@, c) is None,
        },
{
    let mut j: usize = v.len();
    assert(v@.take(j as int) == v@);
    while j > 0
        invariant
            j <= v.len(),
            last_index_of(v@, c) == last_index_of(v@.take(j as int), c),
        decreases j,
    {
        if v[j - 1] == c {
            return Some(j - 1);
        }
        assert(v@.take(j as int).drop_last() == v@.take(j - 1));
        j -= 1;
    }
    None
}

// ---------------------------------------------------------------------------
// Numbers and joining
// ---------------------------------------------------------------------------

/// The decimal digit for `d`, which is below ten.
pub open spec fn digit_char(d: int) -> char {
    ((48 + d) as u8) as char
}

/// `n` in decimal notation, without leading zeros.
pub open spec fn decimal(n: nat) -> Seq<char>
    decreases n,
{
    if n < 10 {
        seq![digit_char(n as int)]
    } else {
        decimal(n / 10).push(digit_char((n % 10) as int))
    }
}

/// `n` in decimal notation.
pub fn decimal_text(n: usize) -> (r: Vec<char>)
    ensures
        r@ == decimal(n as nat),
    decreases n,
{
    if n < 10 {
        let mut r: Vec<char> = Vec::new();
        r.push((48u8 + (n as u8)) as char);
        assert(r@ =~= seq![digit_char(n as int)]);
        r
    } else {
        let mut r = decimal_text(n / 10);
        r.push((48u8 + ((n % 10) as u8)) as char);
        r
    }
}

/// The texts of `parts` with `sep` between each two neighbours.
pub open spec fn joined(parts: Seq<Seq<char>>, sep: Seq<char>) -> Seq<char>
    decreases parts.len(),
{
    if parts.len() == 0 {
        Seq::empty()
    } else if parts.len() == 1 {
        parts[0]
    } else {
        joined(parts.drop_last(), sep) + sep + parts.last()
    }
}

/// The strings of `parts` with `sep` between each two neighbours.
pub fn join_strings(parts: &Vec<String>, sep: &str) -> (r: Vec<char>)
    ensures
        r@ == joined(parts.deep_view(), sep@),
{
    let mut r: Vec<char> = Vec::new();
    let mut i: usize = 0;
    while i < parts.len()
        invariant
            i <= parts.len(),
            r@ == joined(parts.deep_view().take(i as int), sep@),
        decreases parts.len() - i,
    {
        if i > 0 {
            push_str(&mut r, sep);
        }
        push_str(&mut r, parts[i].as_str());
        proof {
            let p = parts.deep_view().take(i + 1);
            assert(p.drop_last() == parts.deep_view().take(i as int));
            assert(p.last() == parts@[i as int]@);
            assert(parts@[i as int].deep_view() == parts@[i as int]@);
        }
        i += 1;
    }
    assert(parts.deep_view().take(parts.len() as int) == parts.deep_view());
    r
}

// ---------------------------------------------------------------------------
// Lines
// ---------------------------------------------------------------------------

/// The line feed as a text.
pub open spec fn line_feed() -> Seq<char> {
    "\n"@
}

/// `line` without the carriage return that it may end with.
pub open spec fn without_carriage_return(line: Seq<char>) -> Seq<char> {
    if line.len() > 0 && line.last() == '\r' {
        line.drop_last()
    } else {
        line
    }
}

/// The lines of `s` from position `from` on.  A line ends at a line feed,
/// or at a carriage return followed by one; the last line needs no
/// ending, and a last line without one keeps a carriage return at its end.
pub open spec fn lines_from(s: Seq<char>, from: int) -> Seq<Seq<char>>
    decreases s.len() - from,
{
    if from < 0 || from >= s.len() {
        Seq::empty()
    } else {
        let found = find_from(s, line_feed(), from);
        if found is None {
            seq![s.subrange(from, s.len() as int)]
        } else if from <= found->0 < s.len() {
            seq![without_carriage_return(s.subrange(from, found->0))] + lines_from(
                s,
                found->0 + 1,
            )
        } else {
            Seq::empty()
        }
    }
}

/// The lines of `s`.
pub open spec fn lines(s: Seq<char>) -> Seq<Seq<char>> {
    lines_from(s, 0)
}

/// The views of the texts of `v`.
pub open spec fn texts(v: Seq<Vec<char>>) -> Seq<Seq<char>> {
    Seq::new(v.len(), |i: int| v[i]@)
}

/// The lines of `v`.
pub fn split_lines(v: &Vec<char>) -> (r: Vec<Vec<char>>)
    ensures
        texts(r@) == lines(v@),
{
    let feed = chars_of("\n");
    let mut out: Vec<Vec<char>> = Vec::new();
    let mut pos: usize = 0;
    assert(texts(out@) =~= Seq::<Seq<char>>::empty());
    while pos < v.len()
        invariant
            pos <= v.len(),
            feed@ == line_feed(),
            lines(v@) == texts(out@) + lines_from(v@, pos as int),
        decreases v.len() - pos,
    {
        let ghost before = texts(out@);
        match find_in(v, &feed, pos) {
            None => {
                let line = slice_of(v, pos, v.len());
                out.push(line);
                assert(texts(out@) =~= before.push(line@));
                assert(lines_from(v@, v.len() as int) =~= Seq::<Seq<char>>::empty());
                assert(lines(v@) =~= texts(out@) + lines_from(v@, v.len() as int));
                pos = v.len();
            },
            Some(end) => {
                proof {
                    reveal_strlit("\n");
                }
                let stop = if end > pos && v[end - 1] == '\r' {
                    end - 1
                } else {
                    end
                };
                let line = slice_of(v, pos, stop);
                assert(line@ =~= without_carriage_return(v@.subrange(pos as int, end as int)));
                out.push(line);
                assert(texts(out@) =~= before.push(line@));
                assert(lines(v@) =~= texts(out@) + lines_from(v@, end + 1));
                pos = end + 1;
            },
        }
    }
    assert(lines_from(v@, pos as int) =~= Seq::<Seq<char>>::empty());
    assert(lines(v@) =~= texts(out@));
    out
}

// ---------------------------------------------------------------------------
// Order
// ---------------------------------------------------------------------------

/// Whether `a` comes before `b` in the order of strings: at the first
/// position where they differ `a` has the smaller character, or `a` ends
/// there and `b` goes on.
pub open spec fn text_less_from(a: Seq<char>, b: Seq<char>, i: int) -> bool
    decreases a.len() - i,
{
    if i < 0 || i >= b.len() {
        false
    } else if i >= a.len() {
        true
    } else if a[i] != b[i] {
        (a[i] as u32) < (b[i] as u32)
    } else {
        text_less_from(a, b, i + 1)
    }
}

/// Whether `a` comes before `b` in the order of strings, which is the
/// order of `str`.
pub open spec fn text_less(a: Seq<char>, b: Seq<char>) -> bool {
    text_less_from(a, b, 0)
}

proof fn lemma_less_transitive_from(a: Seq<char>, b: Seq<char>, c: Seq<char>, i: int)
    requires
        0 <= i,
        text_less_from(a, b, i),
        text_less_from(b, c, i),
    ensures
        text_less_from(a, c, i),
    decreases a.len() - i,
{
    if i < a.len() && a[i] == b[i] && b[i] == c[i] {
        lemma_less_transitive_from(a, b, c, i + 1);
    }
}

proof fn lemma_less_total_from(a: Seq<char>, b: Seq<char>, i: int)
    requires
        0 <= i <= a.len(),
        i <= b.len(),
        forall|k: int| 0 <= k < i ==> a[k] == b[k],
    ensures
        a == b || text_less_from(a, b, i) || text_less_from(b, a, i),
        !(text_less_from(a, b, i) && text_less_from(b, a, i)),
        a == b ==> !text_less_from(a, b, i),
    decreases a.len() - i,
{
    if i < a.len() && i < b.len() {
        if a[i] == b[i] {
            lemma_less_total_from(a, b, i + 1);
        } else {
            vstd::utf8::char_u32_cast(a[i], a[i] as u32);
            vstd::utf8::char_u32_cast(b[i], b[i] as u32);
        }
    } else if i == a.len() && i == b.len() {
        assert(a =~= b);
    }
}

/// The order of strings is transitive.
pub proof fn lemma_less_transitive(a: Seq<char>, b: Seq<char>, c: Seq<char>)
    requires
        text_less(a, b),
        text_less(b, c),
    ensures
        text_less(a, c),
{
    lemma_less_transitive_from(a, b, c, 0);
}

/// Of two strings that differ exactly one comes before the other, and no
/// string comes before itself.
pub proof fn lemma_less_total(a: Seq<char>, b: Seq<char>)
    ensures
        a == b || text_less(a, b) || text_less(b, a),
        !(text_less(a, b) && text_less(b, a)),
        a == b ==> !text_less(a, b),
{
    lemma_less_total_from(a, b, 0);
}

/// Whether `a` comes before `b` in the order of strings.
pub fn is_text_less(a: &Vec<char>, b: &Vec<char>) -> (r: bool)
    ensures
        r == text_less(a@, b@),
{
    let mut i: usize = 0;
    loop
        invariant
            i <= a.len(),
            i <= b.len(),
            text_less(a@, b@) == text_less_from(a@, b@, i as int),
        decreases a.len() - i,
    {
        if i >= b.len() {
            return false;
        }
        if i >= a.len() {
            return true;
        }
        if a[i] != b[i] {
            return (a[i] as u32) < (b[i] as u32);
        }
        i += 1;
    }
}

// ---------------------------------------------------------------------------
// Reading numbers
// ---------------------------------------------------------------------------

/// Whether `c` is a decimal digit.
pub open spec fn is_digit(c: char) -> bool {
    '0' <= c <= '9'
}

/// The number that the decimal digits of `s` spell.
pub open spec fn digits_value(s: Seq<char>) -> nat
    decreases s.len(),
{
    if s.len() == 0 {
        0
    } else {
        digits_value(s.drop_last()) * 10 + ((s.last() as u32) - 48) as nat
    }
}

/// Whether `s` holds nothing but decimal digits.
pub open spec fn all_digits(s: Seq<char>) -> bool {
    forall|i: int| 0 <= i < s.len() ==> is_digit(#[trigger] s[i])
}

/// The number that `s` spells, where it is a number that is not above
/// `max`: decimal digits, at least one, after an optional `+`.
pub open spec fn parsed_number(s: Seq<char>, max: nat) -> Option<nat> {
    let body = if s.len() > 0 && s[0] == '+' {
        s.skip(1)
    } else {
        s
    };
    if body.len() > 0 && all_digits(body) && digits_value(body) <= max {
        Some(digits_value(body))
    } else {
        None
    }
}

proof fn lemma_digits_value_grows(s: Seq<char>, i: int)
    requires
        0 <= i <= s.len(),
        all_digits(s),
    ensures
        digits_value(s.take(i)) <= digits_value(s),
    decreases s.len() - i,
{
    if i < s.len() {
        lemma_digits_value_grows(s, i + 1);
        assert(s.take(i + 1).drop_last() =~= s.take(i));
        assert(is_digit(s[i]));
    } else {
        assert(s.take(i) =~= s);
    }
}

/// Reads a number that is not above `max`.
pub fn parse_number(v: &Vec<char>, max: usize) -> (r: Option<usize>)
    ensures
        match r {
            Some(n) => parsed_number(v@, max as nat) == Some(n as nat),
            None => parsed_number(v@, max as nat) is None,
        },
{
    let start: usize = if v.len() > 0 && v[0] == '+' {
        1
    } else {
        0
    };
    let ghost body = if v@.len() > 0 && v@[0] == '+' {
        v@.skip(1)
    } else {
        v@
    };
    assert(body =~= v@.skip(start as int));
    if start == v.len() {
        return None;
    }
    let mut value: usize = 0;
    let mut i: usize = start;
    assert(body.take(0) =~= Seq::<char>::empty());
    while i < v.len()
        invariant
            start <= i <= v.len(),
            body == v@.skip(start as int),
            body == (if v@.len() > 0 && v@[0] == '+' {
                v@.skip(1)
            } else {
                v@
            }),
            all_digits(body.take(i - start)),
            value == digits_value(body.take(i - start)),
            value <= max,
        decreases v.len() - i,
    {
        let c = v[i];
        assert(c == body[i - start]);
        if !('0' <= c && c <= '9') {
            assert(!is_digit(body[i - start]));
            return None;
        }
        let d: usize = ((c as u32) - 48) as usize;
        proof {
            let p = body.take(i - start + 1);
            assert(p.drop_last() =~= body.take(i - start));
            assert(p.last() == c);
            assert(all_digits(p)) by {
                assert forall|k: int| 0 <= k < p.len() implies is_digit(#[trigger] p[k]) by {
                    if k < p.len() - 1 {
                        assert(p[k] == body.take(i - start)[k]);
                    }
                }
            }
        }
        if d > max || value > (max - d) / 10 {
            proof {
                let p = body.take(i - start + 1);
                assert(digits_value(p) > max);
                if all_digits(body) {
                    lemma_digits_value_grows(body, i - start + 1);
                }
            }
            return None;
        }
        value = value * 10 + d;
        i += 1;
    }
    assert(body.take(i - start) =~= body);
    Some(value)
}

// ---------------------------------------------------------------------------
// Splitting
// ---------------------------------------------------------------------------

/// The pieces of `s` from position `from` on that the separator `sep`
/// sets apart.  There is always at least one piece.
pub open spec fn split_from(s: Seq<char>, sep: char, from: int) -> Seq<Seq<char>>
    decreases s.len() - from,
{
    if from < 0 || from > s.len() {
        Seq::empty()
    } else {
        let found = find_from(s, seq![sep], from);
        if found is None {
            seq![s.subrange(from, s.len() as int)]
        } else if from <= found->0 < s.len() {
            seq![s.subrange(from, found->0)] + split_from(s, sep, found->0 + 1)
        } else {
            Seq::empty()
        }
    }
}

/// The pieces of `s` that the separator `sep` sets apart.
pub open spec fn split(s: Seq<char>, sep: char) -> Seq<Seq<char>> {
    split_from(s, sep, 0)
}

/// The pieces of `v` that the separator `sep` sets apart.
pub fn split_on(v: &Vec<char>, sep: char) -> (r: Vec<Vec<char>>)
    ensures
        texts(r@) == split(v@, sep),
{
    let mut pat: Vec<char> = Vec::new();
    pat.push(sep);
    assert(pat@ =~= seq![sep]);
    let mut out: Vec<Vec<char>> = Vec::new();
    let mut pos: usize = 0;
    assert(texts(out@) =~= Seq::<Seq<char>>::empty());
    loop
        invariant
            pos <= v.len(),
            pat@ == seq![sep],
            split(v@, sep) == texts(out@) + split_from(v@, sep, pos as int),
        decreases v.len() - pos,
    {
        let ghost before = texts(out@);
        match find_in(v, &pat, pos) {
            None => {
                let piece = slice_of(v, pos, v.len());
                out.push(piece);
                assert(texts(out@) =~= before.push(piece@));
                assert(split(v@, sep) =~= texts(out@));
                return out;
            },
            Some(end) => {
                let piece = slice_of(v, pos, end);
                out.push(piece);
                assert(texts(out@) =~= before.push(piece@));
                assert(split(v@, sep) =~= texts(out@) + split_from(v@, sep, end + 1));
                pos = end + 1;
            },
        }
    }
}

// ---------------------------------------------------------------------------
// Words
// ---------------------------------------------------------------------------

/// The first position at or after `i` that holds whitespace, or the
/// length of `s`.
pub open spec fn word_end(s: Seq<char>, i: int) -> int
    decreases s.len() - i,
{
    if 0 <= i < s.len() && !is_whitespace(s[i]) {
        word_end(s, i + 1)
    } else {
        i
    }
}

/// The words of `s` from position `from` on: the stretches without
/// whitespace.
pub open spec fn words_from(s: Seq<char>, from: int) -> Seq<Seq<char>>
    decreases s.len() - from,
{
    let start = skip_whitespace(s, from);
    if from < 0 || start >= s.len() || start < from {
        Seq::empty()
    } else {
        let end = word_end(s, start);
        if start < end <= s.len() {
            seq![s.subrange(start, end)] + words_from(s, end)
        } else {
            Seq::empty()
        }
    }
}

/// The words of `s`.
pub open spec fn words(s: Seq<char>) -> Seq<Seq<char>> {
    words_from(s, 0)
}

/// The words of `v`.
pub fn split_words(v: &Vec<char>) -> (r: Vec<Vec<char>>)
    ensures
        texts(r@) == words(v@),
{
    let mut out: Vec<Vec<char>> = Vec::new();
    let mut pos: usize = 0;
    assert(texts(out@) =~= Seq::<Seq<char>>::empty());
    loop
        invariant
            pos <= v.len(),
            words(v@) == texts(out@) + words_from(v@, pos as int),
        decreases v.len() - pos,
    {
        let start = skip_whitespace_from(v, pos);
        if start >= v.len() {
            assert(words(v@) =~= texts(out@));
            return out;
        }
        let mut end: usize = start;
        while end < v.len() && !char_is_whitespace(v[end])
            invariant
                start <= end <= v.len(),
                word_end(v@, start as int) == word_end(v@, end as int),
            decreases v.len() - end,
        {
            end += 1;
        }
        proof {
            lemma_skip_whitespace(v@, pos as int);
        }
        let ghost before = texts(out@);
        let word = slice_of(v, start, end);
        out.push(word);
        assert(texts(out@) =~= before.push(word@));
        assert(words(v@) =~= texts(out@) + words_from(v@, end as int));
        pos = end;
    }
}

} // verus!
