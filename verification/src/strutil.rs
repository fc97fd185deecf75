//! Character and string utilities the rest of the library builds on:
//! whitespace tests, substring search, comma splitting, trimming,
//! case-insensitive comparison, lexicographic order, and joining.

use vstd::prelude::*;

verus! {

/// ASCII whitespace: space, tab, line feed, vertical tab, form feed,
/// carriage return.
pub open spec fn is_space(c: char) -> bool {
    c == ' ' || c == '\t' || c == '\n' || c == '\u{b}' || c == '\u{c}' || c == '\r'
}

/// Every character of `s` is whitespace (true of the empty string).
pub open spec fn whitespace_only(s: Seq<char>) -> bool {
    forall|i: int| 0 <= i < s.len() ==> is_space(#[trigger] s[i])
}

pub fn char_is_space(c: char) -> (r: bool)
    ensures
        r == is_space(c),
{
    c == ' ' || c == '\t' || c == '\n' || c == '\u{b}' || c == '\u{c}' || c == '\r'
}

/// The string has a character that is not whitespace.
pub fn str_has_visible_char(s: &str) -> (r: bool)
    ensures
        r == !whitespace_only(s@),
{
    let len = s.unicode_len();
    let mut i: usize = 0;
    while i < len
        invariant
            len == s@.len(),
            0 <= i <= len,
            forall|j: int| 0 <= j < i ==> is_space(#[trigger] s@[j]),
        decreases len - i,
    {
        if !char_is_space(s.get_char(i)) {
            return true;
        }
        i += 1;
    }
    false
}

/// `needle` occurs in `hay` as a contiguous run of characters.
pub open spec fn contains_sub(hay: Seq<char>, needle: Seq<char>) -> bool {
    exists|i: int|
        0 <= i && i + needle.len() <= hay.len() && #[trigger] hay.subrange(i, i + needle.len())
            == needle
}

/// `needle` matches `hay` at position `at`.
fn matches_at(hay: &str, needle: &str, at: usize) -> (r: bool)
    requires
        at + needle@.len() <= hay@.len(),
    ensures
        r == (hay@.subrange(at as int, at + needle@.len()) == needle@),
{
    let hlen = hay.unicode_len();
    let nlen = needle.unicode_len();
    let mut k: usize = 0;
    while k < nlen
        invariant
            hlen == hay@.len(),
            nlen == needle@.len(),
            at + nlen <= hlen,
            0 <= k <= nlen,
            forall|j: int| 0 <= j < k ==> hay@[at + j] == needle@[j],
        decreases nlen - k,
    {
        if hay.get_char(at + k) != needle.get_char(k) {
            assert(hay@.subrange(at as int, at + needle@.len())[k as int] != needle@[k as int]);
            return false;
        }
        k += 1;
    }
    assert(hay@.subrange(at as int, at + needle@.len()) =~= needle@);
    true
}

/// Substring search, character by character.
pub fn str_contains(hay: &str, needle: &str) -> (r: bool)
    ensures
        r == contains_sub(hay@, needle@),
{
    let hlen = hay.unicode_len();
    let nlen = needle.unicode_len();
    if nlen > hlen {
        return false;
    }
    if nlen == 0 {
        assert(hay@.subrange(0, 0 + needle@.len() as int) =~= needle@);
        return true;
    }
    let mut i: usize = 0;
    while i <= hlen - nlen
        invariant
            hlen == hay@.len(),
            nlen == needle@.len(),
            1 <= nlen <= hlen,
            0 <= i <= hlen - nlen + 1,
            forall|j: int|
                0 <= j < i ==> #[trigger] hay@.subrange(j, j + needle@.len()) != needle@,
        decreases hlen - nlen + 1 - i,
    {
        if matches_at(hay, needle, i) {
            return true;
        }
        i += 1;
    }
    false
}

/// Index of the first comma of `s`, or `s.len()` if there is none.
pub open spec fn first_comma(s: Seq<char>) -> nat
    decreases s.len(),
{
    if s.len() == 0 {
        0
    } else if s[0] == ',' {
        0
    } else {
        1 + first_comma(s.drop_first())
    }
}

proof fn lemma_first_comma_bounds(s: Seq<char>)
    ensures
        first_comma(s) <= s.len(),
        first_comma(s) < s.len() ==> s[first_comma(s) as int] == ',',
        forall|j: int| 0 <= j < first_comma(s) ==> s[j] != ',',
    decreases s.len(),
{
    if s.len() == 0 {
    } else if s[0] == ',' {
    } else {
        lemma_first_comma_bounds(s.drop_first());
        assert forall|j: int| 0 <= j < first_comma(s) implies s[j] != ',' by {
            if j > 0 {
                assert(s.drop_first()[j - 1] != ',');
            }
        }
    }
}

/// The unique position with no comma before it that either holds a comma
/// or is the end of the string is `first_comma(s)`.
proof fn lemma_first_comma_unique(s: Seq<char>, i: int)
    requires
        0 <= i <= s.len(),
        forall|j: int| 0 <= j < i ==> s[j] != ',',
        i < s.len() ==> s[i] == ',',
    ensures
        first_comma(s) == i,
    decreases s.len(),
{
    if s.len() == 0 {
    } else if s[0] == ',' {
        assert(i == 0);
    } else {
        assert(i != 0);
        assert forall|j: int| 0 <= j < i - 1 implies s.drop_first()[j] != ',' by {
            assert(s[j + 1] != ',');
        }
        lemma_first_comma_unique(s.drop_first(), i - 1);
    }
}

/// `s` split on commas: the comma-free stretches between the commas, in
/// order.  The empty string splits into one empty piece, as `str::split`
/// does.
pub open spec fn split_commas_spec(s: Seq<char>) -> Seq<Seq<char>>
    decreases s.len(),
{
    let i = first_comma(s) as int;
    if i >= s.len() {
        seq![s]
    } else {
        seq![s.subrange(0, i)] + split_commas_spec(s.subrange(i + 1, s.len() as int))
    }
}

/// Split a string on commas, keeping each piece exactly as it stands
/// (no trimming).
pub fn split_commas(s: &str) -> (r: Vec<String>)
    ensures
        r@.len() == split_commas_spec(s@).len(),
        forall|k: int| 0 <= k < r@.len() ==> r@[k]@ == split_commas_spec(s@)[k],
    decreases s@.len(),
{
    let len = s.unicode_len();
    let mut i: usize = 0;
    while i < len && s.get_char(i) != ','
        invariant
            len == s@.len(),
            0 <= i <= len,
            forall|j: int| 0 <= j < i ==> s@[j] != ',',
        decreases len - i,
    {
        i += 1;
    }
    proof {
        lemma_first_comma_unique(s@, i as int);
    }
    if i == len {
        let mut v: Vec<String> = Vec::new();
        v.push(s.to_owned());
        v
    } else {
        let head = s.substring_char(0, i).to_owned();
        let tail = s.substring_char(i + 1, len);
        let rest = split_commas(tail);
        let mut v: Vec<String> = Vec::new();
        v.push(head);
        let mut k: usize = 0;
        while k < rest.len()
            invariant
                0 <= k <= rest@.len(),
                v@.len() == k + 1,
                v@[0]@ == s@.subrange(0, first_comma(s@) as int),
                forall|j: int| 0 <= j < k ==> v@[j + 1]@ == rest@[j]@,
                rest@.len() == split_commas_spec(tail@).len(),
                forall|j: int| 0 <= j < rest@.len() ==> rest@[j]@ == split_commas_spec(tail@)[j],
                tail@ == s@.subrange(first_comma(s@) as int + 1, s@.len() as int),
            decreases rest@.len() - k,
        {
            let piece = rest[k].clone();
            v.push(piece);
            k += 1;
        }
        v
    }
}

/// Index of the first whitespace character of `s`, or `s.len()` if there
/// is none.
pub open spec fn first_space(s: Seq<char>) -> nat
    decreases s.len(),
{
    if s.len() == 0 {
        0
    } else if is_space(s[0]) {
        0
    } else {
        1 + first_space(s.drop_first())
    }
}

proof fn lemma_first_space_unique(s: Seq<char>, i: int)
    requires
        0 <= i <= s.len(),
        forall|j: int| 0 <= j < i ==> !is_space(#[trigger] s[j]),
        i < s.len() ==> is_space(s[i]),
    ensures
        first_space(s) == i,
    decreases s.len(),
{
    if s.len() == 0 {
    } else if is_space(s[0]) {
        assert(i == 0);
    } else {
        assert(i != 0);
        assert forall|j: int| 0 <= j < i - 1 implies !is_space(#[trigger] s.drop_first()[j]) by {
            assert(!is_space(s[j + 1]));
        }
        lemma_first_space_unique(s.drop_first(), i - 1);
    }
}

/// `s` split on runs of whitespace: the maximal whitespace-free stretches,
/// in order, with no empty pieces.
pub open spec fn split_ws_spec(s: Seq<char>) -> Seq<Seq<char>>
    decreases s.len(),
{
    if s.len() == 0 {
        Seq::empty()
    } else if is_space(s[0]) {
        split_ws_spec(s.drop_first())
    } else {
        let i = first_space(s) as int;
        if i >= s.len() {
            seq![s]
        } else {
            seq![s.subrange(0, i)] + split_ws_spec(s.subrange(i, s.len() as int))
        }
    }
}

/// Split a string on whitespace runs.
pub fn split_ws(s: &str) -> (r: Vec<String>)
    ensures
        r@.len() == split_ws_spec(s@).len(),
        forall|k: int| 0 <= k < r@.len() ==> r@[k]@ == split_ws_spec(s@)[k],
    decreases s@.len(),
{
    let len = s.unicode_len();
    if len == 0 {
        return Vec::new();
    }
    if char_is_space(s.get_char(0)) {
        let rest = s.substring_char(1, len);
        proof {
            assert(rest@ =~= s@.drop_first());
        }
        return split_ws(rest);
    }
    let mut i: usize = 1;
    while i < len && !char_is_space(s.get_char(i))
        invariant
            len == s@.len(),
            1 <= i <= len,
            forall|j: int| 0 <= j < i ==> !is_space(#[trigger] s@[j]),
        decreases len - i,
    {
        i += 1;
    }
    proof {
        lemma_first_space_unique(s@, i as int);
    }
    if i == len {
        let mut v: Vec<String> = Vec::new();
        v.push(s.to_owned());
        v
    } else {
        let head = s.substring_char(0, i).to_owned();
        let tail = s.substring_char(i, len);
        let rest = split_ws(tail);
        let mut v: Vec<String> = Vec::new();
        v.push(head);
        let mut k: usize = 0;
        while k < rest.len()
            invariant
                0 <= k <= rest@.len(),
                v@.len() == k + 1,
                v@[0]@ == s@.subrange(0, first_space(s@) as int),
                forall|j: int| 0 <= j < k ==> v@[j + 1]@ == rest@[j]@,
                rest@.len() == split_ws_spec(tail@).len(),
                forall|j: int| 0 <= j < rest@.len() ==> rest@[j]@ == split_ws_spec(tail@)[j],
                tail@ == s@.subrange(first_space(s@) as int, s@.len() as int),
                first_space(s@) < s@.len(),
                !is_space(s@[0]),
            decreases rest@.len() - k,
        {
            let piece = rest[k].clone();
            v.push(piece);
            k += 1;
        }
        v
    }
}

/// A single-quote character.
pub open spec fn is_quote(c: char) -> bool {
    c == '\''
}

/// `s` with leading and trailing single quotes removed.
pub open spec fn trimmed_quotes(s: Seq<char>) -> Seq<char>
    decreases s.len(),
{
    if s.len() > 0 && is_quote(s[0]) {
        trimmed_quotes(s.drop_first())
    } else if s.len() > 0 && is_quote(s.last()) {
        trimmed_quotes(s.drop_last())
    } else {
        s
    }
}

proof fn lemma_trimmed_quotes_all(s: Seq<char>)
    requires
        forall|j: int| 0 <= j < s.len() ==> is_quote(#[trigger] s[j]),
    ensures
        trimmed_quotes(s) == Seq::<char>::empty(),
    decreases s.len(),
{
    if s.len() > 0 {
        lemma_trimmed_quotes_all(s.drop_first());
    } else {
        assert(s =~= Seq::<char>::empty());
    }
}

proof fn lemma_trimmed_quotes_range(s: Seq<char>, lo: int, hi: int)
    requires
        0 <= lo < hi <= s.len(),
        forall|j: int| 0 <= j < lo ==> is_quote(#[trigger] s[j]),
        forall|j: int| hi <= j < s.len() ==> is_quote(#[trigger] s[j]),
        !is_quote(s[lo]),
        !is_quote(s[hi - 1]),
    ensures
        trimmed_quotes(s) == s.subrange(lo, hi),
    decreases s.len(),
{
    if lo > 0 {
        lemma_trimmed_quotes_range(s.drop_first(), lo - 1, hi - 1);
        assert(s.drop_first().subrange(lo - 1, hi - 1) =~= s.subrange(lo, hi));
    } else if hi < s.len() {
        lemma_trimmed_quotes_range(s.drop_last(), lo, hi);
        assert(s.drop_last().subrange(lo, hi) =~= s.subrange(lo, hi));
    } else {
        assert(s.subrange(0, s.len() as int) =~= s);
    }
}

/// The slice of `s` left when leading and trailing single quotes go.
pub fn str_trim_quotes<'a>(s: &'a str) -> (r: &'a str)
    ensures
        r@ == trimmed_quotes(s@),
{
    let len = s.unicode_len();
    let mut lo: usize = 0;
    while lo < len && s.get_char(lo) == '\''
        invariant
            len == s@.len(),
            0 <= lo <= len,
            forall|j: int| 0 <= j < lo ==> is_quote(#[trigger] s@[j]),
        decreases len - lo,
    {
        lo += 1;
    }
    if lo == len {
        proof {
            lemma_trimmed_quotes_all(s@);
        }
        let r = s.substring_char(0, 0);
        assert(r@ =~= Seq::<char>::empty());
        return r;
    }
    let mut hi: usize = len;
    while hi > lo + 1 && s.get_char(hi - 1) == '\''
        invariant
            len == s@.len(),
            0 <= lo < hi <= len,
            !is_quote(s@[lo as int]),
            forall|j: int| hi <= j < len ==> is_quote(#[trigger] s@[j]),
        decreases hi,
    {
        hi -= 1;
    }
    proof {
        lemma_trimmed_quotes_range(s@, lo as int, hi as int);
    }
    s.substring_char(lo, hi)
}

/// `s` with leading and trailing whitespace removed.
pub open spec fn trimmed(s: Seq<char>) -> Seq<char>
    decreases s.len(),
{
    if s.len() > 0 && is_space(s[0]) {
        trimmed(s.drop_first())
    } else if s.len() > 0 && is_space(s.last()) {
        trimmed(s.drop_last())
    } else {
        s
    }
}

proof fn lemma_trimmed_all_space(s: Seq<char>)
    requires
        whitespace_only(s),
    ensures
        trimmed(s) == Seq::<char>::empty(),
    decreases s.len(),
{
    if s.len() > 0 {
        assert(whitespace_only(s.drop_first()));
        lemma_trimmed_all_space(s.drop_first());
    } else {
        assert(s =~= Seq::<char>::empty());
    }
}

proof fn lemma_trimmed_range(s: Seq<char>, lo: int, hi: int)
    requires
        0 <= lo < hi <= s.len(),
        forall|j: int| 0 <= j < lo ==> is_space(#[trigger] s[j]),
        forall|j: int| hi <= j < s.len() ==> is_space(#[trigger] s[j]),
        !is_space(s[lo]),
        !is_space(s[hi - 1]),
    ensures
        trimmed(s) == s.subrange(lo, hi),
    decreases s.len(),
{
    if lo > 0 {
        lemma_trimmed_range(s.drop_first(), lo - 1, hi - 1);
        assert(s.drop_first().subrange(lo - 1, hi - 1) =~= s.subrange(lo, hi));
    } else if hi < s.len() {
        assert(!is_space(s[0]));
        assert(is_space(s.last()));
        lemma_trimmed_range(s.drop_last(), lo, hi);
        assert(s.drop_last().subrange(lo, hi) =~= s.subrange(lo, hi));
    } else {
        assert(trimmed(s) == s);
        assert(s.subrange(0, s.len() as int) =~= s);
    }
}

/// The slice of `s` left when leading and trailing whitespace goes.
pub fn str_trim<'a>(s: &'a str) -> (r: &'a str)
    ensures
        r@ == trimmed(s@),
{
    let len = s.unicode_len();
    let mut lo: usize = 0;
    while lo < len && char_is_space(s.get_char(lo))
        invariant
            len == s@.len(),
            0 <= lo <= len,
            forall|j: int| 0 <= j < lo ==> is_space(#[trigger] s@[j]),
        decreases len - lo,
    {
        lo += 1;
    }
    if lo == len {
        proof {
            lemma_trimmed_all_space(s@);
        }
        let r = s.substring_char(0, 0);
        assert(r@ =~= Seq::<char>::empty());
        return r;
    }
    let mut hi: usize = len;
    while hi > lo + 1 && char_is_space(s.get_char(hi - 1))
        invariant
            len == s@.len(),
            0 <= lo < hi <= len,
            !is_space(s@[lo as int]),
            forall|j: int| hi <= j < len ==> is_space(#[trigger] s@[j]),
        decreases hi,
    {
        hi -= 1;
    }
    proof {
        lemma_trimmed_range(s@, lo as int, hi as int);
    }
    s.substring_char(lo, hi)
}

/// The character's code, with an ASCII lower-case letter folded to its
/// upper-case counterpart.
pub open spec fn upper_code(c: char) -> int {
    if 'a' <= c && c <= 'z' {
        c as int - 32
    } else {
        c as int
    }
}

/// Equal up to ASCII case.
pub open spec fn eq_ci(a: Seq<char>, b: Seq<char>) -> bool {
    a.len() == b.len() && forall|i: int| 0 <= i < a.len() ==> upper_code(a[i]) == upper_code(
        #[trigger] b[i],
    )
}

fn char_upper_code(c: char) -> (r: u32)
    ensures
        r as int == upper_code(c),
{
    let u = c as u32;
    if 97 <= u && u <= 122 {
        assert('a' <= c && c <= 'z');
        u - 32
    } else {
        assert(!('a' <= c && c <= 'z'));
        u
    }
}

/// Compare two strings for equality up to ASCII case.
pub fn str_eq_ci(a: &str, b: &str) -> (r: bool)
    ensures
        r == eq_ci(a@, b@),
{
    let alen = a.unicode_len();
    let blen = b.unicode_len();
    if alen != blen {
        return false;
    }
    let mut i: usize = 0;
    while i < alen
        invariant
            alen == a@.len(),
            alen == b@.len(),
            0 <= i <= alen,
            forall|j: int| 0 <= j < i ==> upper_code(a@[j]) == upper_code(#[trigger] b@[j]),
        decreases alen - i,
    {
        if char_upper_code(a.get_char(i)) != char_upper_code(b.get_char(i)) {
            return false;
        }
        i += 1;
    }
    true
}

/// Compare two strings character by character.
pub fn str_eq(a: &str, b: &str) -> (r: bool)
    ensures
        r == (a@ == b@),
{
    let alen = a.unicode_len();
    let blen = b.unicode_len();
    if alen != blen {
        return false;
    }
    let mut i: usize = 0;
    while i < alen
        invariant
            alen == a@.len(),
            alen == b@.len(),
            0 <= i <= alen,
            forall|j: int| 0 <= j < i ==> a@[j] == b@[j],
        decreases alen - i,
    {
        if a.get_char(i) != b.get_char(i) {
            return false;
        }
        i += 1;
    }
    proof {
        assert(a@ =~= b@);
    }
    true
}

/// Lexicographic order on character sequences, by code point.
pub open spec fn lex_leq(a: Seq<char>, b: Seq<char>) -> bool
    decreases a.len(),
{
    if a.len() == 0 {
        true
    } else if b.len() == 0 {
        false
    } else if (a[0] as u32) < (b[0] as u32) {
        true
    } else if (a[0] as u32) > (b[0] as u32) {
        false
    } else {
        lex_leq(a.drop_first(), b.drop_first())
    }
}

/// Strictly before in lexicographic order.
pub open spec fn lex_lt(a: Seq<char>, b: Seq<char>) -> bool {
    lex_leq(a, b) && a != b
}

/// The lexicographic order is total, and antisymmetric: two sequences
/// each at most the other are equal.
pub proof fn lemma_lex_total(a: Seq<char>, b: Seq<char>)
    ensures
        lex_leq(a, b) || lex_leq(b, a),
        (lex_leq(a, b) && lex_leq(b, a)) ==> a == b,
    decreases a.len(),
{
    broadcast use vstd::utf8::char_u32_cast;

    if a.len() == 0 {
        if lex_leq(b, a) && lex_leq(a, b) {
            assert(b.len() == 0);
            assert(a =~= b);
        }
    } else if b.len() == 0 {
    } else if (a[0] as u32) == (b[0] as u32) {
        assert(a[0] == b[0]) by {
            vstd::utf8::char_u32_cast(a[0], a[0] as u32);
            vstd::utf8::char_u32_cast(b[0], b[0] as u32);
        }
        lemma_lex_total(a.drop_first(), b.drop_first());
        if lex_leq(a, b) && lex_leq(b, a) {
            assert(a.drop_first() == b.drop_first());
            assert(a =~= b) by {
                assert(a.len() == b.len());
                assert(forall|i: int|
                    1 <= i < a.len() ==> #[trigger] a[i] == a.drop_first()[i - 1]);
                assert(forall|i: int|
                    1 <= i < b.len() ==> #[trigger] b[i] == b.drop_first()[i - 1]);
            }
        }
    } else {
    }
}


/// Compare two strings in lexicographic code-point order.
pub fn str_leq(a: &str, b: &str) -> (r: bool)
    ensures
        r == lex_leq(a@, b@),
{
    let alen = a.unicode_len();
    let blen = b.unicode_len();
    let mut i: usize = 0;
    proof {
        assert(a@.skip(0) =~= a@);
        assert(b@.skip(0) =~= b@);
    }
    loop
        invariant
            alen == a@.len(),
            blen == b@.len(),
            0 <= i <= alen,
            i <= blen,
            lex_leq(a@, b@) == lex_leq(a@.skip(i as int), b@.skip(i as int)),
        decreases alen - i,
    {
        if i == alen {
            assert(lex_leq(a@.skip(i as int), b@.skip(i as int)));
            return true;
        }
        if i == blen {
            assert(b@.skip(i as int).len() == 0);
            assert(a@.skip(i as int).len() > 0);
            return false;
        }
        let ca = a.get_char(i);
        let cb = b.get_char(i);
        let ua = ca as u32;
        let ub = cb as u32;
        proof {
            assert(a@.skip(i as int)[0] == a@[i as int]);
            assert(b@.skip(i as int)[0] == b@[i as int]);
        }
        if ua < ub {
            return true;
        }
        if ua > ub {
            return false;
        }
        proof {
            assert(a@.skip(i as int).drop_first() =~= a@.skip(i as int + 1));
            assert(b@.skip(i as int).drop_first() =~= b@.skip(i as int + 1));
        }
        i += 1;
    }
}

/// The elements of `vs`, joined with the separator `sep` between them.
pub open spec fn join_sep(vs: Seq<Seq<char>>, sep: Seq<char>) -> Seq<char>
    decreases vs.len(),
{
    if vs.len() == 0 {
        Seq::empty()
    } else if vs.len() == 1 {
        vs[0]
    } else {
        vs[0] + sep + join_sep(vs.drop_first(), sep)
    }
}

proof fn lemma_join_take(vs: Seq<Seq<char>>, sep: Seq<char>, i: int)
    requires
        1 <= i < vs.len(),
    ensures
        join_sep(vs.take(i + 1), sep) == join_sep(vs.take(i), sep) + sep + vs[i],
    decreases i,
{
    if i == 1 {
        let t2 = vs.take(2);
        assert(t2.len() == 2);
        assert(t2[0] == vs[0]);
        assert(t2.drop_first() =~= seq![vs[1]]);
        assert(join_sep(seq![vs[1]], sep) == vs[1]);
        assert(join_sep(t2, sep) == t2[0] + sep + join_sep(t2.drop_first(), sep));
        assert(vs.take(1) =~= seq![vs[0]]);
        assert(join_sep(vs.take(1), sep) == vs[0]);
    } else {
        lemma_join_take(vs.drop_first(), sep, i - 1);
        assert(vs.take(i + 1).drop_first() =~= vs.drop_first().take(i));
        assert(vs.take(i).drop_first() =~= vs.drop_first().take(i - 1));
        assert(vs.take(i + 1)[0] == vs[0]);
        assert(vs.take(i)[0] == vs[0]);
        assert(vs.drop_first()[i - 1] == vs[i]);
        assert(join_sep(vs.take(i + 1), sep) == vs[0] + sep + join_sep(
            vs.drop_first().take(i),
            sep,
        ));
        assert(join_sep(vs.take(i), sep) == vs[0] + sep + join_sep(
            vs.drop_first().take(i - 1),
            sep,
        ));
    }
}

/// Join the strings of `v` with the separator `sep` between them.
pub fn join_with(v: &Vec<String>, sep: &str) -> (r: String)
    ensures
        r@ == join_sep(views_of(v@), sep@),
{
    let ghost views = views_of(v@);
    let mut r = String::new();
    if v.len() == 0 {
        return r;
    }
    r.append(v[0].as_str());
    assert(r@ =~= views[0]);
    assert(views.take(1) =~= seq![views[0]]);
    let mut i: usize = 1;
    while i < v.len()
        invariant
            views == v@.map_values(|s: String| s@),
            1 <= i <= v@.len(),
            r@ == join_sep(views.take(i as int), sep@),
        decreases v@.len() - i,
    {
        r.append(sep);
        r.append(v[i].as_str());
        proof {
            lemma_join_take(views, sep@, i as int);
        }
        i += 1;
    }
    proof {
        assert(views.take(v@.len() as int) =~= views);
    }
    r
}

/// The views of a sequence of strings.
pub open spec fn views_of(vs: Seq<String>) -> Seq<Seq<char>> {
    vs.map_values(|s: String| s@)
}

/// The two strings, joined.
pub fn concat2(a: &str, b: &str) -> (r: String)
    ensures
        r@ == a@ + b@,
{
    let mut r = a.to_owned();
    r.append(b);
    r
}

/// The three strings, joined.
pub fn concat3(a: &str, b: &str, c: &str) -> (r: String)
    ensures
        r@ == a@ + b@ + c@,
{
    let mut r = a.to_owned();
    r.append(b);
    r.append(c);
    r
}

/// The four strings, joined.
pub fn concat4(a: &str, b: &str, c: &str, d: &str) -> (r: String)
    ensures
        r@ == a@ + b@ + c@ + d@,
{
    let mut r = a.to_owned();
    r.append(b);
    r.append(c);
    r.append(d);
    r
}

/// The decimal digit character for `d`.
pub open spec fn dec_digit(d: int) -> char {
    if d == 0 {
        '0'
    } else if d == 1 {
        '1'
    } else if d == 2 {
        '2'
    } else if d == 3 {
        '3'
    } else if d == 4 {
        '4'
    } else if d == 5 {
        '5'
    } else if d == 6 {
        '6'
    } else if d == 7 {
        '7'
    } else if d == 8 {
        '8'
    } else {
        '9'
    }
}

/// The decimal representation of `n`, most significant digit first,
/// without leading zeros (except for `n == 0` itself).
pub open spec fn dec_str(n: nat) -> Seq<char>
    decreases n,
{
    if n < 10 {
        seq![dec_digit(n as int)]
    } else {
        dec_str(n / 10) + seq![dec_digit((n % 10) as int)]
    }
}

fn digit_str(d: u64) -> (r: &'static str)
    requires
        d < 10,
    ensures
        r@ =~= seq![dec_digit(d as int)],
{
    proof {
        reveal_strlit("0");
        reveal_strlit("1");
        reveal_strlit("2");
        reveal_strlit("3");
        reveal_strlit("4");
        reveal_strlit("5");
        reveal_strlit("6");
        reveal_strlit("7");
        reveal_strlit("8");
        reveal_strlit("9");
    }
    if d == 0 {
        "0"
    } else if d == 1 {
        "1"
    } else if d == 2 {
        "2"
    } else if d == 3 {
        "3"
    } else if d == 4 {
        "4"
    } else if d == 5 {
        "5"
    } else if d == 6 {
        "6"
    } else if d == 7 {
        "7"
    } else if d == 8 {
        "8"
    } else {
        "9"
    }
}

/// Render `n` in decimal.
pub fn u64_to_dec(n: u64) -> (r: String)
    ensures
        r@ == dec_str(n as nat),
    decreases n,
{
    if n < 10 {
        digit_str(n).to_owned()
    } else {
        let mut s = u64_to_dec(n / 10);
        s.append(digit_str(n % 10));
        s
    }
}

} // verus!
