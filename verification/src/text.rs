//! Character-level text helpers shared by the policy, parsing and UI code.
//!
//! Every helper works on sequences of `char` (the view of `str`/`String`)
//! and is specified by a spec function over `Seq<char>`.
use vstd::prelude::*;

verus! {

/// Unicode `White_Space` characters, as recognised by `char::is_whitespace`.
pub open spec fn is_ws(c: char) -> bool {
    ||| c == '\t' || c == '\n' || c == '\u{0B}' || c == '\u{0C}' || c == '\r' || c == ' '
    ||| c == '\u{85}' || c == '\u{A0}' || c == '\u{1680}'
    ||| ('\u{2000}' <= c && c <= '\u{200A}')
    ||| c == '\u{2028}' || c == '\u{2029}' || c == '\u{202F}' || c == '\u{205F}'
    ||| c == '\u{3000}'
}

/// Whitespace test on one character.
pub fn is_whitespace_char(c: char) -> (r: bool)
    ensures
        r == is_ws(c),
{
    c == '\t' || c == '\n' || c == '\u{0B}' || c == '\u{0C}' || c == '\r' || c == ' '
        || c == '\u{85}' || c == '\u{A0}' || c == '\u{1680}' || ('\u{2000}' <= c && c
        <= '\u{200A}') || c == '\u{2028}' || c == '\u{2029}' || c == '\u{202F}' || c
        == '\u{205F}' || c == '\u{3000}'
}

/// `s` without its leading whitespace.
pub open spec fn trim_start_seq(s: Seq<char>) -> Seq<char>
    decreases s.len(),
{
    if s.len() > 0 && is_ws(s[0]) {
        trim_start_seq(s.drop_first())
    } else {
        s
    }
}

/// `s` without its trailing whitespace.
pub open spec fn trim_end_seq(s: Seq<char>) -> Seq<char>
    decreases s.len(),
{
    if s.len() > 0 && is_ws(s.last()) {
        trim_end_seq(s.drop_last())
    } else {
        s
    }
}

/// `s` without leading and trailing whitespace (`str::trim`).
pub open spec fn trim_seq(s: Seq<char>) -> Seq<char> {
    trim_end_seq(trim_start_seq(s))
}

/// `pat` occurs in `s` at position `i`.
pub open spec fn occurs_at(s: Seq<char>, pat: Seq<char>, i: int) -> bool {
    0 <= i && i + pat.len() <= s.len() && s.subrange(i, i + pat.len()) == pat
}

/// `pat` occurs somewhere in `s` (`str::contains`).
pub open spec fn seq_contains(s: Seq<char>, pat: Seq<char>) -> bool {
    exists|i: int| occurs_at(s, pat, i)
}

/// `s` begins with `pat` (`str::starts_with`).
pub open spec fn seq_starts_with(s: Seq<char>, pat: Seq<char>) -> bool {
    occurs_at(s, pat, 0)
}

/// `s` ends with `pat` (`str::ends_with`).
pub open spec fn seq_ends_with(s: Seq<char>, pat: Seq<char>) -> bool {
    occurs_at(s, pat, s.len() - pat.len())
}

/// Pieces of `s` between occurrences of `sep` (`str::split` by a char),
/// built left to right: a separator closes the current piece.
pub open spec fn split_seq(s: Seq<char>, sep: char) -> Seq<Seq<char>>
    decreases s.len(),
{
    if s.len() == 0 {
        seq![Seq::<char>::empty()]
    } else {
        let prev = split_seq(s.drop_last(), sep);
        if s.last() == sep {
            prev.push(Seq::<char>::empty())
        } else {
            prev.update(prev.len() - 1, prev.last().push(s.last()))
        }
    }
}

/// A terminated line without its trailing carriage return, if any.
pub open spec fn strip_cr(line: Seq<char>) -> Seq<char> {
    if line.len() > 0 && line.last() == '\r' {
        line.drop_last()
    } else {
        line
    }
}

/// The lines of `s` (`str::lines`): pieces split on `'\n'`, where each
/// terminated piece loses a trailing `'\r'` and an empty final piece is
/// not a line.
pub open spec fn lines_seq(s: Seq<char>) -> Seq<Seq<char>> {
    let pieces = split_seq(s, '\n');
    let body = pieces.drop_last().map_values(|p: Seq<char>| strip_cr(p));
    if pieces.last().len() == 0 {
        body
    } else {
        body.push(pieces.last())
    }
}

/// Splitting `s + t`, where `t` holds no separator, extends the last piece
/// of `s` by `t`.
pub proof fn lemma_split_append_plain(s: Seq<char>, t: Seq<char>, sep: char)
    requires
        forall|j: int| 0 <= j < t.len() ==> t[j] != sep,
    ensures
        split_seq(s + t, sep) == split_seq(s, sep).update(
            split_seq(s, sep).len() - 1,
            split_seq(s, sep).last() + t,
        ),
    decreases t.len(),
{
    lemma_split_nonempty(s, sep);
    let p = split_seq(s, sep);
    if t.len() == 0 {
        assert(s + t =~= s);
        assert(p.update(p.len() - 1, p.last() + t) =~= p);
    } else {
        let t0 = t.drop_last();
        assert forall|j: int| 0 <= j < t0.len() implies t0[j] != sep by {
            assert(t0[j] == t[j]);
        }
        lemma_split_append_plain(s, t0, sep);
        let st = s + t;
        assert(st.drop_last() =~= s + t0);
        assert(st.last() == t[t.len() - 1]);
        let prev = split_seq(s + t0, sep);
        assert(prev.len() == p.len());
        assert(prev.last() == p.last() + t0);
        assert(prev.last().push(st.last()) =~= p.last() + t);
        assert(split_seq(st, sep) =~= p.update(p.len() - 1, p.last() + t));
    }
}

/// No piece of a split holds the separator.
pub proof fn lemma_split_pieces_plain(s: Seq<char>, sep: char)
    ensures
        forall|i: int, j: int|
            0 <= i < split_seq(s, sep).len() && 0 <= j < split_seq(s, sep)[i].len()
                ==> #[trigger] split_seq(s, sep)[i][j] != sep,
    decreases s.len(),
{
    if s.len() > 0 {
        lemma_split_pieces_plain(s.drop_last(), sep);
        lemma_split_nonempty(s.drop_last(), sep);
        let prev = split_seq(s.drop_last(), sep);
        let cur = split_seq(s, sep);
        assert forall|i: int, j: int| 0 <= i < cur.len() && 0 <= j < cur[i].len() implies #[trigger] cur[i][j]
            != sep by {
            if s.last() == sep {
                if i < prev.len() {
                    assert(cur[i] == prev[i]);
                }
            } else {
                if i < prev.len() - 1 {
                    assert(cur[i] == prev[i]);
                } else {
                    assert(cur[i] == prev.last().push(s.last()));
                    if j < prev.last().len() {
                        assert(cur[i][j] == prev[prev.len() - 1][j]);
                    }
                }
            }
        }
    }
}

/// The lines of a text hold no line feed.
pub proof fn lemma_lines_plain(s: Seq<char>)
    ensures
        forall|i: int, j: int|
            0 <= i < lines_seq(s).len() && 0 <= j < lines_seq(s)[i].len() ==> #[trigger] lines_seq(
                s,
            )[i][j] != '\n',
{
    lemma_split_pieces_plain(s, '\n');
    lemma_split_nonempty(s, '\n');
    let pieces = split_seq(s, '\n');
    let ls = lines_seq(s);
    assert forall|i: int, j: int| 0 <= i < ls.len() && 0 <= j < ls[i].len() implies #[trigger] ls[i][j]
        != '\n' by {
        if i < pieces.len() - 1 {
            assert(ls[i] == strip_cr(pieces[i]));
            assert(ls[i][j] == pieces[i][j]);
        } else {
            assert(ls[i] == pieces[pieces.len() - 1]);
        }
    }
}

/// Joining pieces free of line feeds with `"\n"`, then splitting on line
/// feeds, gives the pieces back.
pub proof fn lemma_split_join(parts: Seq<Seq<char>>)
    requires
        parts.len() >= 1,
        forall|i: int, j: int| 0 <= i < parts.len() && 0 <= j < parts[i].len() ==> #[trigger] parts[i][j] != '\n',
    ensures
        split_seq(join_seq(parts, "\n"@), '\n') == parts,
    decreases parts.len(),
{
    reveal_strlit("\n");
    if parts.len() == 1 {
        let p = parts[0];
        assert forall|j: int| 0 <= j < p.len() implies p[j] != '\n' by {
            assert(parts[0][j] != '\n');
        }
        lemma_split_append_plain(Seq::<char>::empty(), p, '\n');
        assert(Seq::<char>::empty() + p =~= p);
        assert(split_seq(Seq::<char>::empty(), '\n') == seq![Seq::<char>::empty()]);
        assert(seq![Seq::<char>::empty()].update(0, Seq::<char>::empty() + p) =~= parts);
    } else {
        let prev = parts.drop_last();
        assert forall|i: int, j: int| 0 <= i < prev.len() && 0 <= j < prev[i].len() implies #[trigger] prev[i][j]
            != '\n' by {
            assert(prev[i] == parts[i]);
        }
        lemma_split_join(prev);
        let p = parts[parts.len() - 1];
        assert forall|j: int| 0 <= j < p.len() implies p[j] != '\n' by {
            assert(parts[parts.len() - 1][j] != '\n');
        }
        let jp = join_seq(prev, "\n"@);
        let a = jp + "\n"@;
        assert(a.len() > 0 && a.last() == '\n');
        assert(a.drop_last() =~= jp);
        assert(split_seq(a, '\n') == prev.push(Seq::<char>::empty()));
        lemma_split_append_plain(a, p, '\n');
        assert(join_seq(parts, "\n"@) == a + p);
        assert(prev.push(Seq::<char>::empty()).update(prev.len() as int, Seq::<char>::empty() + p) =~= parts);
    }
}

/// The lines of pieces free of line feeds, joined and ended by line feeds,
/// are the pieces without a trailing carriage return.
pub proof fn lemma_lines_of_joined(parts: Seq<Seq<char>>)
    requires
        parts.len() >= 1,
        forall|i: int, j: int| 0 <= i < parts.len() && 0 <= j < parts[i].len() ==> #[trigger] parts[i][j] != '\n',
    ensures
        lines_seq(join_seq(parts, "\n"@).push('\n')) == parts.map_values(|p: Seq<char>| strip_cr(p)),
{
    lemma_split_join(parts);
    let j = join_seq(parts, "\n"@);
    let t = j.push('\n');
    assert(t.drop_last() =~= j);
    assert(split_seq(t, '\n') == parts.push(Seq::<char>::empty()));
    assert(split_seq(t, '\n').drop_last() =~= parts);
}

/// Dropping trailing whitespace does not change the trimmed text.
pub proof fn lemma_trim_drop_last_ws(s: Seq<char>)
    requires
        s.len() > 0,
        is_ws(s.last()),
    ensures
        trim_seq(s.drop_last()) == trim_seq(s),
    decreases s.len(),
{
    let e = Seq::<char>::empty();
    assert(trim_start_seq(e) == e);
    assert(trim_end_seq(e) == e);
    if is_ws(s[0]) {
        if s.len() == 1 {
            assert(s.drop_first() =~= e);
            assert(s.drop_last() =~= e);
            assert(trim_start_seq(s) == trim_start_seq(s.drop_first()));
        } else {
            lemma_trim_drop_last_ws(s.drop_first());
            assert(s.drop_last().drop_first() =~= s.drop_first().drop_last());
            assert(trim_start_seq(s) == trim_start_seq(s.drop_first()));
            assert(trim_start_seq(s.drop_last()) == trim_start_seq(s.drop_last().drop_first()));
        }
    } else {
        assert(trim_start_seq(s) == s);
        assert(s.drop_last()[0] == s[0]);
        assert(trim_start_seq(s.drop_last()) == s.drop_last());
        assert(trim_end_seq(s) == trim_end_seq(s.drop_last()));
    }
}

/// A trailing carriage return does not change the trimmed text.
pub proof fn lemma_trim_strip_cr(s: Seq<char>)
    ensures
        trim_seq(strip_cr(s)) == trim_seq(s),
{
    if s.len() > 0 && s.last() == '\r' {
        lemma_trim_drop_last_ws(s);
    }
}

/// A text that neither starts nor ends with whitespace is its own trim.
pub proof fn lemma_trim_plain(s: Seq<char>)
    requires
        s.len() > 0 ==> !is_ws(s[0]) && !is_ws(s.last()),
    ensures
        trim_seq(s) == s,
{
    assert(trim_start_seq(s) == s);
    assert(trim_end_seq(s) == s);
}

/// What remains after dropping leading whitespace starts with a
/// non-whitespace character.
proof fn lemma_trim_start_head(s: Seq<char>)
    ensures
        trim_start_seq(s).len() > 0 ==> !is_ws(trim_start_seq(s)[0]),
    decreases s.len(),
{
    if s.len() > 0 && is_ws(s[0]) {
        lemma_trim_start_head(s.drop_first());
    }
}

/// Dropping trailing whitespace leaves a prefix that ends with a
/// non-whitespace character.
proof fn lemma_trim_end_prefix(s: Seq<char>)
    ensures
        trim_end_seq(s).len() <= s.len(),
        trim_end_seq(s) == s.subrange(0, trim_end_seq(s).len() as int),
        trim_end_seq(s).len() > 0 ==> !is_ws(trim_end_seq(s).last()),
    decreases s.len(),
{
    if s.len() > 0 && is_ws(s.last()) {
        lemma_trim_end_prefix(s.drop_last());
        let n = trim_end_seq(s).len() as int;
        assert(s.drop_last().subrange(0, n) =~= s.subrange(0, n));
    } else {
        assert(s.subrange(0, s.len() as int) =~= s);
    }
}

/// A trimmed text neither starts nor ends with whitespace.
pub proof fn lemma_trim_ends(s: Seq<char>)
    ensures
        trim_seq(s).len() > 0 ==> !is_ws(trim_seq(s)[0]) && !is_ws(trim_seq(s).last()),
{
    lemma_trim_start_head(s);
    lemma_trim_end_prefix(trim_start_seq(s));
    let t = trim_start_seq(s);
    if trim_seq(s).len() > 0 {
        assert(trim_seq(s)[0] == t.subrange(0, trim_seq(s).len() as int)[0]);
    }
}

/// Concatenation of a list of texts.
pub open spec fn concat_all(parts: Seq<Seq<char>>) -> Seq<char>
    decreases parts.len(),
{
    if parts.len() == 0 {
        Seq::empty()
    } else {
        concat_all(parts.drop_last()) + parts.last()
    }
}

/// Concatenation of `parts` separated by `sep` (`[T]::join`).
pub open spec fn join_seq(parts: Seq<Seq<char>>, sep: Seq<char>) -> Seq<char>
    decreases parts.len(),
{
    if parts.len() == 0 {
        Seq::empty()
    } else if parts.len() == 1 {
        parts[0]
    } else {
        join_seq(parts.drop_last(), sep) + sep + parts.last()
    }
}

/// An ASCII decimal digit.
pub open spec fn is_digit(c: char) -> bool {
    '0' <= c && c <= '9'
}

/// The value of an ASCII decimal digit.
pub open spec fn digit_value(c: char) -> int {
    (c as int) - ('0' as int)
}

/// The value of a run of decimal digits, most significant first.
pub open spec fn digits_value(s: Seq<char>) -> int
    decreases s.len(),
{
    if s.len() == 0 {
        0
    } else {
        digits_value(s.drop_last()) * 10 + digit_value(s.last())
    }
}

/// The digits of an unsigned number's text: an optional leading `+` is
/// dropped.
pub open spec fn unsigned_digits(s: Seq<char>) -> Seq<char> {
    if s.len() > 0 && s[0] == '+' {
        s.drop_first()
    } else {
        s
    }
}

/// The unsigned integer a text denotes as `str::parse` reads it for an
/// unsigned type whose largest value is `max`: an optional `+`, then one or
/// more ASCII digits, with a value no greater than `max`; `None` otherwise.
pub open spec fn parse_unsigned(s: Seq<char>, max: int) -> Option<int> {
    let d = unsigned_digits(s);
    if d.len() > 0 && (forall|i: int| 0 <= i < d.len() ==> is_digit(#[trigger] d[i]))
        && digits_value(d) <= max {
        Some(digits_value(d))
    } else {
        None
    }
}

/// Reads an unsigned decimal number no greater than `max` from a text.
pub fn parse_unsigned_text(s: &str, max: u64) -> (r: Option<u64>)
    ensures
        match r {
            Some(v) => parse_unsigned(s@, max as int) == Some(v as int),
            None => parse_unsigned(s@, max as int) is None,
        },
{
    let chars = chars_of(s);
    let mut start: usize = 0;
    if chars.len() > 0 && chars[0] == '+' {
        start = 1;
    }
    let ghost d = unsigned_digits(s@);
    assert(d =~= chars@.skip(start as int));
    if start >= chars.len() {
        assert(d.len() == 0);
        return None;
    }
    let cap: u128 = max as u128 + 1;
    let mut acc: u128 = 0;
    let mut i: usize = start;
    assert(d.take(0) =~= Seq::<char>::empty());
    while i < chars.len()
        invariant
            start <= i <= chars@.len(),
            chars@ == s@,
            d == unsigned_digits(s@),
            d == chars@.skip(start as int),
            cap == max + 1,
            forall|k: int| 0 <= k < i - start ==> is_digit(#[trigger] d[k]),
            digits_value(d.take(i - start)) >= 0,
            acc == (if digits_value(d.take(i - start)) < cap {
                digits_value(d.take(i - start))
            } else {
                cap as int
            }),
        decreases chars.len() - i,
    {
        let c = chars[i];
        if !('0' <= c && c <= '9') {
            assert(d[i - start] == chars@[i as int]);
            assert(!is_digit(unsigned_digits(s@)[i - start]));
            return None;
        }
        let dv: u128 = ((c as u32) - ('0' as u32)) as u128;
        let ghost j = i - start;
        proof {
            assert(d[j] == c);
            assert(d.take(j + 1).drop_last() =~= d.take(j));
            assert(d.take(j + 1).last() == c);
            assert(dv == digit_value(c));
        }
        if acc < cap {
            let n = acc * 10 + dv;
            acc = if n > cap {
                cap
            } else {
                n
            };
        }
        i = i + 1;
    }
    assert(d.take(d.len() as int) =~= d);
    if acc > max as u128 {
        None
    } else {
        Some(acc as u64)
    }
}

/// Lowercase form of a text, as `str::to_lowercase` computes it.
pub uninterp spec fn lowercase_text(s: Seq<char>) -> Seq<char>;

/// The character is ASCII.
pub open spec fn is_ascii_char(c: char) -> bool {
    (c as u32) < 128
}

/// Every character of the text is ASCII.
pub open spec fn is_ascii_text(s: Seq<char>) -> bool {
    forall|i: int| 0 <= i < s.len() ==> is_ascii_char(#[trigger] s[i])
}

/// ASCII lowercase of one character: `A`..`Z` become `a`..`z`, every
/// other character stays.
pub open spec fn ascii_lower_char(c: char) -> char {
    if 'A' <= c && c <= 'Z' {
        ((c as u32) + 32) as char
    } else {
        c
    }
}

/// ASCII lowercase of a text, character by character.
pub open spec fn ascii_lowercase(s: Seq<char>) -> Seq<char> {
    s.map_values(|c: char| ascii_lower_char(c))
}

/// `str::to_lowercase`. Claimed: the result is `lowercase_text` of `s`;
/// on ASCII text it is the ASCII lowercase (Unicode's lowercase mapping
/// sends `A`..`Z` to `a`..`z` and leaves every other ASCII character as
/// it is).
#[verifier::external_body]
pub(crate) fn to_lowercase(s: &str) -> (r: String)
    ensures
        r@ == lowercase_text(s@),
        is_ascii_text(s@) ==> r@ == ascii_lowercase(s@),
{
    s.to_lowercase()
}

/// `String::push`. Claimed: the string gains `c` at its end.
#[verifier::external_body]
fn string_push(s: &mut String, c: char)
    ensures
        final(s)@ == old(s)@.push(c),
{
    s.push(c);
}

/// Builds a `String` holding exactly the given characters.
pub fn string_from_chars(v: &Vec<char>) -> (r: String)
    ensures
        r@ == v@,
{
    let mut r = String::new();
    let mut i: usize = 0;
    while i < v.len()
        invariant
            i <= v@.len(),
            r@ == v@.take(i as int),
        decreases v.len() - i,
    {
        string_push(&mut r, v[i]);
        i = i + 1;
        assert(r@ =~= v@.take(i as int));
    }
    assert(v@.take(v@.len() as int) =~= v@);
    r
}

/// Collects the characters of `s` into a vector.
pub fn chars_of(s: &str) -> (out: Vec<char>)
    ensures
        out@ == s@,
{
    let mut out: Vec<char> = Vec::new();
    for c in it: s.chars()
        invariant
            out@ == it.seq().take(it.index() as int),
            it.seq() == s@,
    {
        out.push(c);
    }
    out
}

/// Appends all characters of `src` to `dst`.
pub fn push_all(dst: &mut Vec<char>, src: &Vec<char>)
    ensures
        final(dst)@ == old(dst)@ + src@,
{
    let mut i: usize = 0;
    while i < src.len()
        invariant
            i <= src.len(),
            dst@ == old(dst)@ + src@.take(i as int),
        decreases src.len() - i,
    {
        dst.push(src[i]);
        i = i + 1;
        assert(src@.take(i as int) == src@.take(i - 1).push(src@[i - 1]));
    }
    assert(src@.take(src.len() as int) == src@);
}

/// Appends the characters of `s` to `dst`.
pub fn push_str(dst: &mut Vec<char>, s: &str)
    ensures
        final(dst)@ == old(dst)@ + s@,
{
    let v = chars_of(s);
    push_all(dst, &v);
}

/// Concatenation of two texts.
pub fn concat(a: &str, b: &str) -> (r: String)
    ensures
        r@ == a@ + b@,
{
    let mut v = chars_of(a);
    push_str(&mut v, b);
    string_from_chars(&v)
}

/// Concatenation of three texts.
pub fn concat3(a: &str, b: &str, c: &str) -> (r: String)
    ensures
        r@ == a@ + b@ + c@,
{
    let mut v = chars_of(a);
    push_str(&mut v, b);
    push_str(&mut v, c);
    string_from_chars(&v)
}

/// Character-wise equality of two texts.
pub fn chars_eq(a: &Vec<char>, b: &Vec<char>) -> (r: bool)
    ensures
        r == (a@ == b@),
{
    if a.len() != b.len() {
        return false;
    }
    let mut i: usize = 0;
    while i < a.len()
        invariant
            i <= a.len(),
            a.len() == b.len(),
            forall|k: int| 0 <= k < i ==> a@[k] == b@[k],
        decreases a.len() - i,
    {
        if a[i] != b[i] {
            return false;
        }
        i = i + 1;
    }
    assert(a@ =~= b@);
    true
}

/// Equality of two strings by content.
pub fn str_eq(a: &str, b: &str) -> (r: bool)
    ensures
        r == (a@ == b@),
{
    let va = chars_of(a);
    let vb = chars_of(b);
    chars_eq(&va, &vb)
}

/// Whether `pat` occurs in `s` at position `i`.
pub fn matches_at(s: &Vec<char>, pat: &Vec<char>, i: usize) -> (r: bool)
    ensures
        r == occurs_at(s@, pat@, i as int),
{
    if i > s.len() || pat.len() > s.len() - i {
        return false;
    }
    let mut k: usize = 0;
    while k < pat.len()
        invariant
            k <= pat.len(),
            i + pat.len() <= s.len(),
            forall|j: int| 0 <= j < k ==> s@[i + j] == pat@[j],
        decreases pat.len() - k,
    {
        if s[i + k] != pat[k] {
            assert(s@.subrange(i as int, i + pat.len())[k as int] != pat@[k as int]);
            return false;
        }
        k = k + 1;
    }
    assert(s@.subrange(i as int, i + pat.len()) =~= pat@);
    true
}

/// Whether `pat` occurs anywhere in `s`.
pub fn contains_chars(s: &Vec<char>, pat: &Vec<char>) -> (r: bool)
    ensures
        r == seq_contains(s@, pat@),
{
    if pat.len() > s.len() {
        return false;
    }
    let last = s.len() - pat.len();
    let mut i: usize = 0;
    while i <= last
        invariant
            last == s.len() - pat.len(),
            i <= last + 1,
            forall|j: int| 0 <= j < i ==> !occurs_at(s@, pat@, j),
        decreases last + 1 - i,
    {
        if matches_at(s, pat, i) {
            return true;
        }
        if i == last {
            return false;
        }
        i = i + 1;
    }
    false
}

/// Whether `pat` occurs anywhere in `s` (`str::contains`).
pub fn contains_str(s: &str, pat: &str) -> (r: bool)
    ensures
        r == seq_contains(s@, pat@),
{
    let vs = chars_of(s);
    let vp = chars_of(pat);
    contains_chars(&vs, &vp)
}

/// Whether `s` begins with `pat`.
pub fn starts_with_chars(s: &Vec<char>, pat: &Vec<char>) -> (r: bool)
    ensures
        r == seq_starts_with(s@, pat@),
{
    matches_at(s, pat, 0)
}

/// Whether `s` ends with `pat`.
pub fn ends_with_chars(s: &Vec<char>, pat: &Vec<char>) -> (r: bool)
    ensures
        r == seq_ends_with(s@, pat@),
{
    if pat.len() > s.len() {
        return false;
    }
    matches_at(s, pat, s.len() - pat.len())
}

/// `s` without leading and trailing whitespace.
pub fn trim_chars(s: &Vec<char>) -> (r: Vec<char>)
    ensures
        r@ == trim_seq(s@),
{
    let mut i: usize = 0;
    assert(s@.skip(0) =~= s@);
    while i < s.len() && is_whitespace_char(s[i])
        invariant
            i <= s.len(),
            trim_start_seq(s@) == trim_start_seq(s@.skip(i as int)),
        decreases s.len() - i,
    {
        assert(s@.skip(i as int).drop_first() =~= s@.skip(i + 1));
        i = i + 1;
    }
    let ghost start = s@.skip(i as int);
    assert(trim_start_seq(start) == start);
    let mut j: usize = s.len();
    while j > i && is_whitespace_char(s[j - 1])
        invariant
            i <= j <= s.len(),
            trim_end_seq(start) == trim_end_seq(s@.subrange(i as int, j as int)),
        decreases j,
    {
        assert(s@.subrange(i as int, j as int).drop_last() =~= s@.subrange(i as int, j - 1));
        j = j - 1;
    }
    let mut out: Vec<char> = Vec::new();
    let mut k: usize = i;
    while k < j
        invariant
            i <= k <= j,
            j <= s.len(),
            out@ == s@.subrange(i as int, k as int),
        decreases j - k,
    {
        out.push(s[k]);
        k = k + 1;
        assert(out@ =~= s@.subrange(i as int, k as int));
    }
    assert(start =~= s@.subrange(i as int, s.len() as int));
    assert(trim_end_seq(out@) == out@);
    out
}

/// `s` without leading and trailing whitespace (`str::trim`).
pub fn trim_str(s: &str) -> (r: String)
    ensures
        r@ == trim_seq(s@),
{
    let v = chars_of(s);
    let t = trim_chars(&v);
    string_from_chars(&t)
}

/// Whether a text is empty once trimmed (`s.trim().is_empty()`).
pub fn is_blank(s: &str) -> (r: bool)
    ensures
        r == (trim_seq(s@).len() == 0),
{
    let v = chars_of(s);
    let t = trim_chars(&v);
    t.len() == 0
}

/// Splits `s` at every `sep`.
pub fn split_chars(s: &Vec<char>, sep: char) -> (r: Vec<Vec<char>>)
    ensures
        r@.len() == split_seq(s@, sep).len(),
        forall|k: int| 0 <= k < r@.len() ==> #[trigger] r@[k]@ == split_seq(s@, sep)[k],
{
    let mut done: Vec<Vec<char>> = Vec::new();
    let mut cur: Vec<char> = Vec::new();
    let mut i: usize = 0;
    while i < s.len()
        invariant
            i <= s.len(),
            done@.len() + 1 == split_seq(s@.take(i as int), sep).len(),
            forall|k: int|
                0 <= k < done@.len() ==> #[trigger] done@[k]@ == split_seq(
                    s@.take(i as int),
                    sep,
                )[k],
            cur@ == split_seq(s@.take(i as int), sep).last(),
        decreases s.len() - i,
    {
        let c = s[i];
        assert(s@.take(i + 1).drop_last() =~= s@.take(i as int));
        if c == sep {
            let piece = cur;
            done.push(piece);
            cur = Vec::new();
        } else {
            cur.push(c);
        }
        i = i + 1;
    }
    assert(s@.take(s.len() as int) =~= s@);
    done.push(cur);
    done
}

/// Joins `parts` with `sep` in between.
pub fn join_chars(parts: &Vec<Vec<char>>, sep: &Vec<char>) -> (r: Vec<char>)
    ensures
        r@ == join_seq(parts@.map_values(|p: Vec<char>| p@), sep@),
{
    let ghost views = parts@.map_values(|p: Vec<char>| p@);
    let mut out: Vec<char> = Vec::new();
    let mut i: usize = 0;
    while i < parts.len()
        invariant
            i <= parts.len(),
            views == parts@.map_values(|p: Vec<char>| p@),
            out@ == join_seq(views.take(i as int), sep@),
        decreases parts.len() - i,
    {
        assert(views.take(i + 1).drop_last() =~= views.take(i as int));
        if i > 0 {
            push_all(&mut out, sep);
        }
        push_all(&mut out, &parts[i]);
        i = i + 1;
        if i == 1 {
            assert(views.take(1)[0] == parts@[0]@);
        }
    }
    assert(views.take(parts.len() as int) =~= views);
    out
}


/// Number of bytes of the UTF-8 encoding of one character.
pub open spec fn utf8_width(c: char) -> nat {
    if (c as u32) < 0x80 {
        1
    } else if (c as u32) < 0x800 {
        2
    } else if (c as u32) < 0x10000 {
        3
    } else {
        4
    }
}

/// Number of bytes of the UTF-8 encoding of a text (`str::len`).
pub open spec fn utf8_len(s: Seq<char>) -> nat
    decreases s.len(),
{
    if s.len() == 0 {
        0
    } else {
        utf8_width(s[0]) + utf8_len(s.drop_first())
    }
}

/// Longest prefix of `s` whose UTF-8 encoding fits in `n` bytes.
pub open spec fn byte_prefix(s: Seq<char>, n: nat) -> Seq<char>
    decreases s.len(),
{
    if s.len() == 0 || utf8_width(s[0]) > n {
        Seq::empty()
    } else {
        seq![s[0]] + byte_prefix(s.drop_first(), (n - utf8_width(s[0])) as nat)
    }
}

/// The longest prefix that fits in `n` bytes is a prefix of `s` and fits.
pub proof fn lemma_byte_prefix_fits(s: Seq<char>, n: nat)
    ensures
        utf8_len(byte_prefix(s, n)) <= n,
        byte_prefix(s, n).len() <= s.len(),
        byte_prefix(s, n) == s.take(byte_prefix(s, n).len() as int),
    decreases s.len(),
{
    if s.len() == 0 || utf8_width(s[0]) > n {
    } else {
        let rest = s.drop_first();
        let m = (n - utf8_width(s[0])) as nat;
        lemma_byte_prefix_fits(rest, m);
        let p = byte_prefix(s, n);
        let q = byte_prefix(rest, m);
        assert(p == seq![s[0]] + q);
        assert(p.drop_first() =~= q);
        assert(p[0] == s[0]);
        assert(p =~= s.take(p.len() as int));
    }
}

/// Byte offset `n` falls on a character boundary of `s`, or past its end
/// (`str::is_char_boundary` for offsets up to the length).
pub open spec fn char_boundary_at(s: Seq<char>, n: nat) -> bool
    decreases s.len(),
{
    if s.len() == 0 || utf8_width(s[0]) > n {
        n == 0 || s.len() == 0
    } else {
        char_boundary_at(s.drop_first(), (n - utf8_width(s[0])) as nat)
    }
}

/// UTF-8 width of one character (`char::len_utf8`).
pub fn char_utf8_width(c: char) -> (r: usize)
    ensures
        r == utf8_width(c),
        1 <= r <= 4,
{
    let code = c as u32;
    if code < 0x80 {
        1
    } else if code < 0x800 {
        2
    } else if code < 0x10000 {
        3
    } else {
        4
    }
}

/// Splits `s` at byte offset `n` when it is within the text: returns the
/// number of characters in the longest prefix of at most `n` bytes,
/// whether the whole text fits in `n` bytes, and whether `n` falls on a
/// character boundary.
pub fn byte_prefix_len(s: &Vec<char>, n: usize) -> (r: (usize, bool, bool))
    ensures
        r.0 <= s@.len(),
        s@.take(r.0 as int) == byte_prefix(s@, n as nat),
        r.1 == (utf8_len(s@) <= n),
        r.2 == char_boundary_at(s@, n as nat),
{
    let mut i: usize = 0;
    let mut used: usize = 0;
    assert(s@.skip(0) =~= s@);
    assert(s@.take(0) =~= Seq::<char>::empty());
    while i < s.len() && char_utf8_width(s[i]) <= n - used
        invariant
            i <= s.len(),
            used <= n,
            byte_prefix(s@, n as nat) == s@.take(i as int) + byte_prefix(
                s@.skip(i as int),
                (n - used) as nat,
            ),
            utf8_len(s@) == used + utf8_len(s@.skip(i as int)),
            char_boundary_at(s@, n as nat) == char_boundary_at(
                s@.skip(i as int),
                (n - used) as nat,
            ),
        decreases s.len() - i,
    {
        let w = char_utf8_width(s[i]);
        assert(s@.skip(i as int).drop_first() =~= s@.skip(i + 1));
        assert(s@.skip(i as int)[0] == s@[i as int]);
        assert(s@.take(i + 1) =~= s@.take(i as int) + seq![s@[i as int]]);
        used = used + w;
        i = i + 1;
    }
    if i < s.len() {
        assert(s@.skip(i as int)[0] == s@[i as int]);
        assert(s@.skip(i as int).drop_first() =~= s@.skip(i + 1));
    } else {
        assert(s@.skip(i as int) =~= Seq::<char>::empty());
    }
    assert(s@.take(i as int) + Seq::<char>::empty() =~= s@.take(i as int));
    (i, i == s.len(), i == s.len() || used == n)
}

/// Decimal digit character of `d` (0..=9).
pub open spec fn digit_char(d: nat) -> char {
    if d == 0 { '0' } else if d == 1 { '1' } else if d == 2 { '2' } else if d == 3 { '3' }
    else if d == 4 { '4' } else if d == 5 { '5' } else if d == 6 { '6' } else if d == 7 { '7' }
    else if d == 8 { '8' } else { '9' }
}

/// Decimal notation of a natural number (`usize`'s `Display`).
pub open spec fn decimal(n: nat) -> Seq<char>
    decreases n,
{
    if n < 10 {
        seq![digit_char(n)]
    } else {
        decimal(n / 10).push(digit_char(n % 10))
    }
}

fn digit(d: usize) -> (r: char)
    requires
        d < 10,
    ensures
        r == digit_char(d as nat),
{
    if d == 0 { '0' } else if d == 1 { '1' } else if d == 2 { '2' } else if d == 3 { '3' }
    else if d == 4 { '4' } else if d == 5 { '5' } else if d == 6 { '6' } else if d == 7 { '7' }
    else if d == 8 { '8' } else { '9' }
}

/// Appends the decimal notation of `n`.
pub fn push_decimal(dst: &mut Vec<char>, n: usize)
    ensures
        final(dst)@ == old(dst)@ + decimal(n as nat),
    decreases n,
{
    if n < 10 {
        dst.push(digit(n));
        assert(decimal(n as nat) =~= seq![digit_char(n as nat)]);
    } else {
        push_decimal(dst, n / 10);
        dst.push(digit(n % 10));
    }
}

/// Decimal notation of `n`.
pub fn decimal_text(n: usize) -> (r: String)
    ensures
        r@ == decimal(n as nat),
{
    let mut v: Vec<char> = Vec::new();
    push_decimal(&mut v, n);
    assert(v@ =~= decimal(n as nat));
    string_from_chars(&v)
}

/// `a` sorts before `b` or equals it, as `String`'s ordering has it: char
/// by char, by code point, a proper prefix first.
pub open spec fn chars_le(a: Seq<char>, b: Seq<char>) -> bool
    decreases a.len(),
{
    if a.len() == 0 {
        true
    } else if b.len() == 0 {
        false
    } else if a[0] != b[0] {
        (a[0] as int) < (b[0] as int)
    } else {
        chars_le(a.drop_first(), b.drop_first())
    }
}

/// The order is total.
pub proof fn lemma_chars_le_total(a: Seq<char>, b: Seq<char>)
    ensures
        chars_le(a, b) || chars_le(b, a),
    decreases a.len(),
{
    if a.len() > 0 && b.len() > 0 && a[0] == b[0] {
        lemma_chars_le_total(a.drop_first(), b.drop_first());
    }
}

/// The order is transitive.
pub proof fn lemma_chars_le_trans(a: Seq<char>, b: Seq<char>, c: Seq<char>)
    requires
        chars_le(a, b),
        chars_le(b, c),
    ensures
        chars_le(a, c),
    decreases a.len(),
{
    if a.len() > 0 && b.len() > 0 && c.len() > 0 && a[0] == b[0] && b[0] == c[0] {
        lemma_chars_le_trans(a.drop_first(), b.drop_first(), c.drop_first());
    }
}

/// Whether `a` sorts before `b` or equals it.
pub fn str_le(a: &str, b: &str) -> (r: bool)
    ensures
        r == chars_le(a@, b@),
{
    let x = chars_of(a);
    let y = chars_of(b);
    let mut i: usize = 0;
    assert(x@.skip(0) =~= x@);
    assert(y@.skip(0) =~= y@);
    while i < x.len() && i < y.len() && x[i] == y[i]
        invariant
            i <= x@.len(),
            i <= y@.len(),
            x@ == a@,
            y@ == b@,
            chars_le(x@.skip(i as int), y@.skip(i as int)) == chars_le(a@, b@),
        decreases x.len() - i,
    {
        proof {
            let xs = x@.skip(i as int);
            let ys = y@.skip(i as int);
            assert(xs.drop_first() =~= x@.skip(i + 1));
            assert(ys.drop_first() =~= y@.skip(i + 1));
        }
        i = i + 1;
    }
    if i == x.len() {
        true
    } else if i == y.len() {
        false
    } else {
        x[i] < y[i]
    }
}

/// The strings sorted ascending (`slice::sort` on `String`s): the same
/// strings, each as often, in order.
pub fn sort_strings(v: Vec<String>) -> (r: Vec<String>)
    ensures
        r@.map_values(|s: String| s@).to_multiset() == v@.map_values(|s: String| s@).to_multiset(),
        forall|i: int, j: int| 0 <= i < j < r@.len() ==> chars_le(#[trigger] r@[i]@, #[trigger] r@[j]@),
{
    let mut out: Vec<String> = Vec::new();
    let mut k: usize = 0;
    assert(out@.map_values(|s: String| s@) =~= v@.take(0).map_values(|s: String| s@));
    while k < v.len()
        invariant
            k <= v@.len(),
            out@.map_values(|s: String| s@).to_multiset() == v@.take(k as int).map_values(
                |s: String| s@,
            ).to_multiset(),
            forall|i: int, j: int| 0 <= i < j < out@.len() ==> chars_le(#[trigger] out@[i]@, #[trigger] out@[j]@),
        decreases v.len() - k,
    {
        let x = v[k].clone();
        let mut p: usize = 0;
        while p < out.len() && str_le(out[p].as_str(), x.as_str())
            invariant
                p <= out@.len(),
                forall|i: int| 0 <= i < p ==> chars_le(#[trigger] out@[i]@, x@),
            decreases out.len() - p,
        {
            p = p + 1;
        }
        proof {
            if p < out@.len() {
                assert(!chars_le(out@[p as int]@, x@));
                lemma_chars_le_total(out@[p as int]@, x@);
                assert forall|j: int| p <= j < out@.len() implies chars_le(x@, #[trigger] out@[j]@) by {
                    if j > p {
                        lemma_chars_le_trans(x@, out@[p as int]@, out@[j]@);
                    }
                }
            }
        }
        let ghost before = out@;
        out.insert(p, x);
        proof {
            assert(out@.map_values(|s: String| s@) =~= before.map_values(|s: String| s@).insert(
                p as int,
                x@,
            ));
            vstd::seq_lib::to_multiset_insert(before.map_values(|s: String| s@), p as int, x@);
            assert(v@.take(k + 1).map_values(|s: String| s@) =~= v@.take(k as int).map_values(
                |s: String| s@,
            ).push(x@));
            vstd::seq_lib::to_multiset_build(v@.take(k as int).map_values(|s: String| s@), x@);
            assert forall|i: int, j: int| 0 <= i < j < out@.len() implies chars_le(
                #[trigger] out@[i]@,
                #[trigger] out@[j]@,
            ) by {
                if j < p {
                    assert(out@[i] == before[i] && out@[j] == before[j]);
                } else if j == p {
                    assert(out@[i] == before[i]);
                } else if i == p {
                    assert(out@[j] == before[j - 1]);
                } else if i < p {
                    assert(out@[i] == before[i] && out@[j] == before[j - 1]);
                    lemma_chars_le_trans(before[i]@, x@, before[j - 1]@);
                } else {
                    assert(out@[i] == before[i - 1] && out@[j] == before[j - 1]);
                }
            }
        }
        k = k + 1;
    }
    assert(v@.take(v@.len() as int) =~= v@);
    out
}

/// `s` without the trailing copies of `c` (`str::trim_end_matches(c)`).
pub open spec fn trim_end_char(s: Seq<char>, c: char) -> Seq<char>
    decreases s.len(),
{
    if s.len() > 0 && s.last() == c {
        trim_end_char(s.drop_last(), c)
    } else {
        s
    }
}

/// `s` without the trailing copies of `c`.
pub fn trim_end_matches_char(s: &str, c: char) -> (r: String)
    ensures
        r@ == trim_end_char(s@, c),
{
    let mut v = chars_of(s);
    while v.len() > 0 && v[v.len() - 1] == c
        invariant
            trim_end_char(v@, c) == trim_end_char(s@, c),
        decreases v.len(),
    {
        assert(v@.drop_last() =~= v@.take(v@.len() - 1));
        v.pop();
    }
    string_from_chars(&v)
}

/// The first `n` characters of `s` (all of them when it is shorter).
pub open spec fn take_chars(s: Seq<char>, n: nat) -> Seq<char> {
    if s.len() <= n {
        s
    } else {
        s.take(n as int)
    }
}

/// The first `n` characters of `s` (`s.chars().take(n)`).
pub fn prefix_chars(s: &str, n: usize) -> (r: String)
    ensures
        r@ == take_chars(s@, n as nat),
{
    let v = chars_of(s);
    if v.len() <= n {
        return string_from_chars(&v);
    }
    let mut out: Vec<char> = Vec::new();
    let mut i: usize = 0;
    while i < n
        invariant
            i <= n,
            n < v@.len(),
            out@ == v@.take(i as int),
        decreases n - i,
    {
        out.push(v[i]);
        i = i + 1;
        assert(v@.take(i as int) =~= v@.take(i - 1).push(v@[i - 1]));
    }
    string_from_chars(&out)
}

/// Position of the first `c` in `s`.
pub open spec fn index_of(s: Seq<char>, c: char) -> Option<int>
    decreases s.len(),
{
    if s.len() == 0 {
        None
    } else if s[0] == c {
        Some(0)
    } else {
        match index_of(s.drop_first(), c) {
            Some(i) => Some(i + 1),
            None => None,
        }
    }
}

/// The first `c` of `s` is at `n` when `s[n]` is `c` and no character
/// before it is.
pub proof fn lemma_index_of_at(s: Seq<char>, c: char, n: int)
    requires
        0 <= n < s.len(),
        s[n] == c,
        forall|j: int| 0 <= j < n ==> s[j] != c,
    ensures
        index_of(s, c) == Some(n),
    decreases n,
{
    if n > 0 {
        let t = s.drop_first();
        assert forall|j: int| 0 <= j < n - 1 implies t[j] != c by {
            assert(t[j] == s[j + 1]);
        }
        assert(t[n - 1] == s[n]);
        lemma_index_of_at(t, c, n - 1);
    }
}

/// Where the first `c` of `s` is, once its first `i` characters are known
/// to differ from it.
pub proof fn lemma_index_of_after(s: Seq<char>, c: char, i: int)
    requires
        0 <= i <= s.len(),
        forall|j: int| 0 <= j < i ==> s[j] != c,
    ensures
        index_of(s, c) == match index_of(s.skip(i), c) {
            Some(k) => Some(k + i),
            None => None::<int>,
        },
    decreases i,
{
    if i == 0 {
        assert(s.skip(0) =~= s);
        match index_of(s, c) {
            Some(k) => {},
            None => {},
        }
    } else {
        lemma_index_of_after(s.drop_first(), c, i - 1);
        assert(s.drop_first().skip(i - 1) =~= s.skip(i));
    }
}

/// The first `c` found is at a position holding `c`, inside `s`.
pub proof fn lemma_index_of_bounds(s: Seq<char>, c: char)
    ensures
        index_of(s, c) matches Some(i) ==> 0 <= i < s.len() && s[i] == c,
    decreases s.len(),
{
    if s.len() > 0 && s[0] != c {
        lemma_index_of_bounds(s.drop_first(), c);
    }
}

/// Position of the first `c` in `s`.
pub fn find_char(s: &Vec<char>, c: char) -> (r: Option<usize>)
    ensures
        match r {
            Some(p) => index_of(s@, c) == Some(p as int) && p < s@.len(),
            None => index_of(s@, c) is None,
        },
{
    let mut i: usize = 0;
    while i < s.len()
        invariant
            i <= s@.len(),
            forall|j: int| 0 <= j < i ==> s@[j] != c,
        decreases s.len() - i,
    {
        if s[i] == c {
            proof {
                lemma_index_of_after(s@, c, i as int);
            }
            return Some(i);
        }
        i = i + 1;
    }
    proof {
        lemma_index_of_after(s@, c, i as int);
    }
    None
}

/// The characters of `s` from position `from` on.
pub fn chars_from(s: &Vec<char>, from: usize) -> (r: Vec<char>)
    requires
        from <= s@.len(),
    ensures
        r@ == s@.skip(from as int),
{
    let mut out: Vec<char> = Vec::new();
    let mut i: usize = from;
    while i < s.len()
        invariant
            from <= i <= s@.len(),
            out@ == s@.subrange(from as int, i as int),
        decreases s.len() - i,
    {
        out.push(s[i]);
        i = i + 1;
        assert(out@ =~= s@.subrange(from as int, i as int));
    }
    assert(out@ =~= s@.skip(from as int));
    out
}

/// The first `n` characters of `s` (`n` at most its length).
pub fn chars_upto(s: &Vec<char>, n: usize) -> (r: Vec<char>)
    requires
        n <= s@.len(),
    ensures
        r@ == s@.take(n as int),
{
    let mut out: Vec<char> = Vec::new();
    let mut i: usize = 0;
    while i < n
        invariant
            i <= n,
            n <= s@.len(),
            out@ == s@.take(i as int),
        decreases n - i,
    {
        out.push(s[i]);
        i = i + 1;
        assert(out@ =~= s@.take(i as int));
    }
    out
}

/// The lines of `s` (`str::lines`).
pub fn text_lines(s: &Vec<char>) -> (r: Vec<Vec<char>>)
    ensures
        r@.map_values(|l: Vec<char>| l@) == lines_seq(s@),
{
    let pieces = split_chars(s, '\n');
    let ghost ps = split_seq(s@, '\n');
    proof {
        lemma_split_nonempty(s@, '\n');
    }
    let n = pieces.len();
    let mut out: Vec<Vec<char>> = Vec::new();
    let mut i: usize = 0;
    while i + 1 < n
        invariant
            n == pieces@.len(),
            n == ps.len(),
            n >= 1,
            ps == split_seq(s@, '\n'),
            forall|k: int| 0 <= k < n ==> #[trigger] pieces@[k]@ == ps[k],
            i + 1 <= n,
            out@.map_values(|l: Vec<char>| l@) == ps.take(i as int).map_values(|p: Seq<char>| strip_cr(p)),
        decreases n - i,
    {
        let p = &pieces[i];
        let line = if p.len() > 0 && p[p.len() - 1] == '\r' {
            chars_upto(p, p.len() - 1)
        } else {
            p.clone()
        };
        assert(line@ == strip_cr(ps[i as int])) by {
            if p@.len() > 0 && p@.last() == '\r' {
                assert(p@.take(p@.len() - 1) =~= p@.drop_last());
            }
        }
        let ghost before = out@;
        out.push(line);
        assert(out@.map_values(|l: Vec<char>| l@) =~= before.map_values(|l: Vec<char>| l@).push(line@));
        assert(ps.take(i + 1).map_values(|p: Seq<char>| strip_cr(p)) =~= ps.take(i as int).map_values(
            |p: Seq<char>| strip_cr(p),
        ).push(strip_cr(ps[i as int])));
        i = i + 1;
    }
    assert(ps.take(n - 1) =~= ps.drop_last());
    let last = &pieces[n - 1];
    assert(last@ == ps.last());
    if last.len() > 0 {
        let ghost before = out@;
        out.push(last.clone());
        assert(out@.map_values(|l: Vec<char>| l@) =~= before.map_values(|l: Vec<char>| l@).push(
            ps.last(),
        ));
    }
    out
}

/// Splitting gives at least one piece.
pub proof fn lemma_split_nonempty(s: Seq<char>, sep: char)
    ensures
        split_seq(s, sep).len() >= 1,
    decreases s.len(),
{
    if s.len() > 0 {
        lemma_split_nonempty(s.drop_last(), sep);
    }
}

/// `s` without the leading copies of `c`.
pub open spec fn trim_start_char(s: Seq<char>, c: char) -> Seq<char>
    decreases s.len(),
{
    if s.len() > 0 && s[0] == c {
        trim_start_char(s.drop_first(), c)
    } else {
        s
    }
}

/// `s` without leading and trailing copies of `c` (`str::trim_matches(c)`).
pub open spec fn trim_char(s: Seq<char>, c: char) -> Seq<char> {
    trim_end_char(trim_start_char(s, c), c)
}

/// `s` without every leading copy of `p` (`str::trim_start_matches(p)`).
pub open spec fn strip_prefix_all(s: Seq<char>, p: Seq<char>) -> Seq<char>
    decreases s.len(),
{
    if p.len() > 0 && seq_starts_with(s, p) {
        strip_prefix_all(s.skip(p.len() as int), p)
    } else {
        s
    }
}

/// `s` without leading and trailing copies of `c`.
pub fn trim_matches_char(s: &Vec<char>, c: char) -> (r: Vec<char>)
    ensures
        r@ == trim_char(s@, c),
{
    let mut start: usize = 0;
    assert(s@.skip(0) =~= s@);
    while start < s.len() && s[start] == c
        invariant
            start <= s@.len(),
            trim_start_char(s@.skip(start as int), c) == trim_start_char(s@, c),
        decreases s.len() - start,
    {
        assert(s@.skip(start as int).drop_first() =~= s@.skip(start + 1));
        start = start + 1;
    }
    let mut v = chars_from(s, start);
    assert(trim_start_char(v@, c) == v@);
    while v.len() > 0 && v[v.len() - 1] == c
        invariant
            trim_end_char(v@, c) == trim_end_char(trim_start_char(s@, c), c),
        decreases v.len(),
    {
        assert(v@.drop_last() =~= v@.take(v@.len() - 1));
        v.pop();
    }
    v
}

/// `s` without every leading copy of `p`.
pub fn strip_prefix_repeated(s: &Vec<char>, p: &Vec<char>) -> (r: Vec<char>)
    ensures
        r@ == strip_prefix_all(s@, p@),
{
    let mut v = s.clone();
    assert(v@ == s@);
    if p.len() == 0 {
        return v;
    }
    while starts_with_chars(&v, p)
        invariant
            p@.len() > 0,
            strip_prefix_all(v@, p@) == strip_prefix_all(s@, p@),
        decreases v@.len(),
    {
        v = chars_from(&v, p.len());
    }
    v
}

/// The strings in `s` ascend, with no string twice.
pub open spec fn strictly_sorted(s: Seq<Seq<char>>) -> bool {
    forall|i: int, j: int| 0 <= i < j < s.len() ==> chars_le(#[trigger] s[i], #[trigger] s[j]) && s[i] != s[j]
}

/// The strings in `s` ascend.
pub open spec fn sorted_strings(s: Seq<Seq<char>>) -> bool {
    forall|i: int, j: int| 0 <= i < j < s.len() ==> chars_le(#[trigger] s[i], #[trigger] s[j])
}

/// `chars_le` both ways means equal.
pub proof fn lemma_chars_le_antisym(a: Seq<char>, b: Seq<char>)
    requires
        chars_le(a, b),
        chars_le(b, a),
    ensures
        a == b,
    decreases a.len(),
{
    if a.len() > 0 && b.len() > 0 {
        if a[0] == b[0] {
            lemma_chars_le_antisym(a.drop_first(), b.drop_first());
            assert(a =~= seq![a[0]] + a.drop_first());
            assert(b =~= seq![b[0]] + b.drop_first());
        }
    } else {
        assert(a =~= b);
    }
}

/// Whether two strings hold the same text.
pub fn string_eq(a: &String, b: &String) -> (r: bool)
    ensures
        r == (a@ == b@),
{
    str_eq(a.as_str(), b.as_str())
}

/// Consecutive repeats removed (`Vec::dedup`): the same set of strings;
/// a sorted input comes out strictly ascending.
pub fn dedup_strings(v: Vec<String>) -> (r: Vec<String>)
    ensures
        r@.map_values(|s: String| s@).to_set() == v@.map_values(|s: String| s@).to_set(),
        sorted_strings(v@.map_values(|s: String| s@)) ==> strictly_sorted(r@.map_values(|s: String| s@)),
{
    let ghost vs = v@.map_values(|s: String| s@);
    let mut out: Vec<String> = Vec::new();
    let mut i: usize = 0;
    assert(out@.map_values(|s: String| s@).to_set() =~= vs.take(0).to_set());
    while i < v.len()
        invariant
            i <= v@.len(),
            vs == v@.map_values(|s: String| s@),
            out@.map_values(|s: String| s@).to_set() == vs.take(i as int).to_set(),
            i > 0 ==> out@.len() > 0 && out@.last()@ == vs[i - 1],
            i == 0 ==> out@.len() == 0,
            sorted_strings(vs) ==> strictly_sorted(out@.map_values(|s: String| s@)),
            sorted_strings(vs) ==> forall|k: int| 0 <= k < out@.len() ==> chars_le(#[trigger] out@[k]@, if i > 0 { vs[i - 1] } else { seq![] }),
        decreases v.len() - i,
    {
        let ghost os = out@.map_values(|s: String| s@);
        assert(vs.take(i + 1) =~= vs.take(i as int).push(vs[i as int]));
        if i > 0 && string_eq(&out[out.len() - 1], &v[i]) {
            assert(vs.take(i as int).to_set().contains(vs[i as int])) by {
                assert(vs.take(i as int)[i - 1] == vs[i as int]);
            }
            assert(vs.take(i + 1).to_set() =~= vs.take(i as int).to_set());
        } else {
            let x = v[i].clone();
            out.push(x);
            assert(out@.map_values(|s: String| s@) =~= os.push(x@));
            proof {
                os.lemma_push_to_set_commute(x@);
                vs.take(i as int).lemma_push_to_set_commute(vs[i as int]);
            }
            assert(out@.map_values(|s: String| s@).to_set() =~= vs.take(i + 1).to_set());
            proof {
                if sorted_strings(vs) {
                    let ns = out@.map_values(|s: String| s@);
                    assert forall|a: int, b: int| 0 <= a < b < ns.len() implies chars_le(#[trigger] ns[a], #[trigger] ns[b])
                        && ns[a] != ns[b] by {
                        if b == ns.len() - 1 {
                            if i > 0 {
                                assert(chars_le(vs[i - 1], vs[i as int]));
                                assert(chars_le(out@[a]@, vs[i - 1]));
                                lemma_chars_le_trans(ns[a], vs[i - 1], vs[i as int]);
                                if ns[a] == ns[b] {
                                    lemma_chars_le_antisym(vs[i - 1], vs[i as int]);
                                }
                            }
                        } else {
                            assert(ns[a] == os[a] && ns[b] == os[b]);
                        }
                    }
                    assert forall|k: int| 0 <= k < out@.len() implies chars_le(#[trigger] out@[k]@, vs[i as int]) by {
                        if k < out@.len() - 1 {
                            if i > 0 {
                                assert(chars_le(vs[i - 1], vs[i as int]));
                                lemma_chars_le_trans(out@[k]@, vs[i - 1], vs[i as int]);
                            }
                        } else {
                            lemma_chars_le_total(vs[i as int], vs[i as int]);
                        }
                    }
                }
            }
        }
        i = i + 1;
    }
    assert(vs.take(vs.len() as int) =~= vs);
    out
}

/// `s` cut to its first `n` bytes, when they end on a character boundary
/// (the text itself when it is no longer than `n` bytes).
pub open spec fn bytes_cut(s: Seq<char>, n: nat) -> Option<Seq<char>> {
    if utf8_len(s) <= n {
        Some(s)
    } else if char_boundary_at(s, n) {
        Some(byte_prefix(s, n))
    } else {
        None
    }
}

/// `s` cut to its first `n` bytes (`&s[..n]` / `String::truncate`);
/// `None` where the cut would split a character.
pub fn cut_to_bytes(s: &str, n: usize) -> (r: Option<String>)
    ensures
        match r {
            Some(t) => bytes_cut(s@, n as nat) == Some(t@),
            None => bytes_cut(s@, n as nat) is None,
        },
{
    let chars = chars_of(s);
    let (k, fits, boundary) = byte_prefix_len(&chars, n);
    if fits {
        return Some(s.to_string());
    }
    if !boundary {
        return None;
    }
    let prefix = chars_upto(&chars, k);
    Some(string_from_chars(&prefix))
}

/// Appends the decimal notation of a 64-bit number.
pub fn push_decimal_u64(dst: &mut Vec<char>, n: u64)
    ensures
        final(dst)@ == old(dst)@ + decimal(n as nat),
    decreases n,
{
    if n < 10 {
        dst.push(digit(n as usize));
        assert(decimal(n as nat) =~= seq![digit_char(n as nat)]);
    } else {
        push_decimal_u64(dst, n / 10);
        dst.push(digit((n % 10) as usize));
    }
}

/// Decimal notation of a 64-bit number.
pub fn decimal_text_u64(n: u64) -> (r: String)
    ensures
        r@ == decimal(n as nat),
{
    let mut v: Vec<char> = Vec::new();
    push_decimal_u64(&mut v, n);
    assert(v@ =~= decimal(n as nat));
    string_from_chars(&v)
}

} // verus!
