//! Character-level text helpers shared by the rule engine, the knowledge base
//! and the analysis of Rust sources.
use vstd::prelude::*;
use vstd::std_specs::iter::IteratorSpec;

verus! {

/// `needle` occurs in `hay` starting at character position `i`.
pub open spec fn occurs_at(hay: Seq<char>, needle: Seq<char>, i: int) -> bool {
    0 <= i && i + needle.len() <= hay.len() && hay.subrange(i, i + needle.len()) == needle
}

/// Plain substring containment (the empty needle occurs everywhere).
pub open spec fn seq_contains(hay: Seq<char>, needle: Seq<char>) -> bool {
    exists|i: int| occurs_at(hay, needle, i)
}

pub open spec fn seq_starts_with(s: Seq<char>, prefix: Seq<char>) -> bool {
    prefix.len() <= s.len() && s.subrange(0, prefix.len() as int) == prefix
}

pub open spec fn seq_ends_with(s: Seq<char>, suffix: Seq<char>) -> bool {
    suffix.len() <= s.len() && s.subrange(s.len() - suffix.len(), s.len() as int) == suffix
}

/// What `str::to_lowercase` makes of a string: full Unicode lowercase mapping,
/// which depends on the characters alone.
pub uninterp spec fn lower_of(s: Seq<char>) -> Seq<char>;

/// The ASCII lowercase of one character: 'A'..='Z' become 'a'..='z', every
/// other character stays.
pub open spec fn ascii_lower_char(c: char) -> char {
    if c == 'A' {
        'a'
    } else if c == 'B' {
        'b'
    } else if c == 'C' {
        'c'
    } else if c == 'D' {
        'd'
    } else if c == 'E' {
        'e'
    } else if c == 'F' {
        'f'
    } else if c == 'G' {
        'g'
    } else if c == 'H' {
        'h'
    } else if c == 'I' {
        'i'
    } else if c == 'J' {
        'j'
    } else if c == 'K' {
        'k'
    } else if c == 'L' {
        'l'
    } else if c == 'M' {
        'm'
    } else if c == 'N' {
        'n'
    } else if c == 'O' {
        'o'
    } else if c == 'P' {
        'p'
    } else if c == 'Q' {
        'q'
    } else if c == 'R' {
        'r'
    } else if c == 'S' {
        's'
    } else if c == 'T' {
        't'
    } else if c == 'U' {
        'u'
    } else if c == 'V' {
        'v'
    } else if c == 'W' {
        'w'
    } else if c == 'X' {
        'x'
    } else if c == 'Y' {
        'y'
    } else if c == 'Z' {
        'z'
    } else {
        c
    }
}

/// Every character is ASCII.
pub open spec fn is_ascii_text(s: Seq<char>) -> bool {
    forall|i: int| 0 <= i < s.len() ==> ((#[trigger] s[i]) as u32) < 128
}

/// Relies on `str::to_lowercase`: the Unicode lowercase form of `s`, which
/// on ASCII text maps 'A'..='Z' to 'a'..='z' and keeps every other character.
#[verifier::external_body]
pub(crate) fn lowercase(s: &str) -> (r: String)
    ensures
        r@ == lower_of(s@),
        is_ascii_text(s@) ==> ascii_lowered(s@, r@),
{
    s.to_lowercase()
}

/// The characters of `s`, in order.
pub(crate) fn chars_of(s: &str) -> (r: Vec<char>)
    ensures
        r@ == s@,
{
    broadcast use vstd::string::axiom_spec_iter, vstd::string::next_postcondition;

    let mut it = s.chars();
    let mut r: Vec<char> = Vec::new();
    loop
        invariant
            r@ + it.remaining() == s@,
            it.obeys_prophetic_iter_laws(),
            it.decrease() is Some,
        ensures
            r@ == s@,
        decreases it.decrease()->0,
    {
        match it.next() {
            Some(c) => {
                r.push(c);
                assert(r@ + it.remaining() =~= s@);
            },
            None => {
                assert(r@ =~= s@);
                break ;
            },
        }
    }
    r
}

/// Relies on `FromIterator<char> for String`: a string of exactly these characters.
#[verifier::external_body]
pub(crate) fn string_of(v: &Vec<char>) -> (r: String)
    ensures
        r@ == v@,
{
    v.iter().collect()
}

fn matches_at(hay: &Vec<char>, needle: &Vec<char>, i: usize) -> (r: bool)
    requires
        i + needle@.len() <= hay@.len(),
    ensures
        r == (hay@.subrange(i as int, i + needle@.len()) == needle@),
{
    let n: usize = hay.len();
    let mut j: usize = 0;
    while j < needle.len()
        invariant
            n == hay@.len(),
            j <= needle@.len(),
            i + needle@.len() <= hay@.len(),
            forall|k: int| 0 <= k < j ==> hay@[i + k] == needle@[k],
        decreases needle@.len() - j,
    {
        if hay[i + j] != needle[j] {
            assert(hay@.subrange(i as int, i + needle@.len())[j as int] != needle@[j as int]);
            return false;
        }
        j = j + 1;
    }
    assert(hay@.subrange(i as int, i + needle@.len()) =~= needle@);
    true
}

/// Substring search over character vectors.
pub fn contains_chars(hay: &Vec<char>, needle: &Vec<char>) -> (r: bool)
    ensures
        r == seq_contains(hay@, needle@),
{
    if needle.len() > hay.len() {
        assert forall|k: int| !occurs_at(hay@, needle@, k) by {}
        return false;
    }
    let last: usize = hay.len() - needle.len();
    let mut i: usize = 0;
    while i < last
        invariant
            last == hay@.len() - needle@.len(),
            i <= last,
            forall|k: int| 0 <= k < i ==> !occurs_at(hay@, needle@, k),
        decreases last - i,
    {
        if matches_at(hay, needle, i) {
            assert(occurs_at(hay@, needle@, i as int));
            return true;
        }
        i = i + 1;
    }
    if matches_at(hay, needle, last) {
        assert(occurs_at(hay@, needle@, last as int));
        return true;
    }
    assert forall|k: int| !occurs_at(hay@, needle@, k) by {
        if 0 <= k < last {
        }
    }
    false
}

/// Case-sensitive substring test: `needle` occurs somewhere in `hay`.
pub fn contains(hay: &str, needle: &str) -> (r: bool)
    ensures
        r == seq_contains(hay@, needle@),
{
    let h = chars_of(hay);
    let n = chars_of(needle);
    contains_chars(&h, &n)
}

/// Character-for-character equality of two strings.
pub fn same_text(a: &str, b: &str) -> (r: bool)
    ensures
        r == (a@ == b@),
{
    let x = chars_of(a);
    let y = chars_of(b);
    if x.len() != y.len() {
        return false;
    }
    let mut i: usize = 0;
    while i < x.len()
        invariant
            x@ == a@,
            y@ == b@,
            x@.len() == y@.len(),
            i <= x@.len(),
            forall|k: int| 0 <= k < i ==> x@[k] == y@[k],
        decreases x@.len() - i,
    {
        if x[i] != y[i] {
            return false;
        }
        i = i + 1;
    }
    assert(x@ =~= y@);
    true
}

/// `s` ends with `suffix`.
pub fn ends_with(s: &str, suffix: &str) -> (r: bool)
    ensures
        r == seq_ends_with(s@, suffix@),
{
    let x = chars_of(s);
    let p = chars_of(suffix);
    if p.len() > x.len() {
        return false;
    }
    matches_at(&x, &p, x.len() - p.len())
}

/// The ASCII case fold of one character, as a code point.
pub open spec fn ascii_fold(c: char) -> u32 {
    let x = c as u32;
    if 65 <= x && x <= 90 {
        (x + 32) as u32
    } else {
        x
    }
}

/// Equality up to ASCII case, character by character.
pub open spec fn eq_ascii_case(a: Seq<char>, b: Seq<char>) -> bool {
    a.len() == b.len() && forall|i: int| 0 <= i < a.len() ==> ascii_fold(a[i]) == ascii_fold(b[i])
}

fn fold_char(c: char) -> (r: u32)
    ensures
        r == ascii_fold(c),
{
    let x = c as u32;
    if 65 <= x && x <= 90 {
        x + 32
    } else {
        x
    }
}

/// Equality ignoring ASCII case (other characters must match exactly).
pub fn eq_ignore_ascii_case(a: &str, b: &str) -> (r: bool)
    ensures
        r == eq_ascii_case(a@, b@),
{
    let x = chars_of(a);
    let y = chars_of(b);
    if x.len() != y.len() {
        return false;
    }
    let mut i: usize = 0;
    while i < x.len()
        invariant
            x@ == a@,
            y@ == b@,
            x@.len() == y@.len(),
            i <= x@.len(),
            forall|k: int| 0 <= k < i ==> ascii_fold(x@[k]) == ascii_fold(y@[k]),
        decreases x@.len() - i,
    {
        if fold_char(x[i]) != fold_char(y[i]) {
            return false;
        }
        i = i + 1;
    }
    true
}

/// Unicode `White_Space` characters, the set `char::is_whitespace` tests.
pub open spec fn is_space(c: char) -> bool {
    let x = c as u32;
    (9 <= x && x <= 13) || x == 32 || x == 0x85 || x == 0xA0 || x == 0x1680 || (0x2000 <= x
        && x <= 0x200A) || x == 0x2028 || x == 0x2029 || x == 0x202F || x == 0x205F || x == 0x3000
}

fn space_char(c: char) -> (r: bool)
    ensures
        r == is_space(c),
{
    let x = c as u32;
    (9 <= x && x <= 13) || x == 32 || x == 0x85 || x == 0xA0 || x == 0x1680 || (0x2000 <= x
        && x <= 0x200A) || x == 0x2028 || x == 0x2029 || x == 0x202F || x == 0x205F || x == 0x3000
}

/// Every character is white space: what remains after trimming is empty.
pub open spec fn is_blank_seq(s: Seq<char>) -> bool {
    forall|i: int| 0 <= i < s.len() ==> is_space(s[i])
}

/// `s` is empty once white space is trimmed from both ends.
pub fn is_blank(s: &str) -> (r: bool)
    ensures
        r == is_blank_seq(s@),
{
    let x = chars_of(s);
    let mut i: usize = 0;
    while i < x.len()
        invariant
            x@ == s@,
            i <= x@.len(),
            forall|k: int| 0 <= k < i ==> is_space(x@[k]),
        decreases x@.len() - i,
    {
        if !space_char(x[i]) {
            return false;
        }
        i = i + 1;
    }
    true
}

/// Drops the leading white space of `s`.
pub open spec fn trim_start_seq(s: Seq<char>) -> Seq<char>
    decreases s.len(),
{
    if s.len() > 0 && is_space(s[0]) {
        trim_start_seq(s.drop_first())
    } else {
        s
    }
}

/// `s`, with leading white space removed, begins with `prefix`.
pub fn trimmed_starts_with(s: &str, prefix: &str) -> (r: bool)
    ensures
        r == seq_starts_with(trim_start_seq(s@), prefix@),
{
    let x = chars_of(s);
    let p = chars_of(prefix);
    let mut i: usize = 0;
    assert(s@.subrange(0, s@.len() as int) =~= s@);
    while i < x.len() && space_char(x[i])
        invariant
            x@ == s@,
            i <= x@.len(),
            trim_start_seq(s@) == trim_start_seq(s@.subrange(i as int, s@.len() as int)),
        decreases x@.len() - i,
    {
        assert(s@.subrange(i as int, s@.len() as int).drop_first() =~= s@.subrange(
            i + 1,
            s@.len() as int,
        ));
        i = i + 1;
    }
    let ghost rest = s@.subrange(i as int, s@.len() as int);
    assert(trim_start_seq(rest) == rest);
    if p.len() > x.len() - i {
        return false;
    }
    let r = matches_at(&x, &p, i);
    assert(rest.subrange(0, p@.len() as int) =~= x@.subrange(i as int, i + p@.len()));
    r
}

/// The lines of `s` as `str::lines` yields them: split at `'\n'`, a `'\r'`
/// before the `'\n'` dropped, no final empty line.
pub open spec fn line_split(s: Seq<char>) -> (Seq<Seq<char>>, Seq<char>)
    decreases s.len(),
{
    if s.len() == 0 {
        (seq![], seq![])
    } else {
        let (done, cur) = line_split(s.drop_last());
        if s.last() == '\n' {
            (done.push(strip_cr(cur)), seq![])
        } else {
            (done, cur.push(s.last()))
        }
    }
}

pub open spec fn strip_cr(l: Seq<char>) -> Seq<char> {
    if l.len() > 0 && l.last() == '\r' {
        l.drop_last()
    } else {
        l
    }
}

pub open spec fn lines_of(s: Seq<char>) -> Seq<Seq<char>> {
    let (done, cur) = line_split(s);
    if cur.len() == 0 {
        done
    } else {
        done.push(cur)
    }
}

/// Splits `s` into its lines (see `lines_of`).
pub fn split_lines(s: &str) -> (r: Vec<String>)
    ensures
        r@.len() == lines_of(s@).len(),
        forall|i: int| 0 <= i < r@.len() ==> #[trigger] r@[i]@ == lines_of(s@)[i],
{
    let x = chars_of(s);
    let mut done: Vec<String> = Vec::new();
    let mut cur: Vec<char> = Vec::new();
    let mut i: usize = 0;
    while i < x.len()
        invariant
            x@ == s@,
            i <= x@.len(),
            done@.len() == line_split(s@.take(i as int)).0.len(),
            forall|k: int| 0 <= k < done@.len() ==> #[trigger] done@[k]@ == line_split(
                s@.take(i as int),
            ).0[k],
            cur@ == line_split(s@.take(i as int)).1,
        decreases x@.len() - i,
    {
        let c = x[i];
        assert(s@.take(i + 1).drop_last() =~= s@.take(i as int));
        if c == '\n' {
            let n = cur.len();
            if n > 0 && cur[n - 1] == '\r' {
                cur.pop();
            }
            let line = string_of(&cur);
            done.push(line);
            cur = Vec::new();
        } else {
            cur.push(c);
        }
        i = i + 1;
    }
    assert(s@.take(x@.len() as int) =~= s@);
    if cur.len() > 0 {
        let line = string_of(&cur);
        done.push(line);
    }
    done
}

/// The decimal digit for `d < 10`.
pub open spec fn digit(d: nat) -> char {
    if d == 0 {
        '0'
    } else if d == 1 {
        '1'
    } else if d == 2 {
        '2'
    } else if d == 3 {
        '3'
    } else if d == 4 {
        '4'
    } else if d == 5 {
        '5'
    } else if d == 6 {
        '6'
    } else if d == 7 {
        '7'
    } else if d == 8 {
        '8'
    } else {
        '9'
    }
}

/// The decimal notation of `n`, without leading zeros.
pub open spec fn decimal(n: nat) -> Seq<char>
    decreases n,
{
    if n < 10 {
        seq![digit(n)]
    } else {
        decimal(n / 10).push(digit(n % 10))
    }
}

pub(crate) fn digit_char(d: u128) -> (r: char)
    requires
        d < 10,
    ensures
        r == digit(d as nat),
{
    if d == 0 {
        '0'
    } else if d == 1 {
        '1'
    } else if d == 2 {
        '2'
    } else if d == 3 {
        '3'
    } else if d == 4 {
        '4'
    } else if d == 5 {
        '5'
    } else if d == 6 {
        '6'
    } else if d == 7 {
        '7'
    } else if d == 8 {
        '8'
    } else {
        '9'
    }
}

fn push_decimal(out: &mut Vec<char>, n: u128)
    ensures
        final(out)@ == old(out)@ + decimal(n as nat),
    decreases n,
{
    if n >= 10 {
        push_decimal(out, n / 10);
    }
    out.push(digit_char(n % 10));
    assert(final(out)@ =~= old(out)@ + decimal(n as nat));
}

/// The decimal notation of `n`.
pub fn decimal_string(n: u64) -> (r: String)
    ensures
        r@ == decimal(n as nat),
{
    decimal_string_wide(n as u128)
}

/// The decimal notation of `n`.
pub fn decimal_string_wide(n: u128) -> (r: String)
    ensures
        r@ == decimal(n as nat),
{
    let mut v: Vec<char> = Vec::new();
    push_decimal(&mut v, n);
    assert(v@ =~= decimal(n as nat));
    string_of(&v)
}

} // verus!

verus! {

/// A copy of a list of strings.
pub fn copy_strings(v: &Vec<String>) -> (r: Vec<String>)
    ensures
        r@ == v@,
{
    let mut r: Vec<String> = Vec::new();
    let mut i: usize = 0;
    while i < v.len()
        invariant
            i <= v@.len(),
            r@ == v@.take(i as int),
        decreases v@.len() - i,
    {
        r.push(v[i].clone());
        assert(v@.take(i + 1) =~= v@.take(i as int).push(v@[i as int]));
        i = i + 1;
    }
    assert(v@.take(v@.len() as int) =~= v@);
    r
}

} // verus!

verus! {

/// Appends copies of the strings of `v` to `out`.
pub fn extend_strings(out: &mut Vec<String>, v: &Vec<String>)
    ensures
        final(out)@ == old(out)@ + v@,
{
    let ghost start = out@;
    let mut i: usize = 0;
    while i < v.len()
        invariant
            i <= v@.len(),
            out@ == start + v@.take(i as int),
        decreases v@.len() - i,
    {
        out.push(v[i].clone());
        assert(v@.take(i + 1) =~= v@.take(i as int).push(v@[i as int]));
        i = i + 1;
    }
    assert(v@.take(v@.len() as int) =~= v@);
}

} // verus!

verus! {

/// `pieces` joined with `sep` between neighbours.
pub open spec fn joined(pieces: Seq<Seq<char>>, sep: Seq<char>) -> Seq<char>
    decreases pieces.len(),
{
    if pieces.len() == 0 {
        seq![]
    } else if pieces.len() == 1 {
        pieces[0]
    } else {
        joined(pieces.drop_last(), sep) + sep + pieces.last()
    }
}

/// Each item as a list entry: `"- "` before it.
pub open spec fn bullet_items(items: Seq<Seq<char>>) -> Seq<Seq<char>> {
    items.map_values(|s: Seq<char>| "- "@ + s)
}

/// Appends the items of `items`, each as `"- item"`, one per line (no
/// newline after the last).
pub fn append_bullets(out: &mut String, items: &Vec<String>)
    ensures
        final(out)@ == old(out)@ + joined(
            bullet_items(items@.map_values(|s: String| s@)),
            "\n"@,
        ),
{
    let ghost start = out@;
    let ghost all = bullet_items(items@.map_values(|s: String| s@));
    let mut i: usize = 0;
    while i < items.len()
        invariant
            all == bullet_items(items@.map_values(|s: String| s@)),
            i <= items@.len(),
            out@ == start + joined(all.take(i as int), "\n"@),
        decreases items@.len() - i,
    {
        let ghost before = out@;
        if i > 0 {
            out.append("\n");
        }
        out.append("- ");
        out.append(items[i].as_str());
        proof {
            assert(all.take(i + 1).drop_last() =~= all.take(i as int));
            assert(all.take(i + 1).last() == "- "@ + items@[i as int]@);
            if i == 0 {
                assert(all.take(1).len() == 1);
            }
            assert(out@ =~= start + joined(all.take(i + 1), "\n"@));
        }
        i = i + 1;
    }
    assert(all.take(items@.len() as int) =~= all);
}

} // verus!

verus! {

/// The pieces one after another.
pub open spec fn concat_all(pieces: Seq<Seq<char>>) -> Seq<char>
    decreases pieces.len(),
{
    if pieces.len() == 0 {
        seq![]
    } else {
        concat_all(pieces.drop_last()) + pieces.last()
    }
}

} // verus!

verus! {

/// Each item as a `"- item"` line, newline included.
pub open spec fn dash_lines(items: Seq<Seq<char>>) -> Seq<char> {
    concat_all(items.map_values(|s: Seq<char>| "- "@ + s + "\n"@))
}

/// Each URL as a `"- [url](url)"` line, newline included.
pub open spec fn url_lines(urls: Seq<Seq<char>>) -> Seq<char> {
    concat_all(urls.map_values(|s: Seq<char>| "- ["@ + s + "]("@ + s + ")\n"@))
}

/// Appends `"- item\n"` for each item.
pub fn append_dash_lines(out: &mut String, items: &Vec<String>)
    ensures
        final(out)@ == old(out)@ + dash_lines(items@.map_values(|s: String| s@)),
{
    let ghost start = out@;
    let ghost all = items@.map_values(|s: String| s@).map_values(
        |s: Seq<char>| "- "@ + s + "\n"@,
    );
    let mut i: usize = 0;
    while i < items.len()
        invariant
            all == items@.map_values(|s: String| s@).map_values(|s: Seq<char>| "- "@ + s + "\n"@),
            i <= items@.len(),
            out@ == start + concat_all(all.take(i as int)),
        decreases items@.len() - i,
    {
        out.append("- ");
        out.append(items[i].as_str());
        out.append("\n");
        assert(all.take(i + 1).drop_last() =~= all.take(i as int));
        assert(all.take(i + 1).last() == "- "@ + items@[i as int]@ + "\n"@);
        assert(out@ =~= start + concat_all(all.take(i + 1)));
        i = i + 1;
    }
    assert(all.take(items@.len() as int) =~= all);
}

/// Appends `"- [url](url)\n"` for each URL.
pub fn append_url_lines(out: &mut String, urls: &Vec<String>)
    ensures
        final(out)@ == old(out)@ + url_lines(urls@.map_values(|s: String| s@)),
{
    let ghost start = out@;
    let ghost all = urls@.map_values(|s: String| s@).map_values(
        |s: Seq<char>| "- ["@ + s + "]("@ + s + ")\n"@,
    );
    let mut i: usize = 0;
    while i < urls.len()
        invariant
            all == urls@.map_values(|s: String| s@).map_values(
                |s: Seq<char>| "- ["@ + s + "]("@ + s + ")\n"@,
            ),
            i <= urls@.len(),
            out@ == start + concat_all(all.take(i as int)),
        decreases urls@.len() - i,
    {
        out.append("- [");
        out.append(urls[i].as_str());
        out.append("](");
        out.append(urls[i].as_str());
        out.append(")\n");
        assert(all.take(i + 1).drop_last() =~= all.take(i as int));
        assert(all.take(i + 1).last() == "- ["@ + urls@[i as int]@ + "]("@ + urls@[i as int]@
            + ")\n"@);
        assert(out@ =~= start + concat_all(all.take(i + 1)));
        i = i + 1;
    }
    assert(all.take(urls@.len() as int) =~= all);
}

} // verus!

verus! {

/// The text of an optional string slice.
pub open spec fn str_opt(v: Option<&str>) -> Option<Seq<char>> {
    match v {
        Some(s) => Some(s@),
        None => None,
    }
}

/// The text of an optional string.
pub open spec fn string_opt(v: Option<String>) -> Option<Seq<char>> {
    match v {
        Some(s) => Some(s@),
        None => None,
    }
}

} // verus!

verus! {

/// `s` with its white space removed.
pub open spec fn without_spaces(s: Seq<char>) -> Seq<char>
    decreases s.len(),
{
    if s.len() == 0 {
        seq![]
    } else if is_space(s.last()) {
        without_spaces(s.drop_last())
    } else {
        without_spaces(s.drop_last()).push(s.last())
    }
}

/// The characters of `s` other than white space.
pub fn strip_spaces(s: &str) -> (r: Vec<char>)
    ensures
        r@ == without_spaces(s@),
{
    let x = chars_of(s);
    let mut out: Vec<char> = Vec::new();
    let mut i: usize = 0;
    while i < x.len()
        invariant
            x@ == s@,
            i <= x@.len(),
            out@ == without_spaces(s@.take(i as int)),
        decreases x@.len() - i,
    {
        assert(s@.take(i + 1).drop_last() =~= s@.take(i as int));
        assert(s@.take(i + 1).last() == x@[i as int]);
        if !space_char(x[i]) {
            out.push(x[i]);
        }
        i = i + 1;
    }
    assert(s@.take(x@.len() as int) =~= s@);
    out
}

} // verus!

verus! {

/// `needle` occurs in `hay` at position `i`, ignoring ASCII case.
pub open spec fn folded_at(hay: Seq<char>, needle: Seq<char>, i: int) -> bool {
    &&& 0 <= i
    &&& i + needle.len() <= hay.len()
    &&& forall|k: int|
        0 <= k < needle.len() ==> ascii_lower_char(#[trigger] hay[i + k]) == ascii_lower_char(
            needle[k],
        )
}

/// `needle` occurs in `hay`, ignoring ASCII case.
pub open spec fn folded_contains(hay: Seq<char>, needle: Seq<char>) -> bool {
    exists|i: int| folded_at(hay, needle, i)
}

/// `lowered` is `s` with ASCII letters lowered, as `lowercase` gives it on
/// ASCII text.
pub open spec fn ascii_lowered(s: Seq<char>, lowered: Seq<char>) -> bool {
    lowered.len() == s.len() && forall|i: int|
        0 <= i < s.len() ==> #[trigger] lowered[i] == ascii_lower_char(s[i])
}

/// On ASCII-lowered texts, plain containment is containment ignoring ASCII
/// case of the originals.
pub proof fn lemma_lowered_containment(
    hay: Seq<char>,
    needle: Seq<char>,
    low_hay: Seq<char>,
    low_needle: Seq<char>,
)
    requires
        ascii_lowered(hay, low_hay),
        ascii_lowered(needle, low_needle),
    ensures
        seq_contains(low_hay, low_needle) == folded_contains(hay, needle),
{
    if seq_contains(low_hay, low_needle) {
        let i = choose|i: int| occurs_at(low_hay, low_needle, i);
        assert forall|k: int| 0 <= k < needle.len() implies ascii_lower_char(#[trigger] hay[i + k])
            == ascii_lower_char(needle[k]) by {
            assert(low_hay.subrange(i, i + low_needle.len())[k] == low_needle[k]);
            assert(low_hay[i + k] == low_needle[k]);
        }
        assert(folded_at(hay, needle, i));
    }
    if folded_contains(hay, needle) {
        let i = choose|i: int| folded_at(hay, needle, i);
        assert forall|k: int| 0 <= k < low_needle.len() implies low_hay.subrange(
            i,
            i + low_needle.len(),
        )[k] == low_needle[k] by {
            assert(ascii_lower_char(hay[i + k]) == ascii_lower_char(needle[k]));
        }
        assert(low_hay.subrange(i, i + low_needle.len()) =~= low_needle);
        assert(occurs_at(low_hay, low_needle, i));
    }
}

/// Text appended after an occurrence keeps it.
pub proof fn lemma_folded_extends(hay: Seq<char>, more: Seq<char>, needle: Seq<char>)
    requires
        folded_contains(hay, needle),
    ensures
        folded_contains(hay + more, needle),
{
    let i = choose|i: int| folded_at(hay, needle, i);
    assert forall|k: int| 0 <= k < needle.len() implies ascii_lower_char(
        #[trigger] (hay + more)[i + k],
    ) == ascii_lower_char(needle[k]) by {
        assert((hay + more)[i + k] == hay[i + k]);
    }
    assert(folded_at(hay + more, needle, i));
}

} // verus!
