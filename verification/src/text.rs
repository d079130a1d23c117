//! Text helpers over the character sequence of a string.
use vstd::prelude::*;
use vstd::utf8::{char_is_scalar, encode_scalar, encode_utf8};

verus! {

/// The texts that a list of strings holds.
pub open spec fn texts(v: Seq<String>) -> Seq<Seq<char>> {
    Seq::new(v.len(), |i: int| v[i]@)
}

/// The text that an optional string holds.
pub open spec fn opt_text(v: Option<String>) -> Option<Seq<char>> {
    match v {
        Some(s) => Some(s@),
        None => None,
    }
}

/// The same text again, if there is one.
pub fn copy_opt(text: &Option<String>) -> (r: Option<String>)
    ensures
        opt_text(r) == opt_text(*text),
{
    match text {
        Some(s) => Some(s.clone()),
        None => None,
    }
}

/// `String::push` appends one character to the end of the string.
pub assume_specification[ String::push ](s: &mut String, c: char)
    ensures
        final(s)@ == old(s)@.push(c),
;

/// The characters with the Unicode `White_Space` property.
pub open spec fn white_space(c: char) -> bool {
    let u = c as u32;
    ||| 0x09 <= u <= 0x0D
    ||| u == 0x20
    ||| u == 0x85
    ||| u == 0xA0
    ||| u == 0x1680
    ||| 0x2000 <= u <= 0x200A
    ||| u == 0x2028
    ||| u == 0x2029
    ||| u == 0x202F
    ||| u == 0x205F
    ||| u == 0x3000
}

/// Whether a character is white space.
pub fn is_white_space(c: char) -> (r: bool)
    ensures
        r == white_space(c),
{
    let u: u32 = c as u32;
    (0x09 <= u && u <= 0x0D) || u == 0x20 || u == 0x85 || u == 0xA0 || u == 0x1680 || (0x2000 <= u
        && u <= 0x200A) || u == 0x2028 || u == 0x2029 || u == 0x202F || u == 0x205F || u == 0x3000
}

/// The characters of a string, in order.
pub fn chars_of(s: &str) -> (r: Vec<char>)
    ensures
        r@ == s@,
{
    let mut out: Vec<char> = Vec::new();
    for c in it: s.chars()
        invariant
            it.seq() == s@,
            out@ == s@.take(it.index() as int),
    {
        proof {
            assert(s@.take(it.index() + 1) == s@.take(it.index() as int).push(c));
        }
        out.push(c);
    }
    proof {
        assert(s@.take(s@.len() as int) == s@);
    }
    out
}

/// The string made of `chars[from..to]`.
pub fn text_between(chars: &Vec<char>, from: usize, to: usize) -> (r: String)
    requires
        from <= to <= chars.len(),
    ensures
        r@ == chars@.subrange(from as int, to as int),
{
    let mut out = String::new();
    let mut i: usize = from;
    while i < to
        invariant
            from <= i <= to <= chars.len(),
            out@ == chars@.subrange(from as int, i as int),
        decreases to - i,
    {
        out.push(chars[i]);
        proof {
            assert(chars@.subrange(from as int, i + 1) == chars@.subrange(from as int, i as int).push(chars@[i as int]));
        }
        i += 1;
    }
    out
}

/// Whether two strings hold the same text.
pub fn same_text(a: &str, b: &str) -> (r: bool)
    ensures
        r == (a@ == b@),
{
    let x = chars_of(a);
    let y = chars_of(b);
    same_chars(&x, &y)
}

/// Whether two character lists are equal.
pub fn same_chars(x: &Vec<char>, y: &Vec<char>) -> (r: bool)
    ensures
        r == (x@ == y@),
{
    if x.len() != y.len() {
        return false;
    }
    let mut i: usize = 0;
    while i < x.len()
        invariant
            i <= x.len() == y.len(),
            x@.take(i as int) == y@.take(i as int),
        decreases x.len() - i,
    {
        if x[i] != y[i] {
            return false;
        }
        proof {
            assert(x@.take(i + 1) == x@.take(i as int).push(x@[i as int]));
            assert(y@.take(i + 1) == y@.take(i as int).push(y@[i as int]));
        }
        i += 1;
    }
    proof {
        assert(x@.take(x@.len() as int) == x@);
        assert(y@.take(y@.len() as int) == y@);
    }
    true
}

/// `s` without its leading white space.
pub open spec fn trim_start(s: Seq<char>) -> Seq<char>
    decreases s.len(),
{
    if s.len() > 0 && white_space(s[0]) {
        trim_start(s.drop_first())
    } else {
        s
    }
}

/// `s` without its trailing white space.
pub open spec fn trim_end(s: Seq<char>) -> Seq<char>
    decreases s.len(),
{
    if s.len() > 0 && white_space(s.last()) {
        trim_end(s.drop_last())
    } else {
        s
    }
}

/// `s` without its leading and trailing white space.
pub open spec fn trimmed(s: Seq<char>) -> Seq<char> {
    trim_end(trim_start(s))
}

pub proof fn lemma_trim_len(s: Seq<char>)
    ensures
        trim_start(s).len() <= s.len(),
        trim_end(s).len() <= s.len(),
    decreases s.len(),
{
    if s.len() > 0 {
        lemma_trim_len(s.drop_first());
        lemma_trim_len(s.drop_last());
    }
}

pub proof fn lemma_trimmed_len(s: Seq<char>)
    ensures
        trimmed(s).len() <= s.len(),
{
    lemma_trim_len(s);
    lemma_trim_len(trim_start(s));
}

/// A text that holds something other than white space is not blank.
pub proof fn lemma_not_blank(s: Seq<char>, i: int)
    requires
        0 <= i < s.len(),
        !white_space(s[i]),
    ensures
        trimmed(s).len() > 0,
    decreases s.len(),
{
    if white_space(s[0]) {
        assert(s.drop_first()[i - 1] == s[i]);
        lemma_not_blank(s.drop_first(), i - 1);
        assert(trim_start(s) == trim_start(s.drop_first()));
    } else {
        assert(trim_start(s) == s);
        lemma_not_blank_end(s);
    }
}

proof fn lemma_not_blank_end(s: Seq<char>)
    requires
        s.len() > 0,
        !white_space(s[0]),
    ensures
        trim_end(s).len() > 0,
    decreases s.len(),
{
    if white_space(s.last()) {
        assert(s.drop_last()[0] == s[0]);
        lemma_not_blank_end(s.drop_last());
    }
}

/// The string without its leading and trailing white space.
pub fn trim(s: &str) -> (r: String)
    ensures
        r@ == trimmed(s@),
{
    let chars = chars_of(s);
    let n: usize = chars.len();
    let mut i: usize = 0;
    proof {
        assert(chars@.subrange(0, n as int) == s@);
    }
    while i < n && is_white_space(chars[i])
        invariant
            i <= n == chars.len(),
            trim_start(s@) == trim_start(chars@.subrange(i as int, n as int)),
        decreases n - i,
    {
        proof {
            assert(chars@.subrange(i as int, n as int).drop_first() == chars@.subrange(i + 1, n as int));
        }
        i += 1;
    }
    proof {
        assert(trim_start(s@) == chars@.subrange(i as int, n as int));
    }
    let mut j: usize = n;
    while j > i && is_white_space(chars[j - 1])
        invariant
            i <= j <= n == chars.len(),
            trimmed(s@) == trim_end(chars@.subrange(i as int, j as int)),
        decreases j - i,
    {
        proof {
            assert(chars@.subrange(i as int, j as int).drop_last() == chars@.subrange(i as int, j - 1));
        }
        j -= 1;
    }
    text_between(&chars, i, j)
}

/// Whether `s` begins with `prefix`.
pub open spec fn has_prefix(s: Seq<char>, prefix: Seq<char>) -> bool {
    prefix.len() <= s.len() && s.subrange(0, prefix.len() as int) == prefix
}

/// Whether `s` ends with `suffix`.
pub open spec fn has_suffix(s: Seq<char>, suffix: Seq<char>) -> bool {
    suffix.len() <= s.len() && s.subrange(s.len() - suffix.len(), s.len() as int) == suffix
}

/// Whether `part` stands in `s` at position `at`.
pub open spec fn occurs_at(s: Seq<char>, part: Seq<char>, at: int) -> bool {
    0 <= at && at + part.len() <= s.len() && s.subrange(at, at + part.len()) == part
}

/// Whether `part` stands somewhere in `s`.
pub open spec fn has_part(s: Seq<char>, part: Seq<char>) -> bool {
    exists|at: int| occurs_at(s, part, at)
}

/// Whether `part` stands in `s` at position `at`, on character lists.
pub fn chars_occur_at(s: &Vec<char>, part: &Vec<char>, at: usize) -> (r: bool)
    requires
        at <= s.len(),
    ensures
        r == occurs_at(s@, part@, at as int),
{
    if part.len() > s.len() - at {
        return false;
    }
    let mut i: usize = 0;
    while i < part.len()
        invariant
            i <= part.len(),
            at + part.len() <= s.len(),
            s@.subrange(at as int, at + i) == part@.take(i as int),
        decreases part.len() - i,
    {
        if s[at + i] != part[i] {
            proof {
                assert(s@.subrange(at as int, at + part.len())[i as int] != part@[i as int]);
            }
            return false;
        }
        proof {
            assert(s@.subrange(at as int, at + i + 1) == s@.subrange(at as int, at + i).push(s@[at + i]));
            assert(part@.take(i + 1) == part@.take(i as int).push(part@[i as int]));
        }
        i += 1;
    }
    proof {
        assert(part@.take(part@.len() as int) == part@);
    }
    true
}

/// Whether the string begins with `prefix`.
pub fn starts_with(s: &str, prefix: &str) -> (r: bool)
    ensures
        r == has_prefix(s@, prefix@),
{
    let x = chars_of(s);
    let p = chars_of(prefix);
    chars_occur_at(&x, &p, 0)
}

/// Whether the string ends with `suffix`.
pub fn ends_with(s: &str, suffix: &str) -> (r: bool)
    ensures
        r == has_suffix(s@, suffix@),
{
    let x = chars_of(s);
    let p = chars_of(suffix);
    if p.len() > x.len() {
        return false;
    }
    chars_occur_at(&x, &p, x.len() - p.len())
}

/// The first position from `from` on at which `part` stands in `s`.
pub open spec fn find_from(s: Seq<char>, part: Seq<char>, from: int) -> Option<int>
    decreases s.len() + 1 - from,
{
    if from > s.len() {
        None
    } else if occurs_at(s, part, from) {
        Some(from)
    } else {
        find_from(s, part, from + 1)
    }
}

pub proof fn lemma_find_from(s: Seq<char>, part: Seq<char>, from: int)
    requires
        0 <= from <= s.len() + 1,
    ensures
        match find_from(s, part, from) {
            Some(at) => from <= at && occurs_at(s, part, at),
            None => forall|at: int| from <= at ==> !occurs_at(s, part, at),
        },
    decreases s.len() + 1 - from,
{
    if from <= s.len() && !occurs_at(s, part, from) {
        lemma_find_from(s, part, from + 1);
    }
}

/// The first position from `from` on at which `part` stands in `s`.
pub fn find_chars(s: &Vec<char>, part: &Vec<char>, from: usize) -> (r: Option<usize>)
    requires
        from <= s.len(),
    ensures
        match r {
            Some(at) => find_from(s@, part@, from as int) == Some(at as int) && from <= at && at
                + part.len() <= s.len(),
            None => find_from(s@, part@, from as int) is None,
        },
{
    let mut at: usize = from;
    loop
        invariant
            from <= at <= s.len(),
            find_from(s@, part@, from as int) == find_from(s@, part@, at as int),
        decreases s.len() - at,
    {
        if chars_occur_at(s, part, at) {
            return Some(at);
        }
        if at == s.len() {
            proof {
                assert(find_from(s@, part@, at + 1) is None);
            }
            return None;
        }
        at += 1;
    }
}

/// Whether `part` stands somewhere in the string.
pub fn contains(s: &str, part: &str) -> (r: bool)
    ensures
        r == has_part(s@, part@),
{
    let x = chars_of(s);
    let p = chars_of(part);
    proof {
        lemma_find_from(s@, part@, 0);
    }
    match find_chars(&x, &p, 0) {
        Some(at) => {
            proof {
                assert(occurs_at(s@, part@, at as int));
            }
            true
        },
        None => false,
    }
}

/// Whether the string holds the character.
pub fn contains_char(s: &str, c: char) -> (r: bool)
    ensures
        r == s@.contains(c),
{
    let x = chars_of(s);
    let mut i: usize = 0;
    while i < x.len()
        invariant
            i <= x.len(),
            x@ == s@,
            forall|k: int| 0 <= k < i ==> x@[k] != c,
        decreases x.len() - i,
    {
        if x[i] == c {
            return true;
        }
        i += 1;
    }
    false
}

/// The texts with `separator` between each two neighbours.
pub open spec fn joined(parts: Seq<Seq<char>>, separator: Seq<char>) -> Seq<char>
    decreases parts.len(),
{
    if parts.len() == 0 {
        Seq::empty()
    } else if parts.len() == 1 {
        parts[0]
    } else {
        joined(parts.drop_last(), separator) + separator + parts.last()
    }
}

/// Joins `parts[from..]`, with `separator` between each two neighbours.
pub fn join_from(parts: &Vec<String>, from: usize, separator: &str) -> (r: String)
    requires
        from <= parts.len(),
    ensures
        r@ == joined(texts(parts@).skip(from as int), separator@),
{
    let mut out = String::new();
    let mut i: usize = from;
    let ghost all = texts(parts@).skip(from as int);
    proof {
        assert(all.take(0) == Seq::<Seq<char>>::empty());
    }
    while i < parts.len()
        invariant
            from <= i <= parts.len(),
            all == texts(parts@).skip(from as int),
            out@ == joined(all.take(i - from), separator@),
        decreases parts.len() - i,
    {
        proof {
            let t = all.take(i + 1 - from);
            assert(t.drop_last() == all.take(i - from));
            assert(t.last() == parts@[i as int]@);
        }
        if i > from {
            out.append(separator);
        }
        out.append(parts[i].as_str());
        i += 1;
    }
    proof {
        assert(all.take(all.len() as int) == all);
    }
    out
}

/// Joins the texts, with `separator` between each two neighbours.
pub fn join(parts: &Vec<String>, separator: &str) -> (r: String)
    ensures
        r@ == joined(texts(parts@), separator@),
{
    proof {
        assert(texts(parts@).skip(0) == texts(parts@));
    }
    join_from(parts, 0, separator)
}

/// The first position from `i` on that holds `c`, or the length of `s`.
pub open spec fn position_from(s: Seq<char>, i: int, c: char) -> int
    decreases s.len() - i,
{
    if i >= s.len() {
        s.len() as int
    } else if s[i] == c {
        i
    } else {
        position_from(s, i + 1, c)
    }
}

pub proof fn lemma_position_from(s: Seq<char>, i: int, c: char)
    requires
        0 <= i <= s.len(),
    ensures
        i <= position_from(s, i, c) <= s.len(),
    decreases s.len() - i,
{
    if i < s.len() && s[i] != c {
        lemma_position_from(s, i + 1, c);
    }
}

/// The pieces of `s` from `start` on, cut at each `c`.
pub open spec fn pieces_from(s: Seq<char>, c: char, start: int) -> Seq<Seq<char>>
    decreases s.len() + 1 - start,
{
    if start < 0 || start > s.len() {
        Seq::empty()
    } else {
        let at = position_from(s, start, c);
        proof {
            lemma_position_from(s, start, c);
        }
        if at >= s.len() {
            seq![s.skip(start)]
        } else {
            seq![s.subrange(start, at)] + pieces_from(s, c, at + 1)
        }
    }
}

/// The pieces of `s` between the places where `c` stands.
pub open spec fn pieces(s: Seq<char>, c: char) -> Seq<Seq<char>> {
    pieces_from(s, c, 0)
}

proof fn lemma_position_is(s: Seq<char>, i: int, c: char, p: int)
    requires
        0 <= i <= p <= s.len(),
        forall|j: int| i <= j < p ==> s[j] != c,
        p < s.len() ==> s[p] == c,
    ensures
        position_from(s, i, c) == p,
    decreases p - i,
{
    if i < p {
        lemma_position_is(s, i + 1, c, p);
    }
}

pub proof fn lemma_position_first(s: Seq<char>, i: int, c: char)
    requires
        0 <= i <= s.len(),
    ensures
        i <= position_from(s, i, c) <= s.len(),
        forall|j: int| i <= j < position_from(s, i, c) ==> s[j] != c,
        position_from(s, i, c) < s.len() ==> s[position_from(s, i, c)] == c,
    decreases s.len() - i,
{
    if i < s.len() && s[i] != c {
        lemma_position_first(s, i + 1, c);
    }
}

/// No piece holds the character at which the text was cut.
pub proof fn lemma_pieces_without(s: Seq<char>, c: char, start: int)
    requires
        0 <= start <= s.len(),
    ensures
        forall|k: int|
            0 <= k < pieces_from(s, c, start).len() ==> !(#[trigger] pieces_from(
                s,
                c,
                start,
            )[k]).contains(c),
    decreases s.len() + 1 - start,
{
    let at = position_from(s, start, c);
    lemma_position_first(s, start, c);
    let first = s.subrange(start, at);
    assert(!first.contains(c));
    if at >= s.len() {
        assert(s.skip(start) == first);
    } else {
        lemma_pieces_without(s, c, at + 1);
        let rest = pieces_from(s, c, at + 1);
        assert forall|k: int| 0 <= k < pieces_from(s, c, start).len() implies !(
        #[trigger] pieces_from(s, c, start)[k]).contains(c) by {
            if k > 0 {
                assert(pieces_from(s, c, start)[k] == rest[k - 1]);
            }
        }
    }
}

proof fn lemma_pieces_append(a: Seq<char>, c: char, b: Seq<char>, start: int)
    requires
        0 <= start <= a.len(),
        !b.contains(c),
    ensures
        pieces_from(a + seq![c] + b, c, start) == pieces_from(a, c, start).push(b),
    decreases a.len() + 1 - start,
{
    let s = a + seq![c] + b;
    let at = position_from(a, start, c);
    lemma_position_first(a, start, c);
    assert(forall|j: int| 0 <= j < a.len() ==> s[j] == a[j]);
    assert(s[a.len() as int] == c);
    lemma_position_is(s, start, c, at);
    assert(s.subrange(start, at) == a.subrange(start, at));
    if at >= a.len() {
        let behind = a.len() + 1;
        assert forall|j: int| behind <= j < s.len() implies s[j] != c by {
            assert(s[j] == b[j - behind]);
            assert(b.contains(b[j - behind]));
        }
        lemma_position_is(s, behind as int, c, s.len() as int);
        assert(s.skip(behind as int) == b);
        assert(a.subrange(start, at) == a.skip(start));
        assert(pieces_from(s, c, behind as int) == seq![b]);
        assert(seq![a.skip(start)] + seq![b] == seq![a.skip(start)].push(b));
    } else {
        lemma_pieces_append(a, c, b, at + 1);
        let rest = pieces_from(a, c, at + 1);
        let first = a.subrange(start, at);
        assert(seq![first] + rest.push(b) == (seq![first] + rest).push(b));
    }
}

/// Splitting a joined text gives its parts back, where none of them holds the
/// separator.
pub proof fn joined_parts_read_back(parts: Seq<Seq<char>>, c: char)
    requires
        parts.len() > 0,
        forall|k: int| 0 <= k < parts.len() ==> !(#[trigger] parts[k]).contains(c),
    ensures
        pieces(joined(parts, seq![c]), c) == parts,
    decreases parts.len(),
{
    if parts.len() == 1 {
        let only = parts[0];
        assert forall|j: int| 0 <= j < only.len() implies only[j] != c by {
            assert(only.contains(only[j]));
        }
        lemma_position_is(only, 0, c, only.len() as int);
        assert(only.skip(0) == only);
        assert(pieces(only, c) == parts);
    } else {
        let front = parts.drop_last();
        assert forall|k: int| 0 <= k < front.len() implies !(#[trigger] front[k]).contains(c) by {
            assert(front[k] == parts[k]);
        }
        joined_parts_read_back(front, c);
        let last = parts[parts.len() - 1];
        lemma_pieces_append(joined(front, seq![c]), c, last, 0);
        assert(front.push(last) == parts);
    }
}

/// Splits the string at each `c`.
pub fn split_on(s: &str, c: char) -> (r: Vec<String>)
    ensures
        texts(r@) == pieces(s@, c),
{
    let chars = chars_of(s);
    let n: usize = chars.len();
    let mut out: Vec<String> = Vec::new();
    let mut start: usize = 0;
    proof {
        assert(texts(out@) + pieces(s@, c) == pieces(s@, c));
    }
    loop
        invariant
            start <= n == chars.len(),
            chars@ == s@,
            texts(out@) + pieces_from(s@, c, start as int) == pieces(s@, c),
        decreases n - start,
    {
        let ghost before = texts(out@);
        let mut at: usize = start;
        while at < n && chars[at] != c
            invariant
                start <= at <= n == chars.len(),
                chars@ == s@,
                position_from(s@, start as int, c) == position_from(s@, at as int, c),
            decreases n - at,
        {
            at += 1;
        }
        let piece = text_between(&chars, start, at);
        out.push(piece);
        proof {
            assert(texts(out@) == before.push(piece@));
            assert(s@.subrange(start as int, n as int) == s@.skip(start as int));
        }
        if at >= n {
            proof {
                assert(before + seq![piece@] == texts(out@));
            }
            return out;
        }
        proof {
            let rest = pieces_from(s@, c, at + 1);
            assert(before + (seq![piece@] + rest) == texts(out@) + rest);
        }
        start = at + 1;
    }
}

/// Whether a text is among the given ones.
pub fn has_text(list: &Vec<String>, text: &str) -> (r: bool)
    ensures
        r == texts(list@).contains(text@),
{
    let mut i: usize = 0;
    while i < list.len()
        invariant
            i <= list.len(),
            forall|j: int| 0 <= j < i ==> #[trigger] texts(list@)[j] != text@,
        decreases list.len() - i,
    {
        if same_text(list[i].as_str(), text) {
            proof {
                assert(texts(list@)[i as int] == text@);
            }
            return true;
        }
        i += 1;
    }
    false
}

/// A list of strings with the same texts.
pub fn copy_texts(list: &Vec<String>) -> (r: Vec<String>)
    ensures
        texts(r@) == texts(list@),
{
    let mut out: Vec<String> = Vec::new();
    let mut i: usize = 0;
    while i < list.len()
        invariant
            i <= list.len(),
            texts(out@) == texts(list@).take(i as int),
        decreases list.len() - i,
    {
        let ghost before = out@;
        out.push(list[i].clone());
        proof {
            assert(texts(out@) == texts(before).push(list@[i as int]@));
            assert(texts(list@).take(i + 1) == texts(list@).take(i as int).push(list@[i as int]@));
        }
        i += 1;
    }
    proof {
        assert(texts(list@).take(list@.len() as int) == texts(list@));
    }
    out
}

/// An ASCII character in lower case.
pub open spec fn ascii_lower_char(c: char) -> char {
    if 65 <= c as u32 && c as u32 <= 90 {
        (c as u32 + 32) as u8 as char
    } else {
        c
    }
}

/// `s` with its ASCII letters in lower case.
pub open spec fn ascii_lower(s: Seq<char>) -> Seq<char> {
    s.map_values(|c: char| ascii_lower_char(c))
}

/// The string with its ASCII letters in lower case.
pub fn to_ascii_lower(s: &str) -> (r: String)
    ensures
        r@ == ascii_lower(s@),
{
    let chars = chars_of(s);
    let mut out = String::new();
    let mut i: usize = 0;
    while i < chars.len()
        invariant
            i <= chars.len(),
            chars@ == s@,
            out@ == ascii_lower(s@).take(i as int),
        decreases chars.len() - i,
    {
        let c: char = chars[i];
        let u: u32 = c as u32;
        let lower: char = if 65 <= u && u <= 90 {
            ((u as u8) + 32) as char
        } else {
            c
        };
        out.push(lower);
        proof {
            assert(ascii_lower(s@)[i as int] == lower);
            assert(ascii_lower(s@).take(i + 1) == ascii_lower(s@).take(i as int).push(lower));
        }
        i += 1;
    }
    proof {
        assert(ascii_lower(s@).take(s@.len() as int) == ascii_lower(s@));
    }
    out
}

/// The lower-case text that `str::to_lowercase` gives.
pub uninterp spec fn unicode_lowercase(s: Seq<char>) -> Seq<char>;

/// `str::to_lowercase`: the result is a function of the text alone, and on a text
/// of ASCII characters it is the text with its letters in lower case.
#[verifier::external_body]
pub(crate) fn to_lowercase(s: &str) -> (r: String)
    ensures
        r@ == unicode_lowercase(s@),
        s.is_ascii() ==> r@ == ascii_lower(s@),
{
    s.to_lowercase()
}

/// `s` without one carriage return at its end.
pub open spec fn without_cr(s: Seq<char>) -> Seq<char> {
    if s.len() > 0 && s.last() == '\r' {
        s.drop_last()
    } else {
        s
    }
}

/// The lines of a text: what stands before each line feed, without a carriage
/// return directly before it, and what follows the last one unless it is empty.
pub open spec fn line_list(s: Seq<char>) -> Seq<Seq<char>> {
    let parts = pieces(s, '\n');
    let ended = Seq::new((parts.len() - 1) as nat, |i: int| without_cr(parts[i]));
    if parts.last().len() > 0 {
        ended.push(parts.last())
    } else {
        ended
    }
}

pub proof fn lemma_pieces_nonempty(s: Seq<char>, c: char, start: int)
    requires
        0 <= start <= s.len(),
    ensures
        pieces_from(s, c, start).len() > 0,
{
}

/// The lines of a text.
pub fn lines_of(s: &str) -> (r: Vec<String>)
    ensures
        texts(r@) == line_list(s@),
{
    let parts = split_on(s, '\n');
    let ghost all = pieces(s@, '\n');
    proof {
        lemma_pieces_nonempty(s@, '\n', 0);
        assert(parts@.len() == all.len());
    }
    let n: usize = parts.len();
    let ghost ended = Seq::new((all.len() - 1) as nat, |i: int| without_cr(all[i]));
    let mut out: Vec<String> = Vec::new();
    let mut i: usize = 0;
    while i < n - 1
        invariant
            i <= n - 1,
            n == parts.len() == all.len(),
            texts(parts@) == all,
            ended == Seq::new((all.len() - 1) as nat, |i: int| without_cr(all[i])),
            texts(out@) == ended.take(i as int),
        decreases n - 1 - i,
    {
        let ghost before = texts(out@);
        let chars = chars_of(parts[i].as_str());
        let end: usize = if chars.len() > 0 && chars[chars.len() - 1] == '\r' {
            chars.len() - 1
        } else {
            chars.len()
        };
        let line = text_between(&chars, 0, end);
        let ghost added = line@;
        proof {
            assert(all[i as int] == parts@[i as int]@);
            assert(added == without_cr(all[i as int]));
        }
        out.push(line);
        proof {
            assert(texts(out@) == before.push(added));
            assert(ended.take(i + 1) == ended.take(i as int).push(added));
        }
        i += 1;
    }
    let ghost before = texts(out@);
    proof {
        assert(ended.take(ended.len() as int) == ended);
        assert(all.last() == parts@[n - 1]@);
    }
    if !parts[n - 1].as_str().is_empty() {
        out.push(parts[n - 1].clone());
        proof {
            assert(texts(out@) == before.push(all.last()));
        }
    }
    out
}

/// How many bytes a text takes in UTF-8.
pub open spec fn byte_len(s: Seq<char>) -> nat {
    encode_utf8(s).len()
}

/// How many bytes a character takes in UTF-8.
pub open spec fn char_width(c: char) -> nat {
    if c as u32 <= 0x7F {
        1
    } else if c as u32 <= 0x7FF {
        2
    } else if c as u32 <= 0xFFFF {
        3
    } else {
        4
    }
}

proof fn lemma_char_width(c: char)
    ensures
        encode_scalar(c as u32).len() == char_width(c),
{
    broadcast use char_is_scalar;

}

pub proof fn lemma_byte_len_concat(a: Seq<char>, b: Seq<char>)
    ensures
        byte_len(a + b) == byte_len(a) + byte_len(b),
    decreases a.len(),
{
    if a.len() == 0 {
        assert(a + b == b);
    } else {
        assert((a + b).drop_first() == a.drop_first() + b);
        lemma_byte_len_concat(a.drop_first(), b);
    }
}

/// How many bytes the text takes in UTF-8, if that is within the budget.
pub fn bytes_within(s: &str, budget: usize) -> (r: Option<usize>)
    ensures
        match r {
            Some(n) => n == byte_len(s@) && n <= budget,
            None => byte_len(s@) > budget,
        },
{
    let chars = chars_of(s);
    let mut used: usize = 0;
    let mut i: usize = 0;
    while i < chars.len()
        invariant
            i <= chars.len(),
            chars@ == s@,
            used <= budget,
            used == byte_len(s@.take(i as int)),
        decreases chars.len() - i,
    {
        let u: u32 = chars[i] as u32;
        let width: usize = if u <= 0x7F {
            1
        } else if u <= 0x7FF {
            2
        } else if u <= 0xFFFF {
            3
        } else {
            4
        };
        proof {
            let c = chars@[i as int];
            assert(s@.take(i + 1) == s@.take(i as int) + seq![c]);
            lemma_byte_len_concat(s@.take(i as int), seq![c]);
            lemma_char_width(c);
            assert(seq![c].drop_first() == Seq::<char>::empty());
            assert(encode_utf8(Seq::<char>::empty()).len() == 0);
            assert(byte_len(seq![c]) == width);
        }
        if width > budget - used {
            proof {
                assert(s@ == s@.take(i + 1) + s@.skip(i + 1));
                lemma_byte_len_concat(s@.take(i + 1), s@.skip(i + 1));
            }
            return None;
        }
        used += width;
        i += 1;
    }
    proof {
        assert(s@.take(s@.len() as int) == s@);
    }
    Some(used)
}

/// The order of texts by their characters: the first difference decides, and a
/// text comes after its beginnings.
pub open spec fn text_leq(a: Seq<char>, b: Seq<char>) -> bool
    decreases a.len(),
{
    if a.len() == 0 {
        true
    } else if b.len() == 0 {
        false
    } else if a[0] as u32 != b[0] as u32 {
        (a[0] as u32) < (b[0] as u32)
    } else {
        text_leq(a.drop_first(), b.drop_first())
    }
}

pub proof fn lemma_text_leq_total(a: Seq<char>, b: Seq<char>)
    ensures
        text_leq(a, b) || text_leq(b, a),
    decreases a.len(),
{
    if a.len() > 0 && b.len() > 0 {
        lemma_text_leq_total(a.drop_first(), b.drop_first());
    }
}

pub proof fn lemma_text_leq_trans(a: Seq<char>, b: Seq<char>, c: Seq<char>)
    requires
        text_leq(a, b),
        text_leq(b, c),
    ensures
        text_leq(a, c),
    decreases a.len(),
{
    if a.len() > 0 && b.len() > 0 && c.len() > 0 {
        if a[0] as u32 == b[0] as u32 && b[0] as u32 == c[0] as u32 {
            lemma_text_leq_trans(a.drop_first(), b.drop_first(), c.drop_first());
        }
    }
}

/// Whether the first text comes before the second or is the same.
pub fn not_after(a: &str, b: &str) -> (r: bool)
    ensures
        r == text_leq(a@, b@),
{
    let x = chars_of(a);
    let y = chars_of(b);
    let mut i: usize = 0;
    proof {
        assert(a@.skip(0) == a@);
        assert(b@.skip(0) == b@);
    }
    loop
        invariant
            i <= x.len(),
            i <= y.len(),
            x@ == a@,
            y@ == b@,
            text_leq(a@, b@) == text_leq(a@.skip(i as int), b@.skip(i as int)),
        decreases x.len() - i,
    {
        if i == x.len() {
            return true;
        }
        if i == y.len() {
            return false;
        }
        let u: u32 = x[i] as u32;
        let v: u32 = y[i] as u32;
        if u != v {
            return u < v;
        }
        proof {
            assert(a@.skip(i as int).drop_first() == a@.skip(i + 1));
            assert(b@.skip(i as int).drop_first() == b@.skip(i + 1));
        }
        i += 1;
    }
}

/// Whether texts stand in order.
pub open spec fn in_order(parts: Seq<Seq<char>>) -> bool {
    forall|i: int, j: int| 0 <= i < j < parts.len() ==> #[trigger] text_leq(parts[i], parts[j])
}

/// The strings in order.
pub fn sorted_texts(list: Vec<String>) -> (r: Vec<String>)
    ensures
        in_order(texts(r@)),
        texts(r@).to_multiset() == texts(list@).to_multiset(),
{
    let mut out: Vec<String> = Vec::new();
    let mut i: usize = 0;
    proof {
        assert(texts(list@).take(0) == Seq::<Seq<char>>::empty());
        assert(texts(out@) == Seq::<Seq<char>>::empty());
    }
    while i < list.len()
        invariant
            i <= list.len(),
            in_order(texts(out@)),
            texts(out@).to_multiset() == texts(list@).take(i as int).to_multiset(),
        decreases list.len() - i,
    {
        let item = list[i].clone();
        let ghost before = texts(out@);
        let ghost added = item@;
        let mut at: usize = 0;
        while at < out.len() && not_after(out[at].as_str(), item.as_str())
            invariant
                at <= out.len(),
                texts(out@) == before,
                added == item@,
                forall|k: int| 0 <= k < at ==> #[trigger] text_leq(before[k], added),
            decreases out.len() - at,
        {
            proof {
                assert(before[at as int] == out@[at as int]@);
            }
            at += 1;
        }
        proof {
            if at < before.len() {
                assert(before[at as int] == out@[at as int]@);
                lemma_text_leq_total(before[at as int], added);
            }
        }
        out.insert(at, item);
        proof {
            broadcast use vstd::seq_lib::group_to_multiset_ensures;

            let now = texts(out@);
            assert(now == before.insert(at as int, added));
            assert forall|p: int, q: int| 0 <= p < q < now.len() implies #[trigger] text_leq(
                now[p],
                now[q],
            ) by {
                if p < at && q == at {
                    assert(text_leq(before[p], added));
                } else if p == at {
                    assert(text_leq(added, before[at as int]));
                    if q - 1 > at {
                        assert(text_leq(before[at as int], before[q - 1]));
                        lemma_text_leq_trans(added, before[at as int], before[q - 1]);
                    }
                } else if q < at {
                    assert(text_leq(before[p], before[q]));
                } else {
                    let pp = if p < at {
                        p
                    } else {
                        p - 1
                    };
                    assert(text_leq(before[pp], before[q - 1]));
                }
            }
            assert(texts(list@).take(i + 1) == texts(list@).take(i as int).push(added));
        }
        i += 1;
    }
    proof {
        assert(texts(list@).take(list@.len() as int) == texts(list@));
    }
    out
}

/// The decimal digit for a number below 10.
pub open spec fn digit(n: nat) -> char {
    (48 + n) as u8 as char
}

/// The decimal form of a number, without leading zeros.
pub open spec fn decimal(n: nat) -> Seq<char>
    decreases n,
{
    if n < 10 {
        seq![digit(n)]
    } else {
        decimal(n / 10).push(digit(n % 10))
    }
}

/// The number that decimal digits stand for.
spec fn decimal_value(s: Seq<char>) -> int
    decreases s.len(),
{
    if s.len() == 0 {
        0
    } else {
        10 * decimal_value(s.drop_last()) + (s.last() as u32 - 48)
    }
}

proof fn lemma_decimal_value(n: nat)
    ensures
        decimal_value(decimal(n)) == n,
    decreases n,
{
    let d = (48 + n % 10) as u8;
    assert(d as char as u32 == d);
    assert(digit(n % 10) as u32 == 48 + n % 10);
    if n < 10 {
        assert(decimal(n).drop_last() == Seq::<char>::empty());
        assert(decimal_value(Seq::<char>::empty()) == 0);
    } else {
        lemma_decimal_value(n / 10);
        assert(decimal(n).drop_last() == decimal(n / 10));
    }
}

/// Two numbers with the same decimal form are equal.
pub proof fn lemma_decimal_injective(a: nat, b: nat)
    requires
        decimal(a) == decimal(b),
    ensures
        a == b,
{
    lemma_decimal_value(a);
    lemma_decimal_value(b);
}

/// The decimal form of a signed number.
pub open spec fn signed_decimal(n: int) -> Seq<char> {
    if n < 0 {
        "-"@ + decimal((-n) as nat)
    } else {
        decimal(n as nat)
    }
}

/// Appends the decimal form of a number.
pub fn push_decimal(out: &mut String, n: u128)
    ensures
        final(out)@ == old(out)@ + decimal(n as nat),
    decreases n,
{
    if n >= 10 {
        push_decimal(out, n / 10);
    }
    let d: u8 = (n % 10) as u8;
    out.push((48u8 + d) as char);
}

/// The decimal form of a signed number.
pub fn signed_text(n: i64) -> (r: String)
    ensures
        r@ == signed_decimal(n as int),
{
    let mut out = String::new();
    if n < 0 {
        out.append("-");
        let size: u128 = (-(n as i128)) as u128;
        push_decimal(&mut out, size);
    } else {
        push_decimal(&mut out, n as u128);
    }
    out
}

/// The decimal form of a number.
pub fn decimal_text(n: u64) -> (r: String)
    ensures
        r@ == decimal(n as nat),
{
    let mut out = String::new();
    push_decimal(&mut out, n as u128);
    out
}

/// A text begins or ends with another exactly if the other, with something behind or in
/// front of it, makes up the text; it holds the other exactly if there is something, or
/// nothing, around it.
pub proof fn parts_make_up_the_text(s: Seq<char>, part: Seq<char>)
    ensures
        has_prefix(s, part) <==> exists|rest: Seq<char>| s == #[trigger] (part + rest),
        has_suffix(s, part) <==> exists|rest: Seq<char>| s == #[trigger] (rest + part),
        has_part(s, part) <==> exists|before: Seq<char>, behind: Seq<char>|
            s == #[trigger] (before + part + behind),
{
    let n = part.len() as int;
    if has_prefix(s, part) {
        assert(s == part + s.skip(n));
    }
    if exists|rest: Seq<char>| s == #[trigger] (part + rest) {
        let rest = choose|rest: Seq<char>| s == #[trigger] (part + rest);
        assert(s.subrange(0, n) == part);
    }
    if has_suffix(s, part) {
        assert(s == s.take(s.len() - n) + part);
    }
    if exists|rest: Seq<char>| s == #[trigger] (rest + part) {
        let rest = choose|rest: Seq<char>| s == #[trigger] (rest + part);
        assert(s.subrange(s.len() - n, s.len() as int) == part);
    }
    if has_part(s, part) {
        let at = choose|at: int| occurs_at(s, part, at);
        assert(s == s.take(at) + part + s.skip(at + n));
    }
    if exists|before: Seq<char>, behind: Seq<char>| s == #[trigger] (before + part + behind) {
        let (before, behind) = choose|before: Seq<char>, behind: Seq<char>|
            s == #[trigger] (before + part + behind);
        assert(s.subrange(before.len() as int, before.len() + n) == part);
        assert(occurs_at(s, part, before.len() as int));
    }
}

/// Trimming takes away exactly the white space around a text.
pub proof fn trimming_takes_the_space_around(before: Seq<char>, s: Seq<char>, behind: Seq<char>)
    requires
        forall|i: int| 0 <= i < before.len() ==> white_space(#[trigger] before[i]),
        forall|i: int| 0 <= i < behind.len() ==> white_space(#[trigger] behind[i]),
        s.len() > 0 ==> !white_space(s[0]) && !white_space(s.last()),
    ensures
        trimmed(before + s + behind) == s,
{
    lemma_trim_start_takes(before, s + behind);
    assert(before + s + behind == before + (s + behind));
    if s.len() > 0 {
        assert((s + behind)[0] == s[0]);
        assert(trim_start(s + behind) == s + behind);
        lemma_trim_end_takes(s, behind);
    } else {
        assert(s + behind == behind);
        let none = Seq::<char>::empty();
        assert(behind + none == behind);
        lemma_trim_start_takes(behind, none);
        assert(trim_start(none) == none);
        assert(trim_end(none) == none);
    }
}

proof fn lemma_trim_start_takes(before: Seq<char>, s: Seq<char>)
    requires
        forall|i: int| 0 <= i < before.len() ==> white_space(#[trigger] before[i]),
    ensures
        trim_start(before + s) == trim_start(s),
    decreases before.len(),
{
    if before.len() > 0 {
        assert((before + s)[0] == before[0]);
        assert((before + s).drop_first() == before.drop_first() + s);
        assert forall|i: int| 0 <= i < before.drop_first().len() implies white_space(
            #[trigger] before.drop_first()[i],
        ) by {
            assert(before.drop_first()[i] == before[i + 1]);
        }
        lemma_trim_start_takes(before.drop_first(), s);
    } else {
        assert(before + s == s);
    }
}

proof fn lemma_trim_end_takes(s: Seq<char>, behind: Seq<char>)
    requires
        s.len() > 0,
        !white_space(s.last()),
        forall|i: int| 0 <= i < behind.len() ==> white_space(#[trigger] behind[i]),
    ensures
        trim_end(s + behind) == s,
    decreases behind.len(),
{
    if behind.len() > 0 {
        assert((s + behind).last() == behind.last());
        assert(behind.last() == behind[behind.len() - 1]);
        assert((s + behind).drop_last() == s + behind.drop_last());
        assert forall|i: int| 0 <= i < behind.drop_last().len() implies white_space(
            #[trigger] behind.drop_last()[i],
        ) by {
            assert(behind.drop_last()[i] == behind[i]);
        }
        lemma_trim_end_takes(s, behind.drop_last());
    } else {
        assert(s + behind == s);
    }
}

proof fn lemma_position_behind(a: Seq<char>, b: Seq<char>, i: int, c: char)
    requires
        0 <= i <= b.len(),
    ensures
        position_from(a + b, a.len() + i, c) == a.len() + position_from(b, i, c),
    decreases b.len() - i,
{
    if i < b.len() {
        assert((a + b)[a.len() + i] == b[i]);
        if b[i] != c {
            lemma_position_behind(a, b, i + 1, c);
        }
    }
}

proof fn lemma_pieces_behind(a: Seq<char>, b: Seq<char>, c: char, i: int)
    requires
        0 <= i <= b.len(),
    ensures
        pieces_from(a + b, c, a.len() + i) == pieces_from(b, c, i),
    decreases b.len() + 1 - i,
{
    lemma_position_behind(a, b, i, c);
    lemma_position_first(b, i, c);
    let at = position_from(b, i, c);
    if at >= b.len() {
        assert((a + b).skip(a.len() + i) == b.skip(i));
    } else {
        assert((a + b).subrange(a.len() + i, a.len() + at) == b.subrange(i, at));
        lemma_pieces_behind(a, b, c, at + 1);
    }
}

/// A text is cut at each place where the character stands, and nowhere else: what stands
/// before the first of them is the first piece, and the rest is cut in turn.
pub proof fn texts_are_cut_at_each_place(first: Seq<char>, c: char, rest: Seq<char>)
    requires
        !first.contains(c),
    ensures
        pieces(first, c) == seq![first],
        pieces(first.push(c) + rest, c) == seq![first] + pieces(rest, c),
{
    assert forall|j: int| 0 <= j < first.len() implies first[j] != c by {
        assert(first.contains(first[j]));
    }
    lemma_position_is(first, 0, c, first.len() as int);
    assert(first.skip(0) == first);
    let start = first.push(c);
    let s = start + rest;
    assert forall|j: int| 0 <= j < first.len() implies s[j] == first[j] by {}
    assert(s[first.len() as int] == c);
    lemma_position_is(s, 0, c, first.len() as int);
    assert(s.subrange(0, first.len() as int) == first);
    lemma_pieces_behind(start, rest, c, 0);
}

/// The lines of a text are what stands before each line feed, without one carriage return
/// before it, and what follows the last line feed, unless that is empty.
pub proof fn lines_end_at_line_feeds(line: Seq<char>, rest: Seq<char>)
    requires
        !line.contains('\n'),
    ensures
        line_list(Seq::empty()) == Seq::<Seq<char>>::empty(),
        line.len() > 0 ==> line_list(line) == seq![line],
        line_list(line.push('\r').push('\n') + rest) == seq![line] + line_list(rest),
        line.len() == 0 || line.last() != '\r' ==> line_list(line.push('\n') + rest) == seq![line]
            + line_list(rest),
{
    let none = Seq::<char>::empty();
    texts_are_cut_at_each_place(none, '\n', rest);
    assert(line_list(none) == Seq::<Seq<char>>::empty());
    texts_are_cut_at_each_place(line, '\n', rest);
    lemma_pieces_nonempty(rest, '\n', 0);
    let more = pieces(rest, '\n');
    let returned = line.push('\r');
    assert(!returned.contains('\n')) by {
        if returned.contains('\n') {
            let j = choose|j: int| 0 <= j < returned.len() && returned[j] == '\n';
            assert(line[j] == '\n');
        }
    }
    texts_are_cut_at_each_place(returned, '\n', rest);
    assert(returned.drop_last() == line);
    assert((seq![returned] + more).last() == more.last());
    assert((seq![line] + more).last() == more.last());
    if line.len() > 0 {
        assert(line_list(line) == seq![line]);
    }
    assert(line_list(returned.push('\n') + rest) == seq![line] + line_list(rest));
    if line.len() == 0 || line.last() != '\r' {
        assert(line_list(line.push('\n') + rest) == seq![line] + line_list(rest));
    }
}

/// Joined texts stand one behind the other, with the separator between each two.
pub proof fn joining_adds_separators_between(
    parts: Seq<Seq<char>>,
    last: Seq<char>,
    separator: Seq<char>,
)
    ensures
        joined(Seq::empty(), separator) == Seq::<char>::empty(),
        joined(seq![last], separator) == last,
        parts.len() > 0 ==> joined(parts.push(last), separator) == joined(parts, separator) + separator
            + last,
{
    assert(parts.push(last).drop_last() == parts);
}

/// Texts are ordered by the first place at which they differ; where one is the beginning of
/// the other, the shorter one comes first.
pub proof fn the_first_difference_orders(
    common: Seq<char>,
    a: char,
    b: char,
    rest: Seq<char>,
    other: Seq<char>,
)
    ensures
        text_leq(common, common + rest),
        rest.len() > 0 ==> !text_leq(common + rest, common),
        (a as u32) < (b as u32) ==> text_leq(common.push(a) + rest, common.push(b) + other)
            && !text_leq(common.push(b) + other, common.push(a) + rest),
    decreases common.len(),
{
    let x = common.push(a) + rest;
    let y = common.push(b) + other;
    if common.len() > 0 {
        let tail = common.drop_first();
        the_first_difference_orders(tail, a, b, rest, other);
        assert((common + rest)[0] == common[0]);
        assert((common + rest).drop_first() == tail + rest);
        assert(x[0] == common[0] && y[0] == common[0]);
        assert(x.drop_first() == tail.push(a) + rest);
        assert(y.drop_first() == tail.push(b) + other);
    } else {
        assert(x[0] == a && y[0] == b);
        assert(common + rest == rest);
    }
}

/// What is found is the first place: the part stands there and nowhere before.
pub proof fn the_first_place_is_found(s: Seq<char>, part: Seq<char>, from: int)
    requires
        0 <= from <= s.len(),
    ensures
        find_from(s, part, from) matches Some(at) ==> from <= at && occurs_at(s, part, at) && forall|
            j: int,
        |
            from <= j < at ==> !#[trigger] occurs_at(s, part, j),
        find_from(s, part, from) is None ==> forall|j: int|
            from <= j ==> !#[trigger] occurs_at(s, part, j),
    decreases s.len() - from,
{
    if !occurs_at(s, part, from) {
        if from < s.len() {
            the_first_place_is_found(s, part, from + 1);
        } else {
            assert(find_from(s, part, from + 1) is None);
            assert forall|j: int| from <= j implies !#[trigger] occurs_at(s, part, j) by {
                if j > from {
                    assert(j > s.len());
                }
            }
        }
    }
}

/// Lower case changes the capital letters of ASCII, each to its own small letter, and nothing
/// else.
pub proof fn lower_case_changes_capitals_only(s: Seq<char>, i: int)
    requires
        0 <= i < s.len(),
    ensures
        ascii_lower(s).len() == s.len(),
        65 <= s[i] as u32 <= 90 ==> ascii_lower(s)[i] as u32 == s[i] as u32 + 32,
        (s[i] as u32) < 65 || s[i] as u32 > 90 ==> ascii_lower(s)[i] == s[i],
{
}

/// Decimal numbers are written digit by digit, the highest first, without leading zeros.
pub proof fn decimals_are_written_digit_by_digit(n: nat, d: nat)
    requires
        d < 10,
    ensures
        decimal(d) == seq![digit(d)],
        n > 0 ==> decimal(10 * n + d) == decimal(n).push(digit(d)),
        n > 0 ==> decimal(n)[0] != '0',
        digit(0) == '0' && digit(1) == '1' && digit(5) == '5' && digit(9) == '9',
    decreases n,
{
    if n > 0 {
        assert((10 * n + d) / 10 == n);
        assert((10 * n + d) % 10 == d);
        if n >= 10 {
            decimals_are_written_digit_by_digit(n / 10, n % 10);
            assert(decimal(n) == decimal(n / 10).push(digit(n % 10)));
            assert(decimal(n / 10).len() > 0);
        }
    }
}

/// White space are the blank, the characters that end lines or move the pen, and the blanks of
/// other widths; no visible character of ASCII is white space.
pub proof fn visible_characters_are_no_white_space(c: char)
    ensures
        white_space(' ') && white_space('\t') && white_space('\n') && white_space('\r'),
        0x21 <= c as u32 <= 0x7E ==> !white_space(c),
        c as u32 > 0x3000 ==> !white_space(c),
        white_space(c) && c as u32 > 0x20 ==> c as u32 == 0x85 || c as u32 == 0xA0 || c as u32
            == 0x1680 || 0x2000 <= c as u32 <= 0x205F || c as u32 == 0x3000,
        c as u32 == 0x85 || c as u32 == 0xA0 || c as u32 == 0x3000 ==> white_space(c),
{
}

} // verus!
