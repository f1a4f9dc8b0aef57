//! Operations on text, stated over sequences of characters.

use vstd::prelude::*;

verus! {

/// A set of characters that a trimming operation removes.
#[derive(Clone, Copy, Debug)]
pub enum CharClass {
    /// The characters with the Unicode property `White_Space`.
    WhiteSpace,
    /// One given character.
    Exactly(char),
}

/// Whether `c` has the Unicode property `White_Space`.
pub open spec fn is_white_space(c: char) -> bool {
    ||| c == ' '
    ||| ('\u{9}' <= c && c <= '\u{d}')
    ||| c == '\u{85}'
    ||| c == '\u{a0}'
    ||| c == '\u{1680}'
    ||| ('\u{2000}' <= c && c <= '\u{200a}')
    ||| c == '\u{2028}'
    ||| c == '\u{2029}'
    ||| c == '\u{202f}'
    ||| c == '\u{205f}'
    ||| c == '\u{3000}'
}

impl CharClass {
    /// Whether `c` belongs to the class.
    pub open spec fn holds(self, c: char) -> bool {
        match self {
            CharClass::WhiteSpace => is_white_space(c),
            CharClass::Exactly(x) => c == x,
        }
    }

    /// Decides [`CharClass::holds`].
    pub fn test(&self, c: char) -> (b: bool)
        ensures
            b == self.holds(c),
    {
        match self {
            CharClass::WhiteSpace => {
                c == ' ' || ('\u{9}' <= c && c <= '\u{d}') || c == '\u{85}' || c == '\u{a0}' || c
                    == '\u{1680}' || ('\u{2000}' <= c && c <= '\u{200a}') || c == '\u{2028}' || c
                    == '\u{2029}' || c == '\u{202f}' || c == '\u{205f}' || c == '\u{3000}'
            },
            CharClass::Exactly(x) => c == *x,
        }
    }
}

/// `s` without its longest prefix made of characters of `class`.
pub open spec fn trim_start_of(s: Seq<char>, class: CharClass) -> Seq<char>
    decreases s.len(),
{
    if s.len() > 0 && class.holds(s[0]) {
        trim_start_of(s.drop_first(), class)
    } else {
        s
    }
}

/// `s` without its longest suffix made of characters of `class`.
pub open spec fn trim_end_of(s: Seq<char>, class: CharClass) -> Seq<char>
    decreases s.len(),
{
    if s.len() > 0 && class.holds(s.last()) {
        trim_end_of(s.drop_last(), class)
    } else {
        s
    }
}

/// `s` without leading and trailing white space.
pub open spec fn trim_of(s: Seq<char>) -> Seq<char> {
    trim_end_of(trim_start_of(s, CharClass::WhiteSpace), CharClass::WhiteSpace)
}

/// The position of the first `c` in `s`, or the length of `s` if there is none.
pub open spec fn position_of(s: Seq<char>, c: char) -> int
    decreases s.len(),
{
    if s.len() == 0 || s[0] == c {
        0
    } else {
        1 + position_of(s.drop_first(), c)
    }
}

/// The pieces of `s` between occurrences of `c`; never empty.
pub open spec fn split_on(s: Seq<char>, c: char) -> Seq<Seq<char>>
    decreases s.len(),
{
    let i = position_of(s, c);
    if 0 <= i < s.len() {
        seq![s.take(i)] + split_on(s.skip(i + 1), c)
    } else {
        seq![s]
    }
}

/// The pieces in order, with `sep` between each two neighbours.
pub open spec fn join_with(parts: Seq<Seq<char>>, sep: Seq<char>) -> Seq<char>
    decreases parts.len(),
{
    if parts.len() == 0 {
        Seq::empty()
    } else if parts.len() == 1 {
        parts[0]
    } else {
        join_with(parts.drop_last(), sep) + sep + parts.last()
    }
}

/// The sequences of `parts`, one after the other.
pub open spec fn concat_all<T>(parts: Seq<Seq<T>>) -> Seq<T>
    decreases parts.len(),
{
    if parts.len() == 0 {
        Seq::empty()
    } else {
        concat_all(parts.drop_last()) + parts.last()
    }
}

/// `n` copies of `unit`, one after the other.
pub open spec fn repeat_of(unit: Seq<char>, n: nat) -> Seq<char>
    decreases n,
{
    if n == 0 {
        Seq::empty()
    } else {
        repeat_of(unit, (n - 1) as nat) + unit
    }
}

/// Whether `s` begins with `n` spaces.
pub open spec fn starts_with_spaces(s: Seq<char>, n: nat) -> bool {
    n <= s.len() && forall|i: int| 0 <= i < n ==> s[i] == ' '
}

/// `s` without one leading run of `n` spaces, where it begins with one.
pub open spec fn strip_indent(s: Seq<char>, n: nat) -> Seq<char> {
    if starts_with_spaces(s, n) {
        s.skip(n as int)
    } else {
        s
    }
}

/// `s` without as many leading runs of `n` spaces as it begins with.
pub open spec fn strip_indent_repeated(s: Seq<char>, n: nat) -> Seq<char>
    decreases s.len(),
{
    if n > 0 && starts_with_spaces(s, n) {
        strip_indent_repeated(s.skip(n as int), n)
    } else {
        s
    }
}

/// Whether two line feeds in a row begin at position `i` of `s`.
pub open spec fn blank_line_at(s: Seq<char>, i: int) -> bool {
    0 <= i && i + 1 < s.len() && s[i] == '\n' && s[i + 1] == '\n'
}

/// The part of `s` before its first blank line, that is before the first two
/// line feeds in a row.
pub open spec fn first_paragraph(s: Seq<char>) -> Seq<char>
    decreases s.len(),
{
    if s.len() == 0 || blank_line_at(s, 0) {
        Seq::empty()
    } else {
        seq![s[0]] + first_paragraph(s.drop_first())
    }
}

/// The views of the strings of `v`, in order.
pub open spec fn views_of(v: Seq<String>) -> Seq<Seq<char>> {
    v.map_values(|s: String| s@)
}

/// Scanning from the left stops where trimming does.
pub proof fn lemma_trim_start_skip(s: Seq<char>, class: CharClass, n: int)
    requires
        0 <= n <= s.len(),
        forall|i: int| 0 <= i < n ==> class.holds(s[i]),
    ensures
        trim_start_of(s, class) == trim_start_of(s.skip(n), class),
    decreases n,
{
    if n > 0 {
        assert(s.drop_first().skip(n - 1) =~= s.skip(n));
        lemma_trim_start_skip(s.drop_first(), class, n - 1);
    } else {
        assert(s.skip(0) =~= s);
    }
}

/// Scanning from the right stops where trimming does.
pub proof fn lemma_trim_end_take(s: Seq<char>, class: CharClass, n: int)
    requires
        0 <= n <= s.len(),
        forall|i: int| n <= i < s.len() ==> class.holds(s[i]),
    ensures
        trim_end_of(s, class) == trim_end_of(s.take(n), class),
    decreases s.len() - n,
{
    if n < s.len() {
        assert(s.drop_last().take(n) =~= s.take(n));
        lemma_trim_end_take(s.drop_last(), class, n);
    } else {
        assert(s.take(n) =~= s);
    }
}

/// What is left after trimming at the end is a prefix of the text, and what
/// was removed belongs to the class.
pub proof fn lemma_trim_end_is_prefix(s: Seq<char>, class: CharClass)
    ensures
        trim_end_of(s, class).len() <= s.len(),
        trim_end_of(s, class) == s.take(trim_end_of(s, class).len() as int),
        forall|i: int| trim_end_of(s, class).len() <= i < s.len() ==> class.holds(s[i]),
        trim_end_of(s, class).len() > 0 ==> !class.holds(trim_end_of(s, class).last()),
    decreases s.len(),
{
    if s.len() > 0 && class.holds(s.last()) {
        lemma_trim_end_is_prefix(s.drop_last(), class);
        let t = trim_end_of(s.drop_last(), class);
        assert(s.drop_last().take(t.len() as int) =~= s.take(t.len() as int));
        assert forall|i: int| t.len() <= i < s.len() implies class.holds(s[i]) by {
            if i < s.len() - 1 {
                assert(s.drop_last()[i] == s[i]);
            }
        }
    } else {
        assert(s.take(s.len() as int) =~= s);
    }
}

/// The first `c` of `s` is where a scan from the left finds it.
pub proof fn lemma_position_of(s: Seq<char>, c: char, n: int)
    requires
        0 <= n <= s.len(),
        forall|i: int| 0 <= i < n ==> s[i] != c,
        n == s.len() || s[n] == c,
    ensures
        position_of(s, c) == n,
    decreases n,
{
    if n > 0 {
        lemma_position_of(s.drop_first(), c, n - 1);
    }
}

/// Joining one more piece appends the separator and the piece.
pub proof fn lemma_join_push(parts: Seq<Seq<char>>, sep: Seq<char>, piece: Seq<char>)
    ensures
        join_with(parts.push(piece), sep) == if parts.len() == 0 {
            piece
        } else {
            join_with(parts, sep) + sep + piece
        },
{
    assert(parts.push(piece).drop_last() =~= parts);
}

/// The characters of `s`, in order.
pub fn to_chars(s: &str) -> (v: Vec<char>)
    ensures
        v@ == s@,
{
    let mut v: Vec<char> = Vec::new();
    for c in iter: s.chars()
        invariant
            v@ == iter.seq().take(iter.index() as int),
            iter.seq() == s@,
    {
        v.push(c);
    }
    v
}

/// The number of leading characters of `chars[from..]` that belong to `class`.
pub fn count_leading(chars: &Vec<char>, from: usize, class: CharClass) -> (n: usize)
    requires
        from <= chars.len(),
    ensures
        from + n <= chars.len(),
        chars@.skip(from + n) == trim_start_of(chars@.skip(from as int), class),
{
    let mut i: usize = from;
    while i < chars.len() && class.test(chars[i])
        invariant
            from <= i <= chars.len(),
            forall|k: int| from <= k < i ==> class.holds(chars@[k]),
        decreases chars.len() - i,
    {
        i = i + 1;
    }
    proof {
        let s = chars@.skip(from as int);
        lemma_trim_start_skip(s, class, i - from);
        assert(s.skip(i - from) =~= chars@.skip(i as int));
    }
    i - from
}

/// The length of `chars[..upto]` once its trailing characters of `class` are
/// removed.
pub fn trimmed_end(chars: &Vec<char>, upto: usize, class: CharClass) -> (n: usize)
    requires
        upto <= chars.len(),
    ensures
        n <= upto,
        chars@.take(n as int) == trim_end_of(chars@.take(upto as int), class),
{
    let mut i: usize = upto;
    while i > 0 && class.test(chars[i - 1])
        invariant
            i <= upto <= chars.len(),
            forall|k: int| i <= k < upto ==> class.holds(chars@[k]),
        decreases i,
    {
        i = i - 1;
    }
    proof {
        let s = chars@.take(upto as int);
        lemma_trim_end_take(s, class, i as int);
        assert(s.take(i as int) =~= chars@.take(i as int));
    }
    i
}

/// The characters of `s` from position `from` up to position `to`.
pub fn slice(s: &str, from: usize, to: usize) -> (r: String)
    requires
        from <= to <= s@.len(),
    ensures
        r@ == s@.subrange(from as int, to as int),
{
    String::from_str(s.substring_char(from, to))
}

/// `s` without trailing characters of `class`.
pub fn trim_end_matches(s: &str, class: CharClass) -> (r: String)
    ensures
        r@ == trim_end_of(s@, class),
{
    let chars = to_chars(s);
    let n = trimmed_end(&chars, chars.len(), class);
    proof {
        assert(chars@.take(chars.len() as int) =~= chars@);
    }
    slice(s, 0, n)
}

/// `s` without leading characters of `class`.
pub fn trim_start_matches(s: &str, class: CharClass) -> (r: String)
    ensures
        r@ == trim_start_of(s@, class),
{
    let chars = to_chars(s);
    let n = count_leading(&chars, 0, class);
    proof {
        assert(chars@.skip(0) =~= chars@);
        assert(chars@.skip(n as int) =~= s@.subrange(n as int, s@.len() as int));
    }
    slice(s, n, chars.len())
}

/// `s` without trailing white space.
pub fn trim_end(s: &str) -> (r: String)
    ensures
        r@ == trim_end_of(s@, CharClass::WhiteSpace),
{
    trim_end_matches(s, CharClass::WhiteSpace)
}

/// `s` without leading white space.
pub fn trim_start(s: &str) -> (r: String)
    ensures
        r@ == trim_start_of(s@, CharClass::WhiteSpace),
{
    trim_start_matches(s, CharClass::WhiteSpace)
}

/// `s` without leading and trailing white space.
pub fn trim(s: &str) -> (r: String)
    ensures
        r@ == trim_of(s@),
{
    let chars = to_chars(s);
    let lead = count_leading(&chars, 0, CharClass::WhiteSpace);
    let rest = slice(s, lead, chars.len());
    proof {
        assert(chars@.skip(0) =~= chars@);
        assert(chars@.skip(lead as int) =~= s@.subrange(lead as int, s@.len() as int));
    }
    trim_end(rest.as_str())
}

/// Where `s` has no `c`, it is its own single piece.
pub proof fn lemma_split_none(s: Seq<char>, c: char)
    requires
        forall|i: int| 0 <= i < s.len() ==> s[i] != c,
    ensures
        split_on(s, c) == seq![s],
{
    lemma_position_of(s, c, s.len() as int);
}

/// Where the first `c` of `s` is at `n`, the first piece ends there.
pub proof fn lemma_split_at(s: Seq<char>, c: char, n: int)
    requires
        0 <= n < s.len(),
        forall|i: int| 0 <= i < n ==> s[i] != c,
        s[n] == c,
    ensures
        split_on(s, c) == seq![s.take(n)] + split_on(s.skip(n + 1), c),
{
    lemma_position_of(s, c, n);
}

/// The pieces of `s` between occurrences of `c`.
pub fn split(s: &str, c: char) -> (parts: Vec<String>)
    ensures
        views_of(parts@) == split_on(s@, c),
{
    let chars = to_chars(s);
    let mut parts: Vec<String> = Vec::new();
    let mut start: usize = 0;
    let mut i: usize = 0;
    proof {
        assert(s@.skip(0) =~= s@);
        assert(views_of(parts@) =~= Seq::<Seq<char>>::empty());
    }
    while i < chars.len()
        invariant
            chars@ == s@,
            start <= i <= chars.len(),
            forall|k: int| start <= k < i ==> chars@[k] != c,
            split_on(s@, c) == views_of(parts@) + split_on(s@.skip(start as int), c),
        decreases chars.len() - i,
    {
        if chars[i] == c {
            let piece = slice(s, start, i);
            proof {
                let rest = s@.skip(start as int);
                lemma_split_at(rest, c, i - start);
                assert(rest.take(i - start) =~= piece@);
                assert(rest.skip(i - start + 1) =~= s@.skip(i + 1));
                assert(views_of(parts@.push(piece)) =~= views_of(parts@).push(piece@));
            }
            parts.push(piece);
            start = i + 1;
        }
        i = i + 1;
    }
    let piece = slice(s, start, chars.len());
    proof {
        let rest = s@.skip(start as int);
        lemma_split_none(rest, c);
        assert(rest =~= piece@);
        assert(views_of(parts@.push(piece)) =~= views_of(parts@).push(piece@));
    }
    parts.push(piece);
    parts
}

/// The strings of `parts` in order, with `sep` between each two neighbours.
pub fn join(parts: &Vec<String>, sep: &str) -> (r: String)
    ensures
        r@ == join_with(views_of(parts@), sep@),
{
    let mut r = String::new();
    let mut i: usize = 0;
    proof {
        assert(views_of(parts@.take(0)) =~= Seq::<Seq<char>>::empty());
    }
    while i < parts.len()
        invariant
            i <= parts.len(),
            r@ == join_with(views_of(parts@.take(i as int)), sep@),
        decreases parts.len() - i,
    {
        proof {
            let done = views_of(parts@.take(i as int));
            assert(views_of(parts@.take(i + 1)) =~= done.push(parts@[i as int]@));
            lemma_join_push(done, sep@, parts@[i as int]@);
        }
        if i > 0 {
            r.append(sep);
        }
        r.append(parts[i].as_str());
        i = i + 1;
    }
    proof {
        assert(parts@.take(parts.len() as int) =~= parts@);
    }
    r
}

/// Whether `chars[from..]` begins with `n` spaces.
pub fn begins_with_spaces(chars: &Vec<char>, from: usize, n: u64) -> (b: bool)
    requires
        from <= chars.len(),
    ensures
        b == starts_with_spaces(chars@.skip(from as int), n as nat),
        b ==> from + n <= chars.len(),
{
    if ((chars.len() - from) as u64) < n {
        return false;
    }
    let count: usize = n as usize;
    let mut i: usize = 0;
    while i < count
        invariant
            i <= count,
            count == n,
            from + count <= chars.len(),
            forall|k: int| 0 <= k < i ==> chars@.skip(from as int)[k] == ' ',
        decreases count - i,
    {
        if chars[from + i] != ' ' {
            assert(chars@.skip(from as int)[i as int] != ' ');
            return false;
        }
        i = i + 1;
    }
    true
}

/// `s` without one leading run of `n` spaces, where it begins with one.
pub fn remove_indent(s: &str, n: u64) -> (r: String)
    ensures
        r@ == strip_indent(s@, n as nat),
{
    let chars = to_chars(s);
    proof {
        assert(chars@.skip(0) =~= chars@);
    }
    if begins_with_spaces(&chars, 0, n) {
        slice(s, n as usize, chars.len())
    } else {
        slice(s, 0, chars.len())
    }
}

/// `s` without as many leading runs of `n` spaces as it begins with.
pub fn remove_indent_repeated(s: &str, n: u64) -> (r: String)
    ensures
        r@ == strip_indent_repeated(s@, n as nat),
{
    let chars = to_chars(s);
    let mut from: usize = 0;
    proof {
        assert(chars@.skip(0) =~= chars@);
    }
    while n > 0 && begins_with_spaces(&chars, from, n)
        invariant
            chars@ == s@,
            from <= chars.len(),
            strip_indent_repeated(s@, n as nat) == strip_indent_repeated(
                s@.skip(from as int),
                n as nat,
            ),
        decreases chars.len() - from,
    {
        proof {
            assert(s@.skip(from as int).skip(n as int) =~= s@.skip(from + n));
        }
        from = from + n as usize;
    }
    slice(s, from, chars.len())
}

/// Scanning from the left finds where the first paragraph ends.
pub proof fn lemma_first_paragraph(s: Seq<char>, n: int)
    requires
        0 <= n <= s.len(),
        forall|i: int| 0 <= i < n ==> !blank_line_at(s, i),
        n == s.len() || blank_line_at(s, n),
    ensures
        first_paragraph(s) == s.take(n),
    decreases n,
{
    if n > 0 {
        let t = s.drop_first();
        assert forall|i: int| 0 <= i < n - 1 implies !blank_line_at(t, i) by {
            assert(!blank_line_at(s, i + 1));
        }
        assert(!blank_line_at(s, 0));
        lemma_first_paragraph(t, n - 1);
        assert(seq![s[0]] + t.take(n - 1) =~= s.take(n));
    } else {
        assert(s.take(0) =~= Seq::<char>::empty());
    }
}

/// The part of `s` before its first blank line.
pub fn leading_paragraph(s: &str) -> (r: String)
    ensures
        r@ == first_paragraph(s@),
{
    let chars = to_chars(s);
    let mut i: usize = 0;
    while i < chars.len() && !(chars.len() - i >= 2 && chars[i] == '\n' && chars[i + 1] == '\n')
        invariant
            i <= chars.len(),
            forall|k: int| 0 <= k < i ==> !blank_line_at(chars@, k),
        decreases chars.len() - i,
    {
        i = i + 1;
    }
    proof {
        lemma_first_paragraph(s@, i as int);
    }
    slice(s, 0, i)
}

/// `n` copies of `unit`, one after the other.
pub fn repeat(unit: &str, n: usize) -> (r: String)
    ensures
        r@ == repeat_of(unit@, n as nat),
{
    let mut r = String::new();
    let mut i: usize = 0;
    while i < n
        invariant
            i <= n,
            r@ == repeat_of(unit@, i as nat),
        decreases n - i,
    {
        r.append(unit);
        i = i + 1;
    }
    r
}

} // verus!
