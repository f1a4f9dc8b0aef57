//! The text of a source file, ranges in it, and the comments found in it.

use crate::text::{is_white_space, slice, to_chars, CharClass};
use vstd::prelude::*;
use vstd::utf8::{
    decode_utf8, decode_utf8_split, encode_utf8, encode_utf8_decode_utf8, encode_utf8_valid_utf8,
    is_char_boundary, valid_utf8_split,
};

verus! {

/// A range of a source file. Positions count characters from the start of the
/// file. `line` and `col` say where `lo` falls, as the parser's source map
/// reports it; nothing here computes with them.
#[derive(Clone, Copy, Debug)]
pub struct Span {
    pub lo: u32,
    pub hi: u32,
    pub line: usize,
    pub col: usize,
}

impl Span {
    /// Whether the range is well formed and ends within a text of `len`
    /// characters.
    pub open spec fn within(self, len: nat) -> bool {
        self.lo <= self.hi && self.hi <= len
    }

    /// Whether the range is well formed and lies within `outer`.
    pub open spec fn inside(self, outer: Span) -> bool {
        outer.lo <= self.lo && self.lo <= self.hi && self.hi <= outer.hi
    }

    /// Decides [`Span::inside`].
    pub fn is_inside(&self, outer: &Span) -> (b: bool)
        ensures
            b == self.inside(*outer),
    {
        outer.lo <= self.lo && self.lo <= self.hi && self.hi <= outer.hi
    }
}

/// Where a declaration stands: the file, and the line and column of its
/// first character.
#[derive(Debug)]
pub struct Location {
    pub filename: String,
    pub line: usize,
    pub col: usize,
}

/// The view of a [`Location`].
pub ghost struct LocationView {
    pub filename: Seq<char>,
    pub line: nat,
    pub col: nat,
}

impl View for Location {
    type V = LocationView;

    open spec fn view(&self) -> LocationView {
        LocationView { filename: self.filename@, line: self.line as nat, col: self.col as nat }
    }
}

/// The position at which the last line of `s` begins: just after its last
/// line feed, or 0 where it has none.
pub open spec fn last_line_start(s: Seq<char>) -> int
    decreases s.len(),
{
    if s.len() == 0 || s.last() == '\n' {
        s.len() as int
    } else {
        last_line_start(s.drop_last())
    }
}

/// The number of bytes that the UTF-8 encoding of `c` takes.
pub open spec fn utf8_width(c: char) -> nat {
    if '\u{80}' > c {
        1
    } else if '\u{800}' > c {
        2
    } else if '\u{10000}' > c {
        3
    } else {
        4
    }
}

/// The number of bytes that the white space at the start of `s` takes in
/// UTF-8.
pub open spec fn indent_width(s: Seq<char>) -> nat
    decreases s.len(),
{
    if s.len() > 0 && is_white_space(s[0]) {
        utf8_width(s[0]) + indent_width(s.drop_first())
    } else {
        0
    }
}

/// The margin of position `lo` in `text`: the width of the white space that
/// begins the line on which `lo` falls, counted up to `lo`.
pub open spec fn margin_of(text: Seq<char>, lo: int) -> nat {
    let before = text.take(lo);
    indent_width(before.skip(last_line_start(before)))
}

/// The margin of the line on which `span` begins, for a range that lies
/// within the text; there is none for any other range.
pub open spec fn margin_at(text: Seq<char>, span: Span) -> Option<nat> {
    if span.within(text.len()) {
        Some(margin_of(text, span.lo as int))
    } else {
        None
    }
}

/// A scan from the right finds where the last line begins.
pub proof fn lemma_last_line_start(s: Seq<char>, n: int)
    requires
        0 <= n <= s.len(),
        forall|i: int| n <= i < s.len() ==> s[i] != '\n',
        n == 0 || s[n - 1] == '\n',
    ensures
        last_line_start(s) == n,
    decreases s.len() - n,
{
    if n < s.len() {
        lemma_last_line_start(s.drop_last(), n);
    }
}

/// The indent of a text is that of its white space, where what follows it
/// begins with another character.
pub proof fn lemma_indent_width_prefix(s: Seq<char>, n: int)
    requires
        0 <= n <= s.len(),
        forall|i: int| 0 <= i < n ==> is_white_space(s[i]),
        n == s.len() || !is_white_space(s[n]),
    ensures
        indent_width(s) == indent_width(s.take(n)),
        indent_width(s) <= 4 * n,
    decreases n,
{
    if n > 0 {
        lemma_indent_width_prefix(s.drop_first(), n - 1);
        assert(s.take(n).drop_first() =~= s.drop_first().take(n - 1));
    }
}

/// The indent of white space grows by the width of one more character.
pub proof fn lemma_indent_width_push(s: Seq<char>, c: char)
    requires
        forall|i: int| 0 <= i < s.len() ==> is_white_space(s[i]),
        is_white_space(c),
    ensures
        indent_width(s.push(c)) == indent_width(s) + utf8_width(c),
    decreases s.len(),
{
    if s.len() > 0 {
        assert(s.push(c).drop_first() =~= s.drop_first().push(c));
        assert(s.push(c)[0] == s[0]);
        assert forall|i: int| 0 <= i < s.drop_first().len() implies is_white_space(
            s.drop_first()[i],
        ) by {
            assert(s.drop_first()[i] == s[i + 1]);
        }
        lemma_indent_width_push(s.drop_first(), c);
    } else {
        assert(s.push(c).drop_first() =~= Seq::<char>::empty());
        assert(s.push(c)[0] == c);
        assert(indent_width(Seq::<char>::empty()) == 0);
    }
}

/// The number of characters that the first `byte` bytes of the UTF-8
/// encoding of `text` encode.
pub open spec fn chars_before(text: Seq<char>, byte: int) -> nat {
    decode_utf8(encode_utf8(text).subrange(0, byte)).len()
}

/// A source file: its name and its text.
#[derive(Debug)]
pub struct SourceFile {
    pub name: String,
    pub text: String,
}

impl SourceFile {
    /// A source file of the given name and text.
    pub fn new(name: String, text: String) -> (file: SourceFile)
        ensures
            file.name@ == name@,
            file.text@ == text@,
    {
        SourceFile { name, text }
    }

    /// The number of characters of the text.
    pub fn len(&self) -> (n: usize)
        ensures
            n == self.text@.len(),
    {
        self.text.as_str().unicode_len()
    }

    /// The position, counted in characters, of the byte offset `byte` of
    /// the text as it is encoded in UTF-8: the number of characters that the
    /// bytes before the offset encode. There is none where the offset does
    /// not fall between two characters or lies beyond the text.
    pub fn char_position(&self, byte: usize) -> (r: Option<usize>)
        ensures
            match r {
                Some(n) => {
                    &&& is_char_boundary(encode_utf8(self.text@), byte as int)
                    &&& n == chars_before(self.text@, byte as int)
                    &&& n <= self.text@.len()
                    &&& encode_utf8(self.text@.take(n as int)) == encode_utf8(
                        self.text@,
                    ).subrange(0, byte as int)
                },
                None => !is_char_boundary(encode_utf8(self.text@), byte as int),
            },
    {
        let s = self.text.as_str();
        if s.is_char_boundary(byte) {
            let (before, after) = s.split_at(byte);
            let n = before.unicode_len();
            proof {
                let bytes = encode_utf8(self.text@);
                encode_utf8_valid_utf8(self.text@);
                encode_utf8_decode_utf8(self.text@);
                encode_utf8_decode_utf8(before@);
                valid_utf8_split(bytes, byte as int);
                decode_utf8_split(bytes, byte as int);
                assert(decode_utf8(bytes.subrange(0, byte as int)) == before@);
                assert(self.text@ =~= before@ + decode_utf8(
                    bytes.subrange(byte as int, bytes.len() as int),
                ));
                assert(self.text@.take(n as int) =~= before@);
            }
            Some(n)
        } else {
            None
        }
    }

    /// The range from byte offset `lo` to byte offset `hi` of the text as
    /// it is encoded in UTF-8, with the line and column given for its start.
    /// There is none where an offset does not fall between two characters
    /// of the text, where `hi` comes before `lo`, or where a position does
    /// not fit the type of positions.
    pub fn span_of_bytes(&self, lo: usize, hi: usize, line: usize, col: usize) -> (r: Option<Span>)
        ensures
            match r {
                Some(span) => {
                    &&& self.bytes_make_span(lo as int, hi as int)
                    &&& span.lo == chars_before(self.text@, lo as int)
                    &&& span.hi == chars_before(self.text@, hi as int)
                    &&& span.line == line
                    &&& span.col == col
                    &&& span.within(self.text@.len())
                },
                None => !self.bytes_make_span(lo as int, hi as int),
            },
    {
        if lo > hi {
            return None;
        }
        match self.char_position(lo) {
            None => None,
            Some(first) => match self.char_position(hi) {
                None => None,
                Some(last) => {
                    if first <= last && last <= 0xffff_ffff {
                        Some(Span { lo: first as u32, hi: last as u32, line, col })
                    } else {
                        None
                    }
                },
            },
        }
    }

    /// Whether the byte offsets `lo` and `hi` of the text as it is encoded in
    /// UTF-8 make a range: both fall between two characters, in this order,
    /// at positions that fit the type of positions.
    pub open spec fn bytes_make_span(&self, lo: int, hi: int) -> bool {
        &&& lo <= hi
        &&& is_char_boundary(encode_utf8(self.text@), lo)
        &&& is_char_boundary(encode_utf8(self.text@), hi)
        &&& chars_before(self.text@, lo) <= chars_before(self.text@, hi) <= u32::MAX
    }

    /// Whether `span` lies within the text.
    pub fn contains(&self, span: Span) -> (b: bool)
        ensures
            b == span.within(self.text@.len()),
    {
        let n = self.len();
        span.lo <= span.hi && span.hi as usize <= n
    }

    /// The text from position `lo` up to position `hi`.
    pub fn text_between(&self, lo: u32, hi: u32) -> (r: String)
        requires
            lo <= hi <= self.text@.len(),
        ensures
            r@ == self.text@.subrange(lo as int, hi as int),
    {
        slice(self.text.as_str(), lo as usize, hi as usize)
    }

    /// The text that `span` covers.
    pub fn snippet(&self, span: Span) -> (r: String)
        requires
            span.within(self.text@.len()),
        ensures
            r@ == self.text@.subrange(span.lo as int, span.hi as int),
    {
        self.text_between(span.lo, span.hi)
    }

    /// The margin of the line on which `span` begins, where `span` lies
    /// within the text.
    pub fn margin(&self, span: Span) -> (m: Option<u64>)
        ensures
            match m {
                Some(width) => margin_at(self.text@, span) == Some(width as nat),
                None => margin_at(self.text@, span) is None,
            },
    {
        let chars = to_chars(self.text.as_str());
        if !(span.lo <= span.hi && span.hi as usize <= chars.len()) {
            return None;
        }
        let lo = span.lo as usize;
        let mut start: usize = lo;
        while start > 0 && chars[start - 1] != '\n'
            invariant
                start <= lo <= chars.len(),
                forall|k: int| start <= k < lo ==> chars@[k] != '\n',
            decreases start,
        {
            start = start - 1;
        }
        let ghost before = chars@.take(lo as int);
        let ghost line = before.skip(start as int);
        proof {
            lemma_last_line_start(before, start as int);
        }
        let mut i: usize = start;
        let mut m: u64 = 0;
        while i < lo && CharClass::WhiteSpace.test(chars[i])
            invariant
                start <= i <= lo <= chars.len(),
                lo <= u32::MAX,
                line == chars@.take(lo as int).skip(start as int),
                forall|k: int| 0 <= k < i - start ==> is_white_space(line[k]),
                m == indent_width(line.take(i - start)),
                m <= 4 * (i - start),
            decreases lo - i,
        {
            proof {
                let done = line.take(i - start);
                assert(line.take(i - start + 1) =~= done.push(line[i - start]));
                lemma_indent_width_push(done, line[i - start]);
            }
            let c = chars[i];
            let w: u64 = if '\u{80}' > c {
                1
            } else if '\u{800}' > c {
                2
            } else if '\u{10000}' > c {
                3
            } else {
                4
            };
            m = m + w;
            i = i + 1;
        }
        proof {
            lemma_indent_width_prefix(line, i - start);
        }
        Some(m)
    }

    /// The location of `span`: this file, and the line and column that the
    /// span carries.
    pub fn location(&self, span: Span) -> (loc: Location)
        ensures
            loc@ == self.location_of(span),
    {
        Location { filename: self.name.clone(), line: span.line, col: span.col }
    }

    /// The location of `span` in this file.
    pub open spec fn location_of(&self, span: Span) -> LocationView {
        LocationView { filename: self.name@, line: span.line as nat, col: span.col as nat }
    }
}

/// The two forms of a comment.
#[derive(Clone, Copy, Debug, PartialEq, Eq, Structural)]
pub enum CommentKind {
    Line,
    Block,
}

/// A comment: its form, and its text without the delimiters.
#[derive(Debug)]
pub struct Comment {
    pub kind: CommentKind,
    pub text: String,
}

impl Comment {
    /// Whether this is a documentation comment: a block comment whose text
    /// begins with `*`.
    pub open spec fn is_doc(&self) -> bool {
        self.kind == CommentKind::Block && self.text@.len() > 0 && self.text@[0] == '*'
    }

    /// Decides [`Comment::is_doc`].
    pub fn is_doc_comment(&self) -> (b: bool)
        ensures
            b == self.is_doc(),
    {
        match self.kind {
            CommentKind::Line => false,
            CommentKind::Block => {
                let n = self.text.as_str().unicode_len();
                n > 0 && self.text.as_str().get_char(0) == '*'
            },
        }
    }
}

/// The comments that stand directly before one position.
#[derive(Debug)]
pub struct LeadingComments {
    pub pos: u32,
    pub comments: Vec<Comment>,
}

/// The comments of a file, by the position that each group leads up to.
#[derive(Debug)]
pub struct CommentTable {
    pub groups: Vec<LeadingComments>,
}

/// The index of the last documentation comment among `comments`, or -1.
pub open spec fn doc_comment_index(comments: Seq<Comment>) -> int
    decreases comments.len(),
{
    if comments.len() == 0 {
        -1
    } else if comments.last().is_doc() {
        comments.len() - 1
    } else {
        doc_comment_index(comments.drop_last())
    }
}

/// The index of the first group of `groups` that stands at `pos`, or -1.
pub open spec fn group_index(groups: Seq<LeadingComments>, pos: u32) -> int
    decreases groups.len(),
{
    if groups.len() == 0 {
        -1
    } else if group_index(groups.drop_last(), pos) >= 0 {
        group_index(groups.drop_last(), pos)
    } else if groups.last().pos == pos {
        groups.len() - 1
    } else {
        -1
    }
}

impl CommentTable {
    /// A table without comments.
    pub fn empty() -> (table: CommentTable)
        ensures
            table.groups@.len() == 0,
    {
        CommentTable { groups: Vec::new() }
    }

    /// The comments that lead up to `pos`: those of the first group at `pos`.
    pub open spec fn leading_at(&self, pos: u32) -> Option<Seq<Comment>> {
        let i = group_index(self.groups@, pos);
        if 0 <= i < self.groups@.len() {
            Some(self.groups@[i].comments@)
        } else {
            None
        }
    }

    /// The text of the documentation comment that leads up to `pos`: of the
    /// comments there, the last block comment whose text begins with `*`.
    pub open spec fn doc_comment_at(&self, pos: u32) -> Option<Seq<char>> {
        match self.leading_at(pos) {
            Some(comments) => {
                let i = doc_comment_index(comments);
                if 0 <= i < comments.len() {
                    Some(comments[i].text@)
                } else {
                    None
                }
            },
            None => None,
        }
    }

    /// The comments that lead up to `pos`.
    pub fn get_leading(&self, pos: u32) -> (r: Option<&Vec<Comment>>)
        ensures
            match r {
                Some(comments) => self.leading_at(pos) == Some(comments@),
                None => self.leading_at(pos) is None,
            },
    {
        let mut i: usize = 0;
        while i < self.groups.len()
            invariant
                i <= self.groups.len(),
                group_index(self.groups@.take(i as int), pos) == -1,
            decreases self.groups.len() - i,
        {
            proof {
                assert(self.groups@.take(i + 1).drop_last() =~= self.groups@.take(i as int));
            }
            if self.groups[i].pos == pos {
                proof {
                    lemma_group_index_prefix(self.groups@, pos, i + 1);
                }
                return Some(&self.groups[i].comments);
            }
            i = i + 1;
        }
        proof {
            assert(self.groups@.take(i as int) =~= self.groups@);
        }
        None
    }

    /// The documentation comment that leads up to `pos`.
    pub fn get_doc_comment(&self, pos: u32) -> (r: Option<&Comment>)
        ensures
            match r {
                Some(comment) => self.doc_comment_at(pos) == Some(comment.text@),
                None => self.doc_comment_at(pos) is None,
            },
    {
        match self.get_leading(pos) {
            None => None,
            Some(comments) => {
                let mut i: usize = comments.len();
                proof {
                    assert(comments@.take(i as int) =~= comments@);
                }
                while i > 0
                    invariant
                        i <= comments.len(),
                        self.leading_at(pos) == Some(comments@),
                        doc_comment_index(comments@) == doc_comment_index(comments@.take(i as int)),
                    decreases i,
                {
                    proof {
                        assert(comments@.take(i as int).drop_last() =~= comments@.take(i - 1));
                    }
                    if comments[i - 1].is_doc_comment() {
                        assert(comments@.take(i as int).last() == comments@[i - 1]);
                        return Some(&comments[i - 1]);
                    }
                    i = i - 1;
                }
                None
            },
        }
    }
}

/// A group found among the first `n` groups is the one found among all.
pub proof fn lemma_group_index_prefix(groups: Seq<LeadingComments>, pos: u32, n: int)
    requires
        0 <= n <= groups.len(),
        group_index(groups.take(n), pos) >= 0,
    ensures
        group_index(groups, pos) == group_index(groups.take(n), pos),
    decreases groups.len() - n,
{
    if n < groups.len() {
        assert(groups.drop_last().take(n) =~= groups.take(n));
        lemma_group_index_prefix(groups.drop_last(), pos, n);
    } else {
        assert(groups.take(n) =~= groups);
    }
}

} // verus!
