//! The text and comments of one file, and the documentation comments in it.

use crate::doc::source::{margin_at, CommentTable, SourceFile, Span};
use crate::text::{
    is_white_space, join, join_with, lemma_trim_end_is_prefix, remove_indent_repeated, split,
    split_on, strip_indent_repeated, trim, trim_end, trim_end_of, trim_of, views_of, CharClass,
};
use vstd::prelude::*;

verus! {

/// What the extraction reads beside the syntax tree: the text of the file and
/// the comments found in it.
#[derive(Debug)]
pub struct DocParser {
    pub source: SourceFile,
    pub comments: CommentTable,
}

/// The result of `regex::Regex::replace`, on the regular expression that
/// `pattern` compiles to, for the haystack `text` and the replacement
/// `replacement`; `None` where `regex::Regex::new` rejects `pattern`.
pub uninterp spec fn replaced_first(
    pattern: Seq<char>,
    text: Seq<char>,
    replacement: Seq<char>,
) -> Option<Seq<char>>;

/// Compiles `pattern` with `regex::Regex::new` and calls `Regex::replace`,
/// which replaces the leftmost match in `text` by `replacement`. The contract
/// claims no more than that the outcome depends on the three texts alone: it
/// names it [`replaced_first`]. Where the pattern does not compile the result
/// is `None`.
#[verifier::external_body]
fn replace_first(pattern: &str, text: &str, replacement: &str) -> (r: Option<String>)
    ensures
        r.deep_view() == replaced_first(pattern@, text@, replacement@),
{
    match regex::Regex::new(pattern) {
        Ok(re) => Some(re.replace(text, replacement).into_owned()),
        Err(_) => None,
    }
}

/// The pattern of the margin of a comment line: a star, with one space
/// before it and one after it where they are there.
pub open spec fn margin_marker() -> Seq<char> {
    " ?\\* ?"@
}

/// `line` without the first margin marker in it. A line in which the
/// pattern engine finds nothing to replace, or whose pattern it rejects,
/// stays as it is.
pub open spec fn strip_marker(line: Seq<char>) -> Seq<char> {
    match replaced_first(margin_marker(), line, ""@) {
        Some(stripped) => stripped,
        None => line,
    }
}

/// The text of a documentation comment, put together from its lines once the
/// margin marker is gone from each: every line loses the indentation of the
/// file, as many runs of `margin` spaces as it begins with; the lines are
/// joined by line feeds; the white space around the whole is removed.
pub open spec fn assembled(stripped: Seq<Seq<char>>, margin: nat) -> Seq<char> {
    trim_of(
        join_with(
            stripped.map_values(|line: Seq<char>| strip_indent_repeated(line, margin)),
            "\n"@,
        ),
    )
}

/// The documentation that the comment text `text` holds, for a declaration
/// whose line has the margin `margin`.
pub open spec fn js_doc_text(text: Seq<char>, margin: nat) -> Seq<char> {
    assembled(split_on(text, '\n').map_values(|line: Seq<char>| strip_marker(line)), margin)
}

/// The indentation that the lines of a documentation comment lose: the
/// margin of the line on which the declaration begins, or nothing where the
/// range of the declaration does not lie within the text.
pub open spec fn doc_margin(text: Seq<char>, span: Span) -> nat {
    match margin_at(text, span) {
        Some(margin) => margin,
        None => 0,
    }
}

/// Puts the text of a documentation comment together from its lines, each
/// already without its margin marker.
pub fn assemble_js_doc(stripped: &Vec<String>, margin: u64) -> (r: String)
    ensures
        r@ == assembled(views_of(stripped@), margin as nat),
{
    let mut lines: Vec<String> = Vec::new();
    let mut i: usize = 0;
    let ghost clean = |line: Seq<char>| strip_indent_repeated(line, margin as nat);
    while i < stripped.len()
        invariant
            i <= stripped.len(),
            clean == |line: Seq<char>| strip_indent_repeated(line, margin as nat),
            views_of(lines@) == views_of(stripped@.take(i as int)).map_values(clean),
        decreases stripped.len() - i,
    {
        let line = remove_indent_repeated(stripped[i].as_str(), margin);
        proof {
            assert(views_of(lines@.push(line)) =~= views_of(lines@).push(line@));
            assert(views_of(stripped@.take(i + 1)).map_values(clean) =~= views_of(
                stripped@.take(i as int),
            ).map_values(clean).push(line@));
        }
        lines.push(line);
        i = i + 1;
    }
    proof {
        assert(stripped@.take(stripped.len() as int) =~= stripped@);
    }
    let joined = join(&lines, "\n");
    trim(joined.as_str())
}

impl DocParser {
    /// A parser for the file of the given name and text, with its comments.
    pub fn new(file_name: String, source_code: String, comments: CommentTable) -> (parser:
        DocParser)
        ensures
            parser.source.name@ == file_name@,
            parser.source.text@ == source_code@,
            parser.comments == comments,
    {
        DocParser { source: SourceFile::new(file_name, source_code), comments }
    }

    /// A parser for an empty file without a name.
    pub fn default() -> (parser: DocParser)
        ensures
            parser.source.name@.len() == 0,
            parser.source.text@.len() == 0,
            parser.comments.groups@.len() == 0,
    {
        DocParser {
            source: SourceFile::new(String::new(), String::new()),
            comments: CommentTable::empty(),
        }
    }

    /// The text of the file.
    pub open spec fn text(&self) -> Seq<char> {
        self.source.text@
    }

    /// The documentation of the declaration that covers `span`: the
    /// documentation comment that leads up to the start of the span, its text
    /// without margin markers and indentation, or `None` where no such
    /// comment stands there.
    pub open spec fn js_doc_at(&self, span: Span) -> Option<Seq<char>> {
        match self.comments.doc_comment_at(span.lo) {
            Some(text) => Some(js_doc_text(text, doc_margin(self.text(), span))),
            None => None,
        }
    }

    /// The documentation of the declaration that covers `span`.
    pub fn js_doc_for_span(&self, span: Span) -> (r: Option<String>)
        ensures
            r.deep_view() == self.js_doc_at(span),
    {
        match self.comments.get_doc_comment(span.lo) {
            None => None,
            Some(comment) => {
                let margin = match self.source.margin(span) {
                    Some(margin) => margin,
                    None => 0,
                };
                let lines = split(comment.text.as_str(), '\n');
                let mut stripped: Vec<String> = Vec::new();
                let mut i: usize = 0;
                let ghost strip = |line: Seq<char>| strip_marker(line);
                while i < lines.len()
                    invariant
                        i <= lines.len(),
                        strip == |line: Seq<char>| strip_marker(line),
                        views_of(stripped@) == views_of(lines@.take(i as int)).map_values(strip),
                    decreases lines.len() - i,
                {
                    let line = match replace_first(" ?\\* ?", lines[i].as_str(), "") {
                        Some(replaced) => replaced,
                        None => lines[i].clone(),
                    };
                    proof {
                        assert(line@ == strip_marker(lines@[i as int]@));
                        assert(views_of(stripped@.push(line)) =~= views_of(stripped@).push(line@));
                        assert(views_of(lines@.take(i + 1)).map_values(strip) =~= views_of(
                            lines@.take(i as int),
                        ).map_values(strip).push(line@));
                    }
                    stripped.push(line);
                    i = i + 1;
                }
                proof {
                    assert(lines@.take(lines.len() as int) =~= lines@);
                }
                Some(assemble_js_doc(&stripped, margin))
            },
        }
    }
}

/// Whether a body, where there is one, lies within `outer`.
pub open spec fn body_inside(body: Option<Span>, outer: Span) -> bool {
    match body {
        Some(body) => body.inside(outer),
        None => true,
    }
}

/// The head of a declaration: the text of `outer` up to where `body`
/// begins, or all of it where there is no body.
pub open spec fn head_of(text: Seq<char>, outer: Span, body: Option<Span>) -> Seq<char> {
    match body {
        Some(body) => text.subrange(outer.lo as int, body.lo as int),
        None => text.subrange(outer.lo as int, outer.hi as int),
    }
}

/// What follows the head of a declaration in the text of `outer`: its body
/// and whatever stands after it.
pub open spec fn rest_of(text: Seq<char>, outer: Span, body: Option<Span>) -> Seq<char> {
    match body {
        Some(body) => text.subrange(body.lo as int, outer.hi as int),
        None => Seq::empty(),
    }
}

/// The signature of a declaration: its head without trailing white space.
pub open spec fn signature_of(text: Seq<char>, outer: Span, body: Option<Span>) -> Seq<char> {
    trim_end_of(head_of(text, outer, body), CharClass::WhiteSpace)
}

impl DocParser {
    /// The head of the declaration that covers `outer`.
    pub fn head(&self, outer: Span, body: &Option<Span>) -> (r: String)
        requires
            outer.within(self.text().len()),
            body_inside(*body, outer),
        ensures
            r@ == head_of(self.text(), outer, *body),
    {
        match body {
            Some(body) => self.source.text_between(outer.lo, body.lo),
            None => self.source.snippet(outer),
        }
    }

    /// The signature of the declaration that covers `outer`.
    pub fn signature(&self, outer: Span, body: &Option<Span>) -> (r: String)
        requires
            outer.within(self.text().len()),
            body_inside(*body, outer),
        ensures
            r@ == signature_of(self.text(), outer, *body),
    {
        let head = self.head(outer, body);
        trim_end(head.as_str())
    }
}

/// The split of a declaration at its body loses nothing: the head and what
/// follows it make up the text of the declaration again, character by
/// character, and what follows the head begins with the text of the body.
pub proof fn lemma_head_and_rest(text: Seq<char>, outer: Span, body: Span)
    requires
        outer.within(text.len()),
        body.inside(outer),
    ensures
        head_of(text, outer, Some(body)) + rest_of(text, outer, Some(body)) == text.subrange(
            outer.lo as int,
            outer.hi as int,
        ),
        rest_of(text, outer, Some(body)).take(body.hi - body.lo) == text.subrange(
            body.lo as int,
            body.hi as int,
        ),
{
    let head = head_of(text, outer, Some(body));
    let rest = rest_of(text, outer, Some(body));
    assert(head + rest =~= text.subrange(outer.lo as int, outer.hi as int));
    assert(rest.take(body.hi - body.lo) =~= text.subrange(body.lo as int, body.hi as int));
}

/// The signature of a declaration holds nothing of its body: it is the
/// start of the text of the declaration and ends before the body begins.
/// What the head has beyond it is white space.
pub proof fn lemma_signature_before_body(text: Seq<char>, outer: Span, body: Span)
    requires
        outer.within(text.len()),
        body.inside(outer),
    ensures
        signature_of(text, outer, Some(body)).len() <= body.lo - outer.lo,
        signature_of(text, outer, Some(body)) == text.subrange(
            outer.lo as int,
            outer.lo + signature_of(text, outer, Some(body)).len(),
        ),
        forall|i: int|
            outer.lo + signature_of(text, outer, Some(body)).len() <= i < body.lo
                ==> is_white_space(#[trigger] text[i]),
{
    let head = head_of(text, outer, Some(body));
    let signature = signature_of(text, outer, Some(body));
    lemma_trim_end_is_prefix(head, CharClass::WhiteSpace);
    assert(head.take(signature.len() as int) =~= text.subrange(
        outer.lo as int,
        outer.lo + signature.len(),
    ));
    assert forall|i: int| outer.lo + signature.len() <= i < body.lo implies is_white_space(
        #[trigger] text[i],
    ) by {
        assert(head[i - outer.lo] == text[i]);
    }
}

/// Where the body ends the declaration and no white space stands before it,
/// the signature and the text of the body, one after the other, are the
/// text of the declaration.
pub proof fn lemma_signature_then_body(text: Seq<char>, outer: Span, body: Span)
    requires
        outer.within(text.len()),
        body.inside(outer),
        body.hi == outer.hi,
        body.lo > outer.lo ==> !is_white_space(text[body.lo - 1]),
    ensures
        signature_of(text, outer, Some(body)) + text.subrange(body.lo as int, body.hi as int)
            == text.subrange(outer.lo as int, outer.hi as int),
{
    let head = head_of(text, outer, Some(body));
    lemma_head_and_rest(text, outer, body);
    if head.len() > 0 {
        assert(head.last() == text[body.lo - 1]);
    }
    assert(signature_of(text, outer, Some(body)) == head);
}

} // verus!
