//! A whole profile as a sequence of classified lines.

use std::sync::Arc;

use vstd::prelude::*;
use vstd::std_specs::slice::into_iter_elts;
use vstd::string::*;

use crate::command::{lemma_text_of_parse, parse_command, Command, CommandView};
use crate::conditional::{
    lemma_conditional_text_of_parse, parse_conditional, Conditional, ConditionalView,
};
use crate::error::Error;
use crate::text::{
    chars_of, joined, lemma_join_split, lemma_split_free_of, lemma_split_join, lemma_split_len,
    lemma_split_push_sep, piece, pieces_free_of, split_bounds, split_on,
};

verus! {

//
// Content
//

/// The content of a profile line, as values.
pub enum ContentView {
    Blank,
    Command(CommandView),
    Comment(Seq<char>),
    Conditional(ConditionalView),
    Invalid(Seq<char>, Error),
}

impl ContentView {
    /// The line that states this content, without a line break.
    pub open spec fn text(self) -> Seq<char> {
        match self {
            ContentView::Blank => Seq::<char>::empty(),
            ContentView::Command(c) => c.text(),
            ContentView::Comment(t) => seq!['#'] + t,
            ContentView::Conditional(c) => c.text(),
            ContentView::Invalid(t, _) => t,
        }
    }
}

/// The content of the line `s`: `Err` holds an `Invalid` content with the line and
/// the reason.
pub open spec fn parse_content(s: Seq<char>) -> Result<ContentView, ContentView> {
    if s.len() == 0 {
        Ok(ContentView::Blank)
    } else if s[0] == '#' {
        Ok(ContentView::Comment(s.drop_first()))
    } else if s[0] == '?' {
        match parse_conditional(s) {
            Ok(c) => Ok(ContentView::Conditional(c)),
            Err(e) => Err(ContentView::Invalid(s, e)),
        }
    } else {
        match parse_command(s) {
            Ok(c) => Ok(ContentView::Command(c)),
            Err(e) => Err(ContentView::Invalid(s, e)),
        }
    }
}

/// The content held by a classification, whether it succeeded or not.
pub open spec fn content_of(r: Result<ContentView, ContentView>) -> ContentView {
    match r {
        Ok(c) => c,
        Err(c) => c,
    }
}

/// The content of a profile line.
#[derive(Clone, Debug, Eq)]
pub enum Content {
    /// An empty line.
    Blank,
    /// A directive.
    Command(Command),
    /// A comment: the text after the leading `#`.
    Comment(String),
    /// A conditional directive.
    Conditional(Conditional),
    /// A line that could not be classified, kept as it was, with the reason.
    Invalid(String, Error),
}

impl Content {
    /// The content as values.
    pub open spec fn view(&self) -> ContentView {
        match self {
            Content::Blank => ContentView::Blank,
            Content::Command(c) => ContentView::Command(c.view()),
            Content::Comment(t) => ContentView::Comment(t@),
            Content::Conditional(c) => ContentView::Conditional(c.view()),
            Content::Invalid(t, e) => ContentView::Invalid(t@, *e),
        }
    }

    /// Classifies one line (without its line break). A line that cannot be
    /// classified gives `Err` with an `Invalid` content that keeps the line.
    pub fn parse(line: &str) -> (r: Result<Content, Content>)
        ensures
            content_result(r) == parse_content(line@),
    {
        if line.is_empty() {
            return Ok(Content::Blank);
        }
        let n = line.unicode_len();
        let first = line.get_char(0);
        if first == '#' {
            let t = piece(line, 1, n);
            assert(t@ =~= line@.drop_first());
            Ok(Content::Comment(t))
        } else if first == '?' {
            match Conditional::parse(line) {
                Ok(c) => Ok(Content::Conditional(c)),
                Err(e) => Err(Content::Invalid(String::from_str(line), e)),
            }
        } else {
            match Command::parse(line) {
                Ok(c) => Ok(Content::Command(c)),
                Err(e) => Err(Content::Invalid(String::from_str(line), e)),
            }
        }
    }

    /// The line that states this content, followed by a line break.
    pub fn format(&self) -> (r: String)
        ensures
            r@ == self.view().text() + seq!['\n'],
    {
        proof {
            reveal_strlit("#");
            reveal_strlit("\n");
            assert("#"@ =~= seq!['#']);
            assert("\n"@ =~= seq!['\n']);
        }
        let mut r = match self {
            Content::Blank => String::new(),
            Content::Command(c) => c.format(),
            Content::Comment(t) => {
                let mut r = String::from_str("#");
                r.append(t.as_str());
                r
            },
            Content::Conditional(c) => c.format(),
            Content::Invalid(t, _) => t.clone(),
        };
        r.append("\n");
        r
    }
}

/// The view of a classification.
pub open spec fn content_result(r: Result<Content, Content>) -> Result<ContentView, ContentView> {
    match r {
        Ok(c) => Ok(c.view()),
        Err(c) => Err(c.view()),
    }
}

impl PartialEq for Content {
    fn eq(&self, other: &Content) -> (r: bool) {
        match (self, other) {
            (Content::Blank, Content::Blank) => true,
            (Content::Command(a), Content::Command(b)) => a.eq(b),
            (Content::Comment(a), Content::Comment(b)) => a.eq(b),
            (Content::Conditional(a), Content::Conditional(b)) => a.eq(b),
            (Content::Invalid(a, e), Content::Invalid(b, f)) => a.eq(b) && *e == *f,
            _ => false,
        }
    }
}

impl vstd::std_specs::cmp::PartialEqSpecImpl for Content {
    open spec fn obeys_eq_spec() -> bool {
        true
    }

    open spec fn eq_spec(&self, other: &Content) -> bool {
        self.view() == other.view()
    }
}

/// Writing the content read from a line gives that line back, whether the line
/// was classified or kept as invalid.
pub proof fn lemma_content_text_of_parse(s: Seq<char>)
    ensures
        content_of(parse_content(s)).text() == s,
{
    if s.len() == 0 {
        assert(s =~= Seq::<char>::empty());
    } else if s[0] == '#' {
        assert(seq!['#'] + s.drop_first() =~= s);
    } else if s[0] == '?' {
        lemma_conditional_text_of_parse(s);
    } else {
        lemma_text_of_parse(s);
    }
}

//
// Line
//

/// A profile line as values.
pub struct LineView {
    pub lineno: Option<usize>,
    pub content: ContentView,
}

/// A profile line.
#[derive(Clone, Debug, Eq)]
pub struct Line {
    /// The line number of this line if known (counted from 0).
    pub lineno: Option<usize>,
    /// The content of this line.
    pub content: Arc<Content>,
}

impl Line {
    /// The line as values.
    pub open spec fn view(&self) -> LineView {
        LineView { lineno: self.lineno, content: self.content.view() }
    }

    /// Returns `true` if this line is valid, that is its content is not `Invalid`.
    pub fn is_valid(&self) -> (r: bool)
        ensures
            r == !(self.view().content is Invalid),
    {
        match &*self.content {
            Content::Invalid(_, _) => false,
            _ => true,
        }
    }

    /// Returns `true` if this line is a comment.
    pub fn is_comment(&self) -> (r: bool)
        ensures
            r == (self.view().content is Comment),
    {
        match &*self.content {
            Content::Comment(_) => true,
            _ => false,
        }
    }
}

impl PartialEq for Line {
    fn eq(&self, other: &Line) -> (r: bool) {
        let same_lineno = match (self.lineno, other.lineno) {
            (None, None) => true,
            (Some(a), Some(b)) => a == b,
            _ => false,
        };
        same_lineno && (*self.content).eq(&*other.content)
    }
}

impl vstd::std_specs::cmp::PartialEqSpecImpl for Line {
    open spec fn obeys_eq_spec() -> bool {
        true
    }

    open spec fn eq_spec(&self, other: &Line) -> bool {
        self.view() == other.view()
    }
}

/// Relies on `Arc::clone`: the new pointer shares the same content.
#[verifier::external_body]
fn share(content: &Arc<Content>) -> (r: Arc<Content>)
    ensures
        r == *content,
{
    Arc::clone(content)
}


//
// Lines of a text
//

/// `l` without one trailing carriage return.
pub open spec fn strip_cr(l: Seq<char>) -> Seq<char> {
    if l.len() > 0 && l.last() == '\r' {
        l.drop_last()
    } else {
        l
    }
}

/// The lines of `s`: the text between line breaks, where a line ended by a line
/// break loses one trailing carriage return, and an empty last piece is no line.
pub open spec fn lines_of(s: Seq<char>) -> Seq<Seq<char>> {
    let ps = split_on(s, '\n');
    let ended = ps.drop_last().map_values(|l: Seq<char>| strip_cr(l));
    if ps.last().len() == 0 {
        ended
    } else {
        ended.push(ps.last())
    }
}

/// The bounds of the lines of `v`.
pub fn line_bounds(v: &Vec<char>) -> (r: Vec<(usize, usize)>)
    ensures
        r@.len() == lines_of(v@).len(),
        forall|k: int|
            0 <= k < r@.len() ==> (#[trigger] r@[k]).0 <= r@[k].1 <= v@.len() && v@.subrange(
                r@[k].0 as int,
                r@[k].1 as int,
            ) == lines_of(v@)[k],
{
    let n = v.len();
    let pieces = split_bounds(v, 0, n, '\n');
    let ghost ps = split_on(v@, '\n');
    proof {
        assert(v@.subrange(0, n as int) =~= v@);
    }
    proof {
        lemma_split_len(v@, '\n');
    }
    let mut r: Vec<(usize, usize)> = Vec::new();
    let mut k: usize = 0;
    let last = pieces.len() - 1;
    while k < last
        invariant
            last + 1 == pieces@.len() == ps.len(),
            k <= last,
            ps == split_on(v@, '\n'),
            forall|j: int|
                0 <= j < pieces@.len() ==> (#[trigger] pieces@[j]).0 <= pieces@[j].1 <= n
                    && v@.subrange(pieces@[j].0 as int, pieces@[j].1 as int) == ps[j],
            n == v@.len(),
            r@.len() == k,
            forall|j: int|
                0 <= j < k ==> (#[trigger] r@[j]).0 <= r@[j].1 <= n && v@.subrange(
                    r@[j].0 as int,
                    r@[j].1 as int,
                ) == strip_cr(ps[j]),
        decreases last - k,
    {
        let (a, b) = pieces[k];
        assert(pieces@[k as int].0 == a && pieces@[k as int].1 == b);
        if a < b && v[b - 1] == '\r' {
            assert(v@.subrange(a as int, b - 1) =~= ps[k as int].drop_last());
            r.push((a, b - 1));
        } else {
            r.push((a, b));
        }
        k = k + 1;
    }
    let (a, b) = pieces[last];
    assert(pieces@[last as int].0 == a && pieces@[last as int].1 == b);
    if a < b {
        r.push((a, b));
    }
    assert forall|j: int| 0 <= j < r@.len() implies (#[trigger] r@[j]).0 <= r@[j].1 <= v@.len()
        && v@.subrange(r@[j].0 as int, r@[j].1 as int) == lines_of(v@)[j] by {
        if j < last {
            assert(ps.drop_last()[j] == ps[j]);
        }
    }
    r
}

//
// ProfileStream
//

/// The lines read from the text `s`, numbered from 0.
pub open spec fn parsed_lines(s: Seq<char>) -> Seq<LineView> {
    Seq::new(
        lines_of(s).len(),
        |i: int| LineView { lineno: Some(i as usize), content: content_of(parse_content(lines_of(s)[i])) },
    )
}

/// Every line of `s` could be classified.
pub open spec fn all_lines_valid(s: Seq<char>) -> bool {
    forall|i: int| 0 <= i < lines_of(s).len() ==> (#[trigger] parse_content(lines_of(s)[i])) is Ok
}

/// The profile read from the text `s`: `Ok` when every line could be classified,
/// else `Err` with the same lines.
pub open spec fn parse_stream(s: Seq<char>) -> Result<Seq<LineView>, Seq<LineView>> {
    if all_lines_valid(s) {
        Ok(parsed_lines(s))
    } else {
        Err(parsed_lines(s))
    }
}

/// The lines held by a reading, whether it succeeded or not.
pub open spec fn lines_held(r: Result<Seq<LineView>, Seq<LineView>>) -> Seq<LineView> {
    match r {
        Ok(ls) => ls,
        Err(ls) => ls,
    }
}

/// The text of the lines `ls`, each followed by a line break.
pub open spec fn stream_text(ls: Seq<LineView>) -> Seq<char>
    decreases ls.len(),
{
    if ls.len() == 0 {
        Seq::<char>::empty()
    } else {
        stream_text(ls.drop_last()) + ls.last().content.text() + seq!['\n']
    }
}

/// Some line of `ls` has the content `c`.
pub open spec fn holds_content(ls: Seq<LineView>, c: ContentView) -> bool {
    exists|i: int| 0 <= i < ls.len() && (#[trigger] ls[i]).content == c
}

/// A profile: its lines in order.
#[derive(Clone, Debug)]
pub struct ProfileStream {
    inner: Vec<Line>,
}

impl ProfileStream {
    /// The lines as values.
    pub closed spec fn view(&self) -> Seq<LineView> {
        self.inner@.map_values(|l: Line| l.view())
    }

    /// Reads a profile from its text. Every line is classified and numbered
    /// from 0; the result is `Ok` when every line could be classified, and `Err`
    /// with the same lines when one could not.
    pub fn parse(text: &str) -> (r: Result<ProfileStream, ProfileStream>)
        ensures
            match r {
                Ok(ps) => parse_stream(text@) == Ok::<Seq<LineView>, Seq<LineView>>(ps.view()),
                Err(ps) => parse_stream(text@) == Err::<Seq<LineView>, Seq<LineView>>(ps.view()),
            },
    {
        let v = chars_of(text);
        let bounds = line_bounds(&v);
        let mut inner: Vec<Line> = Vec::new();
        let mut valid = true;
        let mut k: usize = 0;
        while k < bounds.len()
            invariant
                k <= bounds@.len(),
                v@ == text@,
                bounds@.len() == lines_of(v@).len(),
                forall|j: int|
                    0 <= j < bounds@.len() ==> (#[trigger] bounds@[j]).0 <= bounds@[j].1 <= v@.len()
                        && v@.subrange(bounds@[j].0 as int, bounds@[j].1 as int) == lines_of(v@)[j],
                inner@.len() == k,
                forall|j: int| 0 <= j < k ==> (#[trigger] inner@[j]).view() == parsed_lines(text@)[j],
                valid == (forall|j: int| 0 <= j < k ==> (#[trigger] parse_content(lines_of(text@)[j])) is Ok),
            decreases bounds@.len() - k,
        {
            let (a, b) = bounds[k];
            assert(bounds@[k as int].0 == a && bounds@[k as int].1 == b);
            let line = piece(text, a, b);
            let content = match Content::parse(line.as_str()) {
                Ok(c) => c,
                Err(c) => {
                    valid = false;
                    c
                },
            };
            inner.push(Line { lineno: Some(k), content: Arc::new(content) });
            proof {
                if !valid {
                    assert(!(forall|j: int| 0 <= j < k + 1 ==> (#[trigger] parse_content(lines_of(text@)[j])) is Ok)) by {
                        if parse_content(lines_of(text@)[k as int]) is Ok {
                            let j = choose|j: int| 0 <= j < k && !(#[trigger] parse_content(lines_of(text@)[j]) is Ok);
                        }
                    }
                }
            }
            k = k + 1;
        }
        let ps = ProfileStream { inner };
        assert(ps.view() =~= parsed_lines(text@));
        if valid {
            Ok(ps)
        } else {
            Err(ps)
        }
    }

    /// The text of the profile: every line followed by a line break.
    pub fn format(&self) -> (r: String)
        ensures
            r@ == stream_text(self.view()),
    {
        let mut r = String::new();
        let mut k: usize = 0;
        while k < self.inner.len()
            invariant
                k <= self.inner@.len(),
                r@ == stream_text(self.view().subrange(0, k as int)),
            decreases self.inner@.len() - k,
        {
            r.append(self.inner[k].content.format().as_str());
            assert(self.view().subrange(0, k + 1).drop_last() =~= self.view().subrange(0, k as int));
            k = k + 1;
        }
        assert(self.view().subrange(0, k as int) =~= self.view());
        r
    }

    /// The text of the profile; the same as `format`.
    pub fn to_string(&self) -> (r: String)
        ensures
            r@ == stream_text(self.view()),
    {
        self.format()
    }

    /// Check whether some line of `self` has the content `content`, compared by value.
    pub fn contains(&self, content: &Content) -> (r: bool)
        ensures
            r == holds_content(self.view(), content.view()),
    {
        let mut k: usize = 0;
        while k < self.inner.len()
            invariant
                k <= self.inner@.len(),
                forall|j: int| 0 <= j < k ==> (#[trigger] self.view()[j]).content != content.view(),
            decreases self.inner@.len() - k,
        {
            if (*self.inner[k].content).eq(content) {
                assert(self.view()[k as int].content == content.view());
                return true;
            }
            k = k + 1;
        }
        false
    }

    /// Check whether there are any invalid lines.
    pub fn has_errors(&self) -> (r: bool)
        ensures
            r == (exists|i: int| 0 <= i < self.view().len() && ((#[trigger] self.view()[i]).content is Invalid)),
    {
        let mut k: usize = 0;
        while k < self.inner.len()
            invariant
                k <= self.inner@.len(),
                forall|j: int| 0 <= j < k ==> !((#[trigger] self.view()[j]).content is Invalid),
            decreases self.inner@.len() - k,
        {
            if !self.inner[k].is_valid() {
                assert(self.view()[k as int].content is Invalid);
                return true;
            }
            k = k + 1;
        }
        false
    }

    /// The invalid lines of `self`, in order.
    pub fn errors(&self) -> (r: ProfileStream)
        ensures
            r.view() == self.view().filter(|l: LineView| l.content is Invalid),
    {
        let mut out: Vec<Line> = Vec::new();
        let mut k: usize = 0;
        while k < self.inner.len()
            invariant
                k <= self.inner@.len(),
                out@.map_values(|l: Line| l.view()) == self.view().subrange(0, k as int).filter(
                    |l: LineView| l.content is Invalid,
                ),
            decreases self.inner@.len() - k,
        {
            let ghost before = out@.map_values(|l: Line| l.view());
            proof {
                reveal(Seq::filter);
            }
            assert(self.view().subrange(0, k + 1).drop_last() =~= self.view().subrange(0, k as int));
            if !self.inner[k].is_valid() {
                let line = Line { lineno: self.inner[k].lineno, content: share(&self.inner[k].content) };
                out.push(line);
                assert(out@.map_values(|l: Line| l.view()) =~= before.push(self.view()[k as int]));
            } else {
                assert(out@.map_values(|l: Line| l.view()) =~= before);
            }
            k = k + 1;
        }
        assert(self.view().subrange(0, k as int) =~= self.view());
        let r = ProfileStream { inner: out };
        assert(r.view() == out@.map_values(|l: Line| l.view()));
        r
    }

    /// Set every line number to `None`.
    pub fn strip_lineno(&mut self)
        ensures
            final(self).view().len() == old(self).view().len(),
            forall|i: int|
                0 <= i < old(self).view().len() ==> (#[trigger] final(self).view()[i]) == (LineView {
                    lineno: None,
                    content: old(self).view()[i].content,
                }),
    {
        let mut k: usize = 0;
        while k < self.inner.len()
            invariant
                k <= self.inner@.len(),
                self.inner@.len() == old(self).inner@.len(),
                forall|j: int| 0 <= j < k ==> (#[trigger] self.view()[j]) == (LineView {
                    lineno: None,
                    content: old(self).view()[j].content,
                }),
                forall|j: int| k <= j < self.inner@.len() ==> (#[trigger] self.inner@[j]) == old(self).inner@[j],
            decreases self.inner@.len() - k,
        {
            let ghost prev = self.inner@;
            let ghost prev_view = self.view();
            self.inner[k].lineno = None;
            assert(self.inner@ == prev.update(k as int, self.inner@[k as int]));

            assert(self.view()[k as int] == (LineView { lineno: None, content: old(self).view()[k as int].content }));
            assert forall|j: int| 0 <= j < k + 1 implies (#[trigger] self.view()[j]) == (LineView {
                lineno: None,
                content: old(self).view()[j].content,
            }) by {
                if j < k {
                    assert(self.inner@[j] == prev[j]);
                    assert(self.view()[j] == prev_view[j]);
                }
            }
            k = k + 1;
        }
    }

    /// Number every line by its position, from 0.
    pub fn rewrite_lineno(&mut self)
        ensures
            final(self).view().len() == old(self).view().len(),
            forall|i: int|
                0 <= i < old(self).view().len() ==> (#[trigger] final(self).view()[i]) == (LineView {
                    lineno: Some(i as usize),
                    content: old(self).view()[i].content,
                }),
    {
        let mut k: usize = 0;
        while k < self.inner.len()
            invariant
                k <= self.inner@.len(),
                self.inner@.len() == old(self).inner@.len(),
                forall|j: int| 0 <= j < k ==> (#[trigger] self.view()[j]) == (LineView {
                    lineno: Some(j as usize),
                    content: old(self).view()[j].content,
                }),
                forall|j: int| k <= j < self.inner@.len() ==> (#[trigger] self.inner@[j]) == old(self).inner@[j],
            decreases self.inner@.len() - k,
        {
            let ghost prev = self.inner@;
            let ghost prev_view = self.view();
            self.inner[k].lineno = Some(k);
            assert(self.inner@ == prev.update(k as int, self.inner@[k as int]));

            assert(self.view()[k as int] == (LineView { lineno: Some(k), content: old(self).view()[k as int].content }));
            assert forall|j: int| 0 <= j < k + 1 implies (#[trigger] self.view()[j]) == (LineView {
                lineno: Some(j as usize),
                content: old(self).view()[j].content,
            }) by {
                if j < k {
                    assert(self.inner@[j] == prev[j]);
                    assert(self.view()[j] == prev_view[j]);
                }
            }
            k = k + 1;
        }
    }

    /// Returns `true` if the profile has no lines.
    pub fn is_empty(&self) -> (r: bool)
        ensures
            r == (self.view().len() == 0),
    {
        self.inner.len() == 0
    }

    /// The lines, as a slice.
    pub fn as_slice(&self) -> (r: &[Line])
        ensures
            r@.map_values(|l: Line| l.view()) == self.view(),
    {
        self.inner.as_slice()
    }

    /// An iterator over the lines, in order.
    pub fn iter(&self) -> (r: std::slice::Iter<'_, Line>)
        ensures
            into_iter_elts(r).map_values(|l: Line| l.view()) == self.view(),
    {
        let r = self.inner.as_slice().iter();
        proof {
            broadcast use vstd::std_specs::slice::axiom_spec_slice_iter;
            assert(into_iter_elts(r) =~= self.inner@);
        }
        r
    }

    /// The lines, as a vector.
    pub fn into_inner(self) -> (r: Vec<Line>)
        ensures
            r@.map_values(|l: Line| l.view()) == self.view(),
    {
        self.inner
    }

    /// A profile with the lines `lines`.
    pub fn from_lines(lines: Vec<Line>) -> (r: ProfileStream)
        ensures
            r.view() == lines@.map_values(|l: Line| l.view()),
    {
        ProfileStream { inner: lines }
    }
}


//
// Laws
//

/// The lines `ls`, each followed by a line break.
pub open spec fn lines_text(ls: Seq<Seq<char>>) -> Seq<char>
    decreases ls.len(),
{
    if ls.len() == 0 {
        Seq::<char>::empty()
    } else {
        lines_text(ls.drop_last()) + ls.last() + seq!['\n']
    }
}

/// Lines whose contents write out as `ls` write out as `ls` with line breaks.
proof fn lemma_stream_text_lines(vs: Seq<LineView>, ls: Seq<Seq<char>>)
    requires
        vs.len() == ls.len(),
        forall|i: int| 0 <= i < vs.len() ==> (#[trigger] vs[i]).content.text() == ls[i],
    ensures
        stream_text(vs) == lines_text(ls),
    decreases vs.len(),
{
    if vs.len() > 0 {
        let (v0, l0) = (vs.drop_last(), ls.drop_last());
        assert forall|i: int| 0 <= i < v0.len() implies (#[trigger] v0[i]).content.text() == l0[i] by {
            assert(vs[i] == v0[i]);
        }
        lemma_stream_text_lines(v0, l0);
        assert(vs[vs.len() - 1] == vs.last());
    }
}

/// With at least one line, the lines with line breaks are the lines joined by
/// line breaks, and one more line break.
proof fn lemma_lines_text_joined(ls: Seq<Seq<char>>)
    requires
        ls.len() >= 1,
    ensures
        lines_text(ls) == joined(ls, seq!['\n']) + seq!['\n'],
    decreases ls.len(),
{
    if ls.len() == 1 {
        assert(lines_text(ls.drop_last()) == Seq::<char>::empty());
        assert(Seq::<char>::empty() + ls[0] + seq!['\n'] =~= ls[0] + seq!['\n']);
    } else {
        lemma_lines_text_joined(ls.drop_last());
        assert(lines_text(ls) =~= joined(ls, seq!['\n']) + seq!['\n']);
    }
}

/// The lines of a text hold no line break.
proof fn lemma_lines_free_of_breaks(s: Seq<char>)
    ensures
        pieces_free_of(lines_of(s), '\n'),
{
    let ps = split_on(s, '\n');
    lemma_split_free_of(s, '\n', '\n');
    lemma_split_len(s, '\n');
    assert forall|i: int| 0 <= i < lines_of(s).len() implies !(#[trigger] lines_of(s)[i]).contains(
        '\n',
    ) by {
        let l = lines_of(s)[i];
        if i < ps.len() - 1 {
            let p = ps[i];
            assert(l == strip_cr(p));
            if l.contains('\n') {
                let j = choose|j: int| 0 <= j < l.len() && l[j] == '\n';
                assert(p[j] == '\n');
            }
        } else {
            assert(l == ps.last());
            assert(ps[ps.len() - 1] == ps.last());
        }
    }
}

/// Reading lines back from the lines with line breaks gives the same lines, when
/// none holds a line break or ends with a carriage return.
proof fn lemma_lines_of_lines_text(ls: Seq<Seq<char>>)
    requires
        pieces_free_of(ls, '\n'),
        forall|i: int| 0 <= i < ls.len() ==> strip_cr(#[trigger] ls[i]) == ls[i],
    ensures
        lines_of(lines_text(ls)) == ls,
{
    if ls.len() == 0 {
        assert(split_on(Seq::<char>::empty(), '\n') == seq![Seq::<char>::empty()]);
        assert(lines_of(lines_text(ls)) =~= ls);
    } else {
        lemma_lines_text_joined(ls);
        lemma_split_join(ls, '\n');
        let j = joined(ls, seq!['\n']);
        lemma_split_push_sep(j, '\n');
        assert(j + seq!['\n'] =~= j.push('\n'));
        let ps = split_on(lines_text(ls), '\n');
        assert(ps == ls.push(Seq::<char>::empty()));
        assert(ps.drop_last() =~= ls);
        assert(ps.drop_last().map_values(|l: Seq<char>| strip_cr(l)) =~= ls);
    }
}

/// Without carriage returns, the lines of a text with line breaks are the text,
/// with a line break added when its last line had none.
proof fn lemma_lines_text_of_text(s: Seq<char>)
    requires
        !s.contains('\r'),
    ensures
        lines_text(lines_of(s)) == if s.len() == 0 || s.last() == '\n' {
            s
        } else {
            s + seq!['\n']
        },
{
    let ps = split_on(s, '\n');
    lemma_split_len(s, '\n');
    lemma_split_free_of(s, '\n', '\r');
    lemma_split_free_of(s, '\n', '\n');
    lemma_join_split(s, '\n');
    assert forall|i: int| 0 <= i < ps.len() implies strip_cr(#[trigger] ps[i]) == ps[i] by {
        if ps[i].len() > 0 && ps[i].last() == '\r' {
            assert(ps[i].contains('\r')) by {
                assert(ps[i][ps[i].len() - 1] == '\r');
            }
        }
    }
    let front = ps.drop_last();
    assert(front.map_values(|l: Seq<char>| strip_cr(l)) =~= front);
    assert(ps[ps.len() - 1] == ps.last());
    if ps.last().len() == 0 {
        if ps.len() == 1 {
            assert(s =~= Seq::<char>::empty());
        } else {
            lemma_lines_text_joined(front);
            assert(s =~= joined(front, seq!['\n']) + seq!['\n'] + ps.last());
        }
    } else {
        assert(lines_of(s) =~= ps);
        lemma_lines_text_joined(ps);
        assert(!ps.last().contains('\n'));
        if ps.len() == 1 {
            assert(s == ps[0]);
        }
        assert(s.last() == ps.last().last()) by {
            if ps.len() > 1 {
                assert(s =~= joined(front, seq!['\n']) + seq!['\n'] + ps.last());
            }
        }
        assert(s.last() != '\n') by {
            assert(ps.last()[ps.last().len() - 1] == ps.last().last());
        }
    }
}

/// Fidelity: writing out a profile read from `text` gives the lines of `text`,
/// each followed by a line break, whether or not some line was invalid; without
/// carriage returns that is `text` itself, with a line break added at the end
/// when the last line had none. Reading fails exactly when some line is invalid.
pub proof fn lemma_fidelity(text: Seq<char>)
    ensures
        stream_text(lines_held(parse_stream(text))) == lines_text(lines_of(text)),
        !text.contains('\r') ==> lines_text(lines_of(text)) == if text.len() == 0 || text.last()
            == '\n' {
            text
        } else {
            text + seq!['\n']
        },
        parse_stream(text) is Err <==> exists|i: int|
            0 <= i < lines_held(parse_stream(text)).len() && ((#[trigger] lines_held(
                parse_stream(text),
            )[i]).content is Invalid),
{
    let ls = lines_of(text);
    let vs = parsed_lines(text);
    assert forall|i: int| 0 <= i < vs.len() implies (#[trigger] vs[i]).content.text() == ls[i] by {
        lemma_content_text_of_parse(ls[i]);
    }
    lemma_stream_text_lines(vs, ls);
    if !text.contains('\r') {
        lemma_lines_text_of_text(text);
    }
    if parse_stream(text) is Err {
        let i = choose|i: int| 0 <= i < ls.len() && !(#[trigger] parse_content(ls[i]) is Ok);
        assert(vs[i].content is Invalid);
    } else {
        assert forall|i: int| 0 <= i < vs.len() implies !((#[trigger] vs[i]).content is Invalid) by {
            assert(parse_content(ls[i]) is Ok);
        }
    }
}

/// Idempotence: reading the text written for a profile that was read without
/// error gives the same profile, when no line of the original text ends with a
/// carriage return.
pub proof fn lemma_idempotence(text: Seq<char>)
    requires
        parse_stream(text) is Ok,
        forall|i: int| 0 <= i < lines_of(text).len() ==> strip_cr(#[trigger] lines_of(text)[i]) == lines_of(text)[i],
    ensures
        parse_stream(stream_text(lines_held(parse_stream(text)))) == parse_stream(text),
{
    lemma_fidelity(text);
    lemma_lines_free_of_breaks(text);
    lemma_lines_of_lines_text(lines_of(text));
}

/// Containment is by value: a line that occurs in two texts, at any positions,
/// has the same content in both profiles, so each profile contains the other's.
pub proof fn lemma_contains_by_value(t1: Seq<char>, t2: Seq<char>, i: int, j: int)
    requires
        0 <= i < lines_of(t1).len(),
        0 <= j < lines_of(t2).len(),
        lines_of(t1)[i] == lines_of(t2)[j],
    ensures
        holds_content(lines_held(parse_stream(t2)), lines_held(parse_stream(t1))[i].content),
        holds_content(lines_held(parse_stream(t1)), lines_held(parse_stream(t2))[j].content),
{
    assert(lines_held(parse_stream(t2))[j].content == lines_held(parse_stream(t1))[i].content);
}


impl ProfileStream {
    /// The lines of `self` that are not comments and whose content `other` does
    /// not contain, in order.
    pub fn unique_lines(&self, other: &ProfileStream) -> (r: ProfileStream)
        ensures
            r.view() == self.view().filter(
                |l: LineView| !(l.content is Comment) && !holds_content(other.view(), l.content),
            ),
    {
        let mut out: Vec<Line> = Vec::new();
        let mut k: usize = 0;
        while k < self.inner.len()
            invariant
                k <= self.inner@.len(),
                out@.map_values(|l: Line| l.view()) == self.view().subrange(0, k as int).filter(
                    |l: LineView| !(l.content is Comment) && !holds_content(other.view(), l.content),
                ),
            decreases self.inner@.len() - k,
        {
            let ghost before = out@.map_values(|l: Line| l.view());
            proof {
                reveal(Seq::filter);
            }
            assert(self.view().subrange(0, k + 1).drop_last() =~= self.view().subrange(0, k as int));
            if !self.inner[k].is_comment() && !other.contains(&self.inner[k].content) {
                let line = Line { lineno: self.inner[k].lineno, content: share(&self.inner[k].content) };
                out.push(line);
                assert(out@.map_values(|l: Line| l.view()) =~= before.push(self.view()[k as int]));
            } else {
                assert(out@.map_values(|l: Line| l.view()) =~= before);
            }
            k = k + 1;
        }
        assert(self.view().subrange(0, k as int) =~= self.view());
        let r = ProfileStream { inner: out };
        assert(r.view() == out@.map_values(|l: Line| l.view()));
        r
    }
}

} // verus!
