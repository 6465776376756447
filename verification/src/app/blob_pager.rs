//! The content pager: the text of one file, scrolled line by line.

use crate::app::pagination::{
    last_index, lemma_motion_stays_in_range, moved, step_backward, step_forward, visible_rows,
    window, window_bounds, Motion,
};
use crate::objects::{ObjectKind, ObjectRef};
use crate::text::{line_views, Rendering, RenderingView};
use crate::traits::{Drawable, Navigable};
use vstd::prelude::*;
use vstd::std_specs::iter::IteratorSpec;
use vstd::utf8::{decode_utf8, encode_utf8, encode_utf8_decode_utf8, valid_utf8};

verus! {

broadcast use vstd::string::group_string_axioms;

/// Offset of the first line feed of `text`, or the length of `text` if it
/// holds none.
pub open spec fn line_end(text: Seq<char>) -> nat
    decreases text.len(),
{
    if text.len() == 0 || text[0] == '\n' {
        0
    } else {
        1 + line_end(text.drop_first())
    }
}

/// `line` without the carriage return at its end, if it has one.
pub open spec fn without_cr(line: Seq<char>) -> Seq<char> {
    if line.len() > 0 && line.last() == '\r' {
        line.drop_last()
    } else {
        line
    }
}

/// The lines of `text`. A line ends at a line feed, or at a carriage return
/// directly before a line feed; neither belongs to the line. What follows
/// the last line feed is a line if it is not empty, carriage returns
/// included.
pub open spec fn lines_of(text: Seq<char>) -> Seq<Seq<char>>
    decreases text.len(),
{
    if text.len() == 0 {
        Seq::empty()
    } else {
        let end = line_end(text);
        if end >= text.len() {
            seq![text]
        } else {
            seq![without_cr(text.subrange(0, end as int))] + lines_of(
                text.subrange(end as int + 1, text.len() as int),
            )
        }
    }
}

/// `line_end` is the one offset that has no line feed before it and a line
/// feed, or the end of the text, at it.
pub proof fn lemma_line_end(text: Seq<char>, n: int)
    requires
        0 <= n <= text.len(),
        forall|j: int| 0 <= j < n ==> text[j] != '\n',
        n == text.len() || text[n] == '\n',
    ensures
        line_end(text) == n,
    decreases text.len(),
{
    if n > 0 {
        lemma_line_end(text.drop_first(), n - 1);
    }
}

/// `String::push` appends the character to the end of the string.
pub assume_specification[ String::push ](s: &mut String, c: char)
    ensures
        final(s)@ == old(s)@.push(c),
;

/// Splits `text` into its lines.
pub fn split_lines(text: &str) -> (lines: Vec<String>)
    ensures
        line_views(lines@) == lines_of(text@),
{
    let mut lines: Vec<String> = Vec::new();
    let mut current = String::new();
    let mut pending_cr = false;
    let mut chars = text.chars();
    let ghost len: int = text@.len() as int;
    let ghost mut start: int = 0;
    let ghost mut at: int = 0;
    assert(text@.subrange(0, len) =~= text@);
    loop
        invariant
            len == text@.len(),
            0 <= start <= at <= len,
            chars.remaining() == text@.subrange(at, len),
            forall|j: int| start <= j < at ==> text@[j] != '\n',
            pending_cr ==> current@.push('\r') == text@.subrange(start, at),
            !pending_cr ==> current@ == text@.subrange(start, at) && without_cr(current@)
                == current@,
            lines_of(text@) == line_views(lines@) + lines_of(text@.subrange(start, len)),
        ensures
            at == len,
        decreases len - at,
    {
        match chars.next() {
            None => {
                break ;
            },
            Some(c) => {
                assert(text@.subrange(at, len).drop_first() =~= text@.subrange(at + 1, len));
                if c == '\n' {
                    proof {
                        let rest = text@.subrange(start, len);
                        let line = text@.subrange(start, at);
                        lemma_line_end(rest, at - start);
                        assert(rest.subrange(0, at - start) =~= line);
                        assert(rest.subrange(at - start + 1, rest.len() as int) =~= text@.subrange(
                            at + 1,
                            len,
                        ));
                        if pending_cr {
                            assert(line.drop_last() =~= current@);
                        }
                        assert(line_views(lines@.push(current)) =~= line_views(lines@) + seq![
                            current@,
                        ]);
                    }
                    lines.push(current);
                    current = String::new();
                    pending_cr = false;
                    proof {
                        start = at + 1;
                    }
                } else {
                    if pending_cr {
                        current.push('\r');
                    }
                    if c == '\r' {
                        pending_cr = true;
                    } else {
                        current.push(c);
                        pending_cr = false;
                    }
                    assert(text@.subrange(start, at + 1) =~= text@.subrange(start, at).push(c));
                }
                proof {
                    at = at + 1;
                }
            },
        }
    }
    if pending_cr {
        current.push('\r');
    }
    proof {
        let rest = text@.subrange(start, len);
        lemma_line_end(rest, rest.len() as int);
        assert(line_views(lines@.push(current)) =~= line_views(lines@) + seq![current@]);
    }
    if !current.as_str().is_empty() {
        lines.push(current);
    }
    lines
}

/// `core::str::Utf8Error`, which says where bytes stop being UTF-8. The pager
/// only passes it on.
#[verifier::external_type_specification]
#[verifier::external_body]
pub struct ExUtf8Error(core::str::Utf8Error);

/// `core::str::from_utf8` succeeds exactly on well-formed UTF-8, and the
/// string slice that it then returns holds the bytes it was given.
pub assume_specification[ core::str::from_utf8 ](v: &[u8]) -> (res: Result<
    &str,
    core::str::Utf8Error,
>)
    ensures
        res is Ok <==> valid_utf8(v@),
        res matches Ok(text) ==> encode_utf8(text@) == v@,
;

/// Why a pager could not be opened.
#[derive(Clone, Copy, Debug, PartialEq, Eq)]
pub enum PagerError {
    /// The object is not file content.
    NotABlob,
    /// The content is not text: its bytes are not well-formed UTF-8.
    NotText,
}

/// A scrollable view of the text of one file. All lines are held in memory;
/// `top` is the first line shown and is always a line of the text, or 0 if
/// the text has no line.
#[derive(Debug, PartialEq, Eq)]
pub struct BlobPager {
    top: usize,
    name: String,
    lines: Vec<String>,
}

/// A pager as a value.
pub ghost struct BlobPagerView {
    /// Index of the first visible line.
    pub top: nat,
    /// Name of the file.
    pub name: Seq<char>,
    /// The lines of the file, in order.
    pub lines: Seq<Seq<char>>,
}

impl BlobPagerView {
    /// `top` is a line of the text, or the text has no line and `top` is 0.
    pub open spec fn in_range(self) -> bool {
        self.top <= last_index(self.lines.len())
    }

    /// The pager after `motion`: only `top` changes.
    pub open spec fn moved(self, motion: Motion) -> BlobPagerView {
        BlobPagerView { top: moved(self.top, motion, self.lines.len()), ..self }
    }

    /// The pager after the movements of `motions`, first to last.
    pub open spec fn moved_all(self, motions: Seq<Motion>) -> BlobPagerView
        decreases motions.len(),
    {
        if motions.len() == 0 {
            self
        } else {
            self.moved(motions[0]).moved_all(motions.drop_first())
        }
    }

    /// The lines `[top, bottom)` with `bottom = min(top + visible, count)`,
    /// where `visible = terminal_height - reserved_rows`.
    pub open spec fn visible(self, terminal_height: u16, reserved_rows: u16) -> Seq<Seq<char>> {
        window(self.lines, self.top, visible_rows(terminal_height as int, reserved_rows as int))
    }
}

/// Whatever the movements and their order, `top` stays on a line of the
/// text, and the text and the name stay as they are. A pager without lines
/// does not change at all.
pub proof fn lemma_top_stays_on_a_line(pager: BlobPagerView, motions: Seq<Motion>)
    requires
        pager.in_range(),
    ensures
        pager.moved_all(motions).in_range(),
        pager.moved_all(motions).lines == pager.lines,
        pager.moved_all(motions).name == pager.name,
        pager.lines.len() == 0 ==> pager.moved_all(motions) == pager,
    decreases motions.len(),
{
    if motions.len() > 0 {
        lemma_motion_stays_in_range(pager.top, motions[0], pager.lines.len());
        lemma_top_stays_on_a_line(pager.moved(motions[0]), motions.drop_first());
    }
}

/// Once the last line is at the top, scrolling down changes nothing, however
/// often it is repeated.
pub proof fn lemma_next_at_the_last_line(pager: BlobPagerView, times: nat)
    requires
        pager.top == last_index(pager.lines.len()),
    ensures
        pager.moved_all(Seq::new(times, |i: int| Motion::Next)) == pager,
    decreases times,
{
    if times > 0 {
        let all = Seq::new(times, |i: int| Motion::Next);
        let rest = Seq::new((times - 1) as nat, |i: int| Motion::Next);
        assert(all.drop_first() =~= rest);
        assert(pager.moved(all[0]) == pager);
        lemma_next_at_the_last_line(pager, (times - 1) as nat);
    }
}

impl View for BlobPager {
    type V = BlobPagerView;

    closed spec fn view(&self) -> BlobPagerView {
        BlobPagerView { top: self.top as nat, name: self.name@, lines: line_views(self.lines@) }
    }
}

impl BlobPager {
    #[verifier::type_invariant]
    spec fn top_on_a_line(&self) -> bool {
        self.top <= last_index(self.lines@.len())
    }

    /// A pager named `name` over the lines of `text`, showing the first.
    pub fn from_text(text: &str, name: String) -> (pager: BlobPager)
        ensures
            pager@ == (BlobPagerView { top: 0, name: name@, lines: lines_of(text@) }),
    {
        BlobPager { top: 0, name, lines: split_lines(text) }
    }

    /// A pager named `name` over the content of a file, which must be text.
    pub fn new(content: &[u8], name: String) -> (pager: BlobPager)
        requires
            valid_utf8(content@),
        ensures
            pager@ == (BlobPagerView {
                top: 0,
                name: name@,
                lines: lines_of(decode_utf8(content@)),
            }),
    {
        match core::str::from_utf8(content) {
            Ok(text) => {
                proof {
                    encode_utf8_decode_utf8(text@);
                }
                BlobPager::from_text(text, name)
            },
            Err(_) => vstd::pervasive::unreached(),
        }
    }

    /// A pager named `name` over `content`, the content of `object`, which
    /// must be a blob whose content is text.
    pub fn from_object(object: ObjectRef, content: &[u8], name: String) -> (pager: BlobPager)
        requires
            object.kind == ObjectKind::Blob,
            valid_utf8(content@),
        ensures
            pager@ == (BlobPagerView {
                top: 0,
                name: name@,
                lines: lines_of(decode_utf8(content@)),
            }),
    {
        BlobPager::new(content, name)
    }

    /// Opens a pager named `name` over `content`, the content of `object`.
    /// Fails with `NotABlob` if `object` is not a blob, and with `NotText`
    /// if it is one and `content` is not well-formed UTF-8.
    pub fn try_from_object(object: ObjectRef, content: &[u8], name: String) -> (opened: Result<
        BlobPager,
        PagerError,
    >)
        ensures
            object.kind != ObjectKind::Blob ==> opened == Err::<BlobPager, PagerError>(
                PagerError::NotABlob,
            ),
            object.kind == ObjectKind::Blob && !valid_utf8(content@) ==> opened == Err::<
                BlobPager,
                PagerError,
            >(PagerError::NotText),
            object.kind == ObjectKind::Blob && valid_utf8(content@) ==> opened is Ok
                && opened->Ok_0@ == (BlobPagerView {
                top: 0,
                name: name@,
                lines: lines_of(decode_utf8(content@)),
            }),
    {
        match object.kind {
            ObjectKind::Blob => match core::str::from_utf8(content) {
                Ok(text) => {
                    proof {
                        encode_utf8_decode_utf8(text@);
                    }
                    Ok(BlobPager::from_text(text, name))
                },
                Err(_) => Err(PagerError::NotText),
            },
            _ => Err(PagerError::NotABlob),
        }
    }

    /// Index of the first visible line.
    pub fn top(&self) -> (top: usize)
        ensures
            top == self@.top,
            self@.in_range(),
    {
        proof {
            use_type_invariant(self);
        }
        self.top
    }

    /// Number of lines of the text.
    pub fn line_count(&self) -> (count: usize)
        ensures
            count == self@.lines.len(),
    {
        self.lines.len()
    }
}

impl Drawable for BlobPager {
    open spec fn heading(&self) -> Seq<char> {
        self@.name
    }

    open spec fn rendering(&self, terminal_height: u16, reserved_rows: u16) -> RenderingView {
        RenderingView::Paragraph(self@.visible(terminal_height, reserved_rows))
    }

    /// Returns the visible lines: those from `top` on that fit into the rows
    /// that the terminal has left.
    fn draw(&self, terminal_height: u16, reserved_rows: u16) -> (body: Rendering) {
        let count: usize = self.lines.len();
        let (start, end) = window_bounds(self.top, terminal_height, reserved_rows, count);
        let mut shown: Vec<String> = Vec::new();
        let mut i: usize = start;
        while i < end
            invariant
                start <= i <= end <= self.lines@.len(),
                shown@.len() == i - start,
                line_views(shown@) =~= self@.lines.subrange(start as int, i as int),
            decreases end - i,
        {
            let ghost before = shown@;
            shown.push(self.lines[i].clone());
            assert forall|j: int| 0 <= j <= i - start implies line_views(shown@)[j]
                == self@.lines[start + j] by {
                if j < i - start {
                    assert(line_views(before)[j] == self@.lines.subrange(
                        start as int,
                        i as int,
                    )[j]);
                }
            }
            i += 1;
        }
        assert(line_views(shown@) =~= self@.visible(terminal_height, reserved_rows));
        Rendering::Paragraph(shown)
    }

    /// Returns the name of the file.
    fn title(&self) -> (text: String) {
        self.name.clone()
    }
}

impl Navigable for BlobPager {
    open spec fn item_count(&self) -> nat {
        self@.lines.len()
    }

    open spec fn position(&self) -> nat {
        self@.top
    }

    open spec fn selection(&self) -> Option<(ObjectRef, Seq<char>)> {
        None
    }

    open spec fn label(&self) -> Seq<char> {
        Seq::empty()
    }

    /// Scrolls one line down, unless the last line is already at the top:
    /// the last line never leaves the screen.
    fn next_selection(&mut self)
        ensures
            final(self)@ == old(self)@.moved(Motion::Next),
            old(self)@.in_range(),
            old(self)@.top == last_index(old(self)@.lines.len()) ==> final(self)@ == old(self)@,
            old(self)@.lines.len() == 0 ==> final(self)@ == old(self)@,
    {
        proof {
            use_type_invariant(&*self);
        }
        self.top = step_forward(self.top, 1, self.lines.len());
    }

    /// Scrolls one line up, unless the first line is at the top.
    fn previous_selection(&mut self)
        ensures
            final(self)@ == old(self)@.moved(Motion::Previous),
            old(self)@.in_range(),
            old(self)@.lines.len() == 0 ==> final(self)@ == old(self)@,
    {
        proof {
            use_type_invariant(&*self);
        }
        self.top = step_backward(self.top, 1);
    }

    /// Scrolls `page_size` lines down, at most until the last line is at the
    /// top.
    fn pagedown(&mut self, page_size: u16)
        ensures
            final(self)@ == old(self)@.moved(Motion::PageDown(page_size)),
            old(self)@.in_range(),
            old(self)@.lines.len() == 0 ==> final(self)@ == old(self)@,
    {
        proof {
            use_type_invariant(&*self);
        }
        self.top = step_forward(self.top, page_size as usize, self.lines.len());
    }

    /// Scrolls `page_size` lines up, at most until the first line is at the
    /// top.
    fn pageup(&mut self, page_size: u16)
        ensures
            final(self)@ == old(self)@.moved(Motion::PageUp(page_size)),
            old(self)@.in_range(),
            old(self)@.lines.len() == 0 ==> final(self)@ == old(self)@,
    {
        proof {
            use_type_invariant(&*self);
        }
        self.top = step_backward(self.top, page_size as usize);
    }

    /// A pager has nothing to open: always `None`.
    fn select(&self) -> (selection: Option<(ObjectRef, String)>)
        ensures
            selection is None,
    {
        None
    }

    /// A pager has no current item: always the empty string.
    fn selected_item(&self) -> (text: String) {
        String::new()
    }
}

} // verus!
