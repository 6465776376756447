//! The navigator: the reference list at the root, and above it the stack of
//! tree pages that the user has descended through.
//!
//! The navigator decides; it does not read the repository. `select` says
//! what has to be read, the program reads it, and `open_tree` or
//! `open_commit` takes what was read and pushes the page.

pub mod blob_pager;
pub mod listing;
pub mod pagination;
pub mod refs_page;
pub mod session;
pub mod tree_page;

use crate::app::listing::ListingView;
use crate::app::pagination::Motion;
use crate::app::refs_page::RefsPage;
use crate::app::tree_page::{TreePage, TreePageView};
use crate::objects::{entry_views, short_hex, Entry, ObjectId, ObjectKind, ObjectRef};
use crate::text::{span_views, Color, Panel, PanelView, RenderingView, Span, SpanView, Style};
use crate::traits::{Drawable, Navigable};
use vstd::prelude::*;
use vstd::string::StringExecFns;

verus! {

/// What a selection asks the program to read from the repository.
#[derive(Clone, Debug, PartialEq, Eq)]
pub enum Action {
    /// Nothing: no entry is selected, or the selected object is a blob, a
    /// tag or of unknown kind.
    Stay,
    /// The entries of the tree `object`, selected under `name`; they go to
    /// `App::open_tree`.
    OpenTree { object: ObjectRef, name: String },
    /// The commit that `object` peels to and the entries of its root tree,
    /// selected under `name`; they go to `App::open_commit`.
    OpenCommit { object: ObjectRef, name: String },
}

/// An action as a value.
pub ghost enum ActionView {
    Stay,
    OpenTree { object: ObjectRef, name: Seq<char> },
    OpenCommit { object: ObjectRef, name: Seq<char> },
}

impl View for Action {
    type V = ActionView;

    open spec fn view(&self) -> ActionView {
        match self {
            Action::Stay => ActionView::Stay,
            Action::OpenTree { object, name } => ActionView::OpenTree {
                object: *object,
                name: name@,
            },
            Action::OpenCommit { object, name } => ActionView::OpenCommit {
                object: *object,
                name: name@,
            },
        }
    }
}

/// The navigator's state.
#[derive(Debug, PartialEq, Eq)]
pub struct App {
    /// The search input. The navigator keeps it and never reads it.
    pub search_input: String,
    commit: Option<ObjectId>,
    refs_page: RefsPage,
    tree_pages: Vec<TreePage>,
}

/// The navigator as a value.
pub ghost struct AppView {
    /// The search input.
    pub search_input: Seq<char>,
    /// The commit that was entered last, while the stack is not empty.
    pub commit: Option<ObjectId>,
    /// The reference list.
    pub refs: ListingView,
    /// The stacked pages, the root's child first and the active page last.
    pub stack: Seq<TreePageView>,
}

/// The pages of `pages` as values, in order.
pub open spec fn page_views(pages: Seq<TreePage>) -> Seq<TreePageView> {
    Seq::new(pages.len(), |i: int| pages[i]@)
}

impl AppView {
    /// Number of stacked pages.
    pub open spec fn depth(self) -> nat {
        self.stack.len()
    }

    /// A commit is open only while the stack is not empty.
    pub open spec fn consistent(self) -> bool {
        self.commit is Some ==> self.stack.len() > 0
    }

    /// The page that is drawn and moved through: the top of the stack, or the
    /// reference list if the stack is empty.
    pub open spec fn active(self) -> ListingView {
        if self.stack.len() > 0 {
            self.stack.last().list
        } else {
            self.refs
        }
    }

    /// The state after `motion` on the active page: only that page's cursor
    /// changes.
    pub open spec fn moved(self, motion: Motion) -> AppView {
        if self.stack.len() > 0 {
            AppView {
                stack: self.stack.update(self.stack.len() - 1, self.stack.last().moved(motion)),
                ..self
            }
        } else {
            AppView { refs: self.refs.moved(motion), ..self }
        }
    }

    /// What selecting the entry under the active page's cursor asks for: a
    /// tree is to be opened, a commit is to be peeled and opened, anything
    /// else and an empty page ask for nothing.
    pub open spec fn action(self) -> ActionView {
        match self.active().selection() {
            Some((object, name)) => match object.kind {
                ObjectKind::Tree => ActionView::OpenTree { object, name },
                ObjectKind::Commit => ActionView::OpenCommit { object, name },
                _ => ActionView::Stay,
            },
            None => ActionView::Stay,
        }
    }

    /// The first part of the breadcrumb: the reference list's title, then
    /// `@` and the open commit's short id if a commit is open, then `: ` if
    /// more than one page is stacked.
    pub open spec fn label(self) -> Seq<char> {
        self.refs.title + (match self.commit {
            Some(id) => "@"@ + short_hex(id.bytes@),
            None => Seq::empty(),
        }) + (if self.stack.len() > 1 {
            ": "@
        } else {
            Seq::empty()
        })
    }

    /// The breadcrumb's part for the stacked page `i`: the page's title,
    /// after a `/` that separates it from the page below.
    pub open spec fn segment(self, i: int) -> Seq<char> {
        (if i > 0 {
            "/"@
        } else {
            Seq::empty()
        }) + self.stack[i].list.title
    }

    /// The breadcrumb: a blank, the label in bold green, one bold blue
    /// segment for each stacked page from the bottom up, and a blank.
    pub open spec fn breadcrumb(self) -> Seq<SpanView> {
        seq![
            SpanView { content: " "@, style: Style::plain() },
            SpanView { content: self.label(), style: Style::bold_in(Color::Green) },
        ] + Seq::new(
            self.stack.len(),
            |i: int| SpanView { content: self.segment(i), style: Style::bold_in(Color::Blue) },
        ) + seq![SpanView { content: " "@, style: Style::plain() }]
    }

    /// The active page in its frame: the breadcrumb as the frame's title, and
    /// the active page's rows.
    pub open spec fn panel(self) -> PanelView {
        PanelView { title: self.breadcrumb(), body: RenderingView::List(self.active().rows()) }
    }

    /// The state after `page` was pushed.
    pub open spec fn pushed(self, page: TreePageView) -> AppView {
        AppView { stack: self.stack.push(page), ..self }
    }

    /// The state after `commit` was entered and `page`, its root tree, was
    /// pushed.
    pub open spec fn entered(self, commit: ObjectId, page: TreePageView) -> AppView {
        AppView { commit: Some(commit), stack: self.stack.push(page), ..self }
    }

    /// The state after going back: the top page is gone, and with the last
    /// page the open commit. On an empty stack nothing is left to pop.
    pub open spec fn popped(self) -> AppView {
        if self.stack.len() > 1 {
            AppView { stack: self.stack.drop_last(), ..self }
        } else {
            AppView { stack: Seq::empty(), commit: None, ..self }
        }
    }
}

impl View for App {
    type V = AppView;

    closed spec fn view(&self) -> AppView {
        AppView {
            search_input: self.search_input@,
            commit: self.commit,
            refs: self.refs_page@,
            stack: page_views(self.tree_pages@),
        }
    }
}

impl App {
    /// A navigator on the reference list `refs_page`: nothing is stacked, no
    /// commit is open, and the search input is empty.
    pub fn new(refs_page: RefsPage) -> (app: App)
        ensures
            app@ == (AppView {
                search_input: Seq::empty(),
                commit: None,
                refs: refs_page@,
                stack: Seq::empty(),
            }),
            app@.consistent(),
    {
        let app = App {
            search_input: String::new(),
            commit: None,
            refs_page,
            tree_pages: Vec::new(),
        };
        assert(page_views(app.tree_pages@) =~= Seq::empty());
        app
    }

    /// Moves the active page's cursor one entry down.
    pub fn next_selection(&mut self)
        ensures
            final(self)@ == old(self)@.moved(Motion::Next),
            final(self)@.depth() == old(self)@.depth(),
            old(self)@.active().in_range(),
            final(self)@.active().in_range(),
            old(self)@.active().entries.len() == 0 ==> final(self)@ == old(self)@,
            old(self)@.consistent() ==> final(self)@.consistent(),
    {
        let depth: usize = self.tree_pages.len();
        if depth > 0 {
            self.tree_pages[depth - 1].next_selection();
            assert(page_views(self.tree_pages@) =~= old(self)@.moved(Motion::Next).stack);
            assert(old(self)@.active().entries.len() == 0 ==> page_views(self.tree_pages@)
                =~= old(self)@.stack);
        } else {
            self.refs_page.next_selection();
        }
    }

    /// Moves the active page's cursor one entry up.
    pub fn previous_selection(&mut self)
        ensures
            final(self)@ == old(self)@.moved(Motion::Previous),
            final(self)@.depth() == old(self)@.depth(),
            old(self)@.active().in_range(),
            final(self)@.active().in_range(),
            old(self)@.active().entries.len() == 0 ==> final(self)@ == old(self)@,
            old(self)@.consistent() ==> final(self)@.consistent(),
    {
        let depth: usize = self.tree_pages.len();
        if depth > 0 {
            self.tree_pages[depth - 1].previous_selection();
            assert(page_views(self.tree_pages@) =~= old(self)@.moved(Motion::Previous).stack);
            assert(old(self)@.active().entries.len() == 0 ==> page_views(self.tree_pages@)
                =~= old(self)@.stack);
        } else {
            self.refs_page.previous_selection();
        }
    }

    /// Reads the entry under the active page's cursor and says what it asks
    /// for. The navigator is not changed: the page is pushed when the program
    /// hands over what it read, with `open_tree` or `open_commit`.
    pub fn select(&self) -> (action: Action)
        ensures
            action@ == self@.action(),
    {
        let depth: usize = self.tree_pages.len();
        let selection = if depth > 0 {
            self.tree_pages[depth - 1].select()
        } else {
            self.refs_page.select()
        };
        match selection {
            Some((object, name)) => match object.kind {
                ObjectKind::Tree => Action::OpenTree { object, name },
                ObjectKind::Commit => Action::OpenCommit { object, name },
                _ => Action::Stay,
            },
            None => Action::Stay,
        }
    }

    /// Pushes the page of the tree `object`, selected under `name`, whose
    /// entries are `entries`. The open commit stays as it is.
    pub fn open_tree(&mut self, object: ObjectRef, name: String, entries: Vec<Entry>)
        ensures
            final(self)@ == old(self)@.pushed(
                TreePageView {
                    object,
                    list: ListingView { title: name@, entries: entry_views(entries@), cursor: 0 },
                },
            ),
            final(self)@.depth() == old(self)@.depth() + 1,
            old(self)@.consistent() ==> final(self)@.consistent(),
    {
        self.tree_pages.push(TreePage::new(object, name, entries));
        assert(page_views(self.tree_pages@) =~= page_views(old(self).tree_pages@).push(
            self.tree_pages@.last()@,
        ));
    }

    /// Records `commit`, the commit that `object` peeled to, as the open
    /// commit, and pushes the page of its root tree, selected under `name`,
    /// whose entries are `entries`.
    pub fn open_commit(
        &mut self,
        commit: ObjectId,
        object: ObjectRef,
        name: String,
        entries: Vec<Entry>,
    )
        ensures
            final(self)@ == old(self)@.entered(
                commit,
                TreePageView {
                    object,
                    list: ListingView { title: name@, entries: entry_views(entries@), cursor: 0 },
                },
            ),
            final(self)@.depth() == old(self)@.depth() + 1,
            final(self)@.commit == Some(commit),
            final(self)@.consistent(),
    {
        self.commit = Some(commit);
        self.tree_pages.push(TreePage::new(object, name, entries));
        assert(page_views(self.tree_pages@) =~= page_views(old(self).tree_pages@).push(
            self.tree_pages@.last()@,
        ));
    }

    /// Goes back one page: pops the top of the stack. When the stack
    /// becomes empty the open commit is cleared. On an empty stack nothing
    /// changes but that no commit is open.
    pub fn back(&mut self)
        ensures
            final(self)@ == old(self)@.popped(),
            old(self)@.depth() > 0 ==> final(self)@.depth() == old(self)@.depth() - 1,
            old(self)@.depth() == 0 ==> final(self)@.depth() == 0,
            final(self)@.depth() == 0 ==> final(self)@.commit is None,
            final(self)@.consistent(),
            old(self)@.depth() == 0 && old(self)@.consistent() ==> final(self)@ == old(self)@,
    {
        self.tree_pages.pop();
        if self.tree_pages.len() == 0 {
            self.commit = None;
        }
        assert(page_views(self.tree_pages@) =~= old(self)@.popped().stack);
    }

    /// Composes the breadcrumb that titles the frame.
    pub fn title(&self) -> (spans: Vec<Span>)
        ensures
            span_views(spans@) == self@.breadcrumb(),
    {
        let plain = Style { fg: None, bold: false, reversed: false };
        let green = Style { fg: Some(Color::Green), bold: true, reversed: false };
        let mut label = self.refs_page.title();
        if let Some(commit) = &self.commit {
            label.append("@");
            let id = commit.to_short_hex();
            label.append(id.as_str());
        }
        if self.tree_pages.len() > 1 {
            label.append(": ");
        }
        assert(label@ =~= self@.label());
        let mut spans: Vec<Span> = Vec::new();
        spans.push(Span { content: " ".to_owned(), style: plain });
        spans.push(Span { content: label, style: green });
        let mut i: usize = 0;
        while i < self.tree_pages.len()
            invariant
                i <= self.tree_pages@.len(),
                spans@.len() == i + 2,
                span_views(spans@) =~= self@.breadcrumb().subrange(0, i + 2),
            decreases self.tree_pages@.len() - i,
        {
            let mut segment = if i > 0 {
                "/".to_owned()
            } else {
                String::new()
            };
            let title = self.tree_pages[i].title();
            segment.append(title.as_str());
            assert(segment@ =~= self@.segment(i as int));
            let ghost before = spans@;
            let blue = Style { fg: Some(Color::Blue), bold: true, reversed: false };
            spans.push(Span { content: segment, style: blue });
            assert forall|j: int| 0 <= j < i + 3 implies span_views(spans@)[j]
                == self@.breadcrumb()[j] by {
                if j < i + 2 {
                    assert(span_views(before)[j] == self@.breadcrumb().subrange(0, i + 2)[j]);
                }
            }
            i += 1;
        }
        let ghost before = spans@;
        spans.push(Span { content: " ".to_owned(), style: plain });
        assert forall|j: int| 0 <= j < i + 3 implies span_views(spans@)[j]
            == self@.breadcrumb()[j] by {
            if j < i + 2 {
                assert(span_views(before)[j] == self@.breadcrumb().subrange(0, i + 2)[j]);
            }
        }
        assert(span_views(spans@) =~= self@.breadcrumb());
        spans
    }

    /// Draws the active page in its frame. A list page shows all its rows,
    /// so the terminal's height and the rows reserved around the page do not
    /// change what is drawn; they are handed on to the page.
    pub fn draw(&self, terminal_height: u16, reserved_rows: u16) -> (panel: Panel)
        ensures
            panel@ == self@.panel(),
    {
        let title = self.title();
        let depth: usize = self.tree_pages.len();
        let body = if depth > 0 {
            self.tree_pages[depth - 1].draw(terminal_height, reserved_rows)
        } else {
            self.refs_page.draw(terminal_height, reserved_rows)
        };
        Panel { title, body }
    }

    /// Number of stacked pages.
    pub fn depth(&self) -> (depth: usize)
        ensures
            depth == self@.depth(),
    {
        self.tree_pages.len()
    }

    /// The open commit, if there is one.
    pub fn commit(&self) -> (commit: Option<ObjectId>)
        ensures
            commit == self@.commit,
    {
        self.commit
    }
}

} // verus!
