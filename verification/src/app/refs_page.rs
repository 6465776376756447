//! The root page: the repository's references.

use crate::app::listing::{Listing, ListingView};
use crate::app::pagination::Motion;
use crate::objects::{entry_views, Entry, ObjectRef};
use crate::text::{Rendering, RenderingView};
use crate::traits::{Drawable, Navigable};
use vstd::prelude::*;

verus! {

/// The list of the repository's references, each with the object it points
/// to. Its title stands for the repository in the breadcrumb.
#[derive(Debug, PartialEq, Eq)]
pub struct RefsPage {
    list: Listing,
}

impl View for RefsPage {
    type V = ListingView;

    closed spec fn view(&self) -> ListingView {
        self.list@
    }
}

impl RefsPage {
    /// The page of `references` under `title`, with the cursor on the first
    /// reference.
    pub fn new(title: String, references: Vec<Entry>) -> (page: RefsPage)
        ensures
            page@ == (ListingView { title: title@, entries: entry_views(references@), cursor: 0 }),
    {
        RefsPage { list: Listing::new(title, references) }
    }

    /// Number of references.
    pub fn len(&self) -> (count: usize)
        ensures
            count == self@.entries.len(),
    {
        self.list.len()
    }

    /// Index of the reference under the cursor; 0 if there is none.
    pub fn cursor(&self) -> (cursor: usize)
        ensures
            cursor == self@.cursor,
            self@.in_range(),
    {
        self.list.cursor()
    }
}

impl Drawable for RefsPage {
    open spec fn heading(&self) -> Seq<char> {
        self@.title
    }

    open spec fn rendering(&self, terminal_height: u16, reserved_rows: u16) -> RenderingView {
        RenderingView::List(self@.rows())
    }

    /// Returns every reference as a row, the one under the cursor
    /// highlighted, whatever the terminal's height.
    fn draw(&self, terminal_height: u16, reserved_rows: u16) -> (body: Rendering) {
        self.list.draw()
    }

    fn title(&self) -> (text: String) {
        self.list.title()
    }
}

impl Navigable for RefsPage {
    open spec fn item_count(&self) -> nat {
        self@.entries.len()
    }

    open spec fn position(&self) -> nat {
        self@.cursor
    }

    open spec fn selection(&self) -> Option<(ObjectRef, Seq<char>)> {
        self@.selection()
    }

    open spec fn label(&self) -> Seq<char> {
        self@.label()
    }

    fn next_selection(&mut self)
        ensures
            final(self)@ == old(self)@.moved(Motion::Next),
            old(self)@.in_range(),
            old(self)@.entries.len() == 0 ==> final(self)@ == old(self)@,
    {
        self.list.next_selection();
    }

    fn previous_selection(&mut self)
        ensures
            final(self)@ == old(self)@.moved(Motion::Previous),
            old(self)@.in_range(),
            old(self)@.entries.len() == 0 ==> final(self)@ == old(self)@,
    {
        self.list.previous_selection();
    }

    fn pagedown(&mut self, page_size: u16)
        ensures
            final(self)@ == old(self)@.moved(Motion::PageDown(page_size)),
            old(self)@.in_range(),
            old(self)@.entries.len() == 0 ==> final(self)@ == old(self)@,
    {
        self.list.pagedown(page_size);
    }

    fn pageup(&mut self, page_size: u16)
        ensures
            final(self)@ == old(self)@.moved(Motion::PageUp(page_size)),
            old(self)@.in_range(),
            old(self)@.entries.len() == 0 ==> final(self)@ == old(self)@,
    {
        self.list.pageup(page_size);
    }

    /// Returns the reference under the cursor: its target and its name.
    fn select(&self) -> (selection: Option<(ObjectRef, String)>) {
        self.list.select()
    }

    fn selected_item(&self) -> (text: String) {
        self.list.selected_item()
    }
}

} // verus!
