//! A page of the stack: the entries of one tree.

use crate::app::listing::{Listing, ListingView};
use crate::app::pagination::Motion;
use crate::objects::{entry_views, Entry, ObjectRef};
use crate::text::{Rendering, RenderingView};
use crate::traits::{Drawable, Navigable};
use vstd::prelude::*;

verus! {

/// The entries of the tree that an object leads to: the tree itself, or the
/// root tree of a commit. The page is titled with the name under which the
/// object was selected.
#[derive(Debug, PartialEq, Eq)]
pub struct TreePage {
    object: ObjectRef,
    list: Listing,
}

/// A tree page as a value.
pub ghost struct TreePageView {
    /// The object that the page was opened for.
    pub object: ObjectRef,
    /// Title, entries and cursor.
    pub list: ListingView,
}

impl View for TreePage {
    type V = TreePageView;

    closed spec fn view(&self) -> TreePageView {
        TreePageView { object: self.object, list: self.list@ }
    }
}

impl TreePage {
    /// The page for `object`, selected under `name`, whose tree holds
    /// `entries`; the cursor is on the first entry.
    pub fn new(object: ObjectRef, name: String, entries: Vec<Entry>) -> (page: TreePage)
        ensures
            page@ == (TreePageView {
                object,
                list: ListingView { title: name@, entries: entry_views(entries@), cursor: 0 },
            }),
    {
        TreePage { object, list: Listing::new(name, entries) }
    }

    /// The object that the page was opened for.
    pub fn object(&self) -> (object: ObjectRef)
        ensures
            object == self@.object,
    {
        self.object
    }

    /// Number of entries.
    pub fn len(&self) -> (count: usize)
        ensures
            count == self@.list.entries.len(),
    {
        self.list.len()
    }

    /// Index of the entry under the cursor; 0 if there is none.
    pub fn cursor(&self) -> (cursor: usize)
        ensures
            cursor == self@.list.cursor,
            self@.list.in_range(),
    {
        self.list.cursor()
    }
}

impl TreePageView {
    /// The page after `motion`: only the cursor changes.
    pub open spec fn moved(self, motion: Motion) -> TreePageView {
        TreePageView { list: self.list.moved(motion), ..self }
    }
}

impl Drawable for TreePage {
    open spec fn heading(&self) -> Seq<char> {
        self@.list.title
    }

    open spec fn rendering(&self, terminal_height: u16, reserved_rows: u16) -> RenderingView {
        RenderingView::List(self@.list.rows())
    }

    /// Returns every entry as a row, the one under the cursor highlighted,
    /// whatever the terminal's height.
    fn draw(&self, terminal_height: u16, reserved_rows: u16) -> (body: Rendering) {
        self.list.draw()
    }

    fn title(&self) -> (text: String) {
        self.list.title()
    }
}

impl Navigable for TreePage {
    open spec fn item_count(&self) -> nat {
        self@.list.entries.len()
    }

    open spec fn position(&self) -> nat {
        self@.list.cursor
    }

    open spec fn selection(&self) -> Option<(ObjectRef, Seq<char>)> {
        self@.list.selection()
    }

    open spec fn label(&self) -> Seq<char> {
        self@.list.label()
    }

    fn next_selection(&mut self)
        ensures
            final(self)@ == old(self)@.moved(Motion::Next),
            old(self)@.list.in_range(),
            old(self)@.list.entries.len() == 0 ==> final(self)@ == old(self)@,
    {
        self.list.next_selection();
    }

    fn previous_selection(&mut self)
        ensures
            final(self)@ == old(self)@.moved(Motion::Previous),
            old(self)@.list.in_range(),
            old(self)@.list.entries.len() == 0 ==> final(self)@ == old(self)@,
    {
        self.list.previous_selection();
    }

    fn pagedown(&mut self, page_size: u16)
        ensures
            final(self)@ == old(self)@.moved(Motion::PageDown(page_size)),
            old(self)@.list.in_range(),
            old(self)@.list.entries.len() == 0 ==> final(self)@ == old(self)@,
    {
        self.list.pagedown(page_size);
    }

    fn pageup(&mut self, page_size: u16)
        ensures
            final(self)@ == old(self)@.moved(Motion::PageUp(page_size)),
            old(self)@.list.in_range(),
            old(self)@.list.entries.len() == 0 ==> final(self)@ == old(self)@,
    {
        self.list.pageup(page_size);
    }

    /// Returns the entry under the cursor: its object and its name.
    fn select(&self) -> (selection: Option<(ObjectRef, String)>) {
        self.list.select()
    }

    fn selected_item(&self) -> (text: String) {
        self.list.selected_item()
    }
}

} // verus!
