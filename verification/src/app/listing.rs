//! The pattern that the list pages share: a title, an ordered list of named
//! objects, and a cursor on one of them.

use crate::app::pagination::{
    last_index, lemma_motion_stays_in_range, moved, step_backward, step_forward, Motion,
};
use crate::objects::{entry_views, Entry, EntryView, ObjectRef};
use crate::text::{span_views, Rendering, RenderingView, Span, SpanView, Style};
use crate::traits::selection_view;
use vstd::prelude::*;

verus! {

/// A titled list of entries with a cursor. The cursor is always on an entry
/// of the list; on an empty list it is 0.
#[derive(Debug, PartialEq, Eq)]
pub struct Listing {
    title: String,
    entries: Vec<Entry>,
    cursor: usize,
}

/// A listing as a value.
pub ghost struct ListingView {
    pub title: Seq<char>,
    pub entries: Seq<EntryView>,
    pub cursor: nat,
}

impl ListingView {
    /// The cursor is on an entry, or the list is empty and the cursor is 0.
    pub open spec fn in_range(self) -> bool {
        self.cursor <= last_index(self.entries.len())
    }

    /// The listing after `motion`: only the cursor changes.
    pub open spec fn moved(self, motion: Motion) -> ListingView {
        ListingView { cursor: moved(self.cursor, motion, self.entries.len()), ..self }
    }

    /// The listing after the movements of `motions`, first to last.
    pub open spec fn moved_all(self, motions: Seq<Motion>) -> ListingView
        decreases motions.len(),
    {
        if motions.len() == 0 {
            self
        } else {
            self.moved(motions[0]).moved_all(motions.drop_first())
        }
    }

    /// The object and name under the cursor; `None` on an empty list.
    pub open spec fn selection(self) -> Option<(ObjectRef, Seq<char>)> {
        if self.cursor < self.entries.len() {
            Some((self.entries[self.cursor as int].object, self.entries[self.cursor as int].name))
        } else {
            None
        }
    }

    /// The name under the cursor; empty on an empty list.
    pub open spec fn label(self) -> Seq<char> {
        if self.cursor < self.entries.len() {
            self.entries[self.cursor as int].name
        } else {
            Seq::empty()
        }
    }

    /// One row for each entry, in order, showing its name; the row under the
    /// cursor is highlighted.
    pub open spec fn rows(self) -> Seq<SpanView> {
        Seq::new(
            self.entries.len(),
            |i: int|
                SpanView {
                    content: self.entries[i].name,
                    style: if i == self.cursor {
                        Style::highlight()
                    } else {
                        Style::plain()
                    },
                },
        )
    }
}

/// Whatever the movements and their order, the cursor stays on an entry and
/// the entries and the title stay as they are. An empty listing does not
/// change at all.
pub proof fn lemma_cursor_stays_on_an_entry(list: ListingView, motions: Seq<Motion>)
    requires
        list.in_range(),
    ensures
        list.moved_all(motions).in_range(),
        list.moved_all(motions).entries == list.entries,
        list.moved_all(motions).title == list.title,
        list.entries.len() == 0 ==> list.moved_all(motions) == list,
    decreases motions.len(),
{
    if motions.len() > 0 {
        lemma_motion_stays_in_range(list.cursor, motions[0], list.entries.len());
        lemma_cursor_stays_on_an_entry(list.moved(motions[0]), motions.drop_first());
    }
}

impl View for Listing {
    type V = ListingView;

    closed spec fn view(&self) -> ListingView {
        ListingView {
            title: self.title@,
            entries: entry_views(self.entries@),
            cursor: self.cursor as nat,
        }
    }
}

impl Listing {
    #[verifier::type_invariant]
    spec fn cursor_on_an_entry(&self) -> bool {
        self.cursor <= last_index(self.entries@.len())
    }

    /// A listing of `entries` under `title`, with the cursor on the first
    /// entry.
    pub fn new(title: String, entries: Vec<Entry>) -> (listing: Listing)
        ensures
            listing@ == (ListingView { title: title@, entries: entry_views(entries@), cursor: 0 }),
            listing@.in_range(),
    {
        Listing { title, entries, cursor: 0 }
    }

    /// Moves the cursor one entry down; stays on the last entry.
    pub fn next_selection(&mut self)
        ensures
            final(self)@ == old(self)@.moved(Motion::Next),
            old(self)@.in_range(),
            final(self)@.in_range(),
            old(self)@.entries.len() == 0 ==> final(self)@ == old(self)@,
    {
        proof {
            use_type_invariant(&*self);
        }
        self.cursor = step_forward(self.cursor, 1, self.entries.len());
    }

    /// Moves the cursor one entry up; stays on the first entry.
    pub fn previous_selection(&mut self)
        ensures
            final(self)@ == old(self)@.moved(Motion::Previous),
            old(self)@.in_range(),
            final(self)@.in_range(),
            old(self)@.entries.len() == 0 ==> final(self)@ == old(self)@,
    {
        proof {
            use_type_invariant(&*self);
        }
        self.cursor = step_backward(self.cursor, 1);
    }

    /// Moves the cursor `page_size` entries down; stops at the last entry.
    pub fn pagedown(&mut self, page_size: u16)
        ensures
            final(self)@ == old(self)@.moved(Motion::PageDown(page_size)),
            old(self)@.in_range(),
            final(self)@.in_range(),
            old(self)@.entries.len() == 0 ==> final(self)@ == old(self)@,
    {
        proof {
            use_type_invariant(&*self);
        }
        self.cursor = step_forward(self.cursor, page_size as usize, self.entries.len());
    }

    /// Moves the cursor `page_size` entries up; stops at the first entry.
    pub fn pageup(&mut self, page_size: u16)
        ensures
            final(self)@ == old(self)@.moved(Motion::PageUp(page_size)),
            old(self)@.in_range(),
            final(self)@.in_range(),
            old(self)@.entries.len() == 0 ==> final(self)@ == old(self)@,
    {
        proof {
            use_type_invariant(&*self);
        }
        self.cursor = step_backward(self.cursor, page_size as usize);
    }

    /// Returns the object and name under the cursor, or `None` if the list
    /// is empty. The listing is not changed.
    pub fn select(&self) -> (selection: Option<(ObjectRef, String)>)
        ensures
            selection_view(selection) == self@.selection(),
    {
        if self.cursor < self.entries.len() {
            let entry = &self.entries[self.cursor];
            Some((entry.object, entry.name.clone()))
        } else {
            None
        }
    }

    /// Returns the name under the cursor, or the empty string if the list is
    /// empty.
    pub fn selected_item(&self) -> (text: String)
        ensures
            text@ == self@.label(),
    {
        if self.cursor < self.entries.len() {
            self.entries[self.cursor].name.clone()
        } else {
            String::new()
        }
    }

    /// Returns the listing's title.
    pub fn title(&self) -> (text: String)
        ensures
            text@ == self@.title,
    {
        self.title.clone()
    }

    /// Returns the whole list as rows, the row under the cursor highlighted.
    /// A listing does not scroll by itself: the list widget that paints the
    /// rows deals with a list longer than the terminal.
    pub fn draw(&self) -> (body: Rendering)
        ensures
            body@ == RenderingView::List(self@.rows()),
    {
        let mut rows: Vec<Span> = Vec::new();
        let mut i: usize = 0;
        while i < self.entries.len()
            invariant
                i <= self.entries@.len(),
                rows@.len() == i,
                span_views(rows@) =~= self@.rows().subrange(0, i as int),
            decreases self.entries@.len() - i,
        {
            let style = if i == self.cursor {
                Style { fg: None, bold: false, reversed: true }
            } else {
                Style { fg: None, bold: false, reversed: false }
            };
            let ghost before = rows@;
            rows.push(Span { content: self.entries[i].name.clone(), style });
            assert forall|j: int| 0 <= j <= i implies span_views(rows@)[j] == self@.rows()[j] by {
                if j < i {
                    assert(span_views(before)[j] == self@.rows().subrange(0, i as int)[j]);
                }
            }
            i += 1;
        }
        assert(self@.rows().subrange(0, i as int) =~= self@.rows());
        Rendering::List(rows)
    }

    /// Number of entries.
    pub fn len(&self) -> (count: usize)
        ensures
            count == self@.entries.len(),
    {
        self.entries.len()
    }

    /// Index of the entry under the cursor; 0 on an empty list.
    pub fn cursor(&self) -> (cursor: usize)
        ensures
            cursor == self@.cursor,
            self@.in_range(),
    {
        proof {
            use_type_invariant(self);
        }
        self.cursor
    }
}

} // verus!
