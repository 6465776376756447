//! The two capabilities that every page offers: it can be drawn, and it can
//! be moved through.

use crate::app::pagination::{last_index, moved, Motion};
use crate::objects::ObjectRef;
use crate::text::{Rendering, RenderingView};
use vstd::prelude::*;

verus! {

/// What activating an item yields, as a value: the object and the characters
/// of its name.
pub open spec fn selection_view(selection: Option<(ObjectRef, String)>) -> Option<
    (ObjectRef, Seq<char>),
> {
    match selection {
        Some((object, name)) => Some((object, name@)),
        None => None,
    }
}

/// A page that can be painted. Drawing reads the page and never changes it.
pub trait Drawable {
    /// The page's title.
    spec fn heading(&self) -> Seq<char>;

    /// The page's body on a terminal of `terminal_height` rows of which
    /// `reserved_rows` are taken by what surrounds the page.
    spec fn rendering(&self, terminal_height: u16, reserved_rows: u16) -> RenderingView;

    /// Returns the body to paint, clipped as `rendering` says.
    fn draw(&self, terminal_height: u16, reserved_rows: u16) -> (body: Rendering)
        ensures
            body@ == self.rendering(terminal_height, reserved_rows),
    ;

    /// Returns the page's title.
    fn title(&self) -> (text: String)
        ensures
            text@ == self.heading(),
    ;
}

/// A page with a position that the user moves: the highlighted entry of a
/// list, the first visible line of a pager. The position never leaves the
/// page's items: it is on an item before and after every move, and a page
/// without items keeps it at 0.
pub trait Navigable {
    /// Number of items the position ranges over.
    spec fn item_count(&self) -> nat;

    /// The current position.
    spec fn position(&self) -> nat;

    /// What activating the current item yields; `None` where items lead
    /// nowhere.
    spec fn selection(&self) -> Option<(ObjectRef, Seq<char>)>;

    /// The text that stands for the current item.
    spec fn label(&self) -> Seq<char>;

    /// Moves one item down; stays on the last item.
    fn next_selection(&mut self)
        ensures
            final(self).item_count() == old(self).item_count(),
            final(self).position() == moved(
                old(self).position(),
                Motion::Next,
                old(self).item_count(),
            ),
            old(self).position() <= last_index(old(self).item_count()),
            final(self).position() <= last_index(final(self).item_count()),
            old(self).item_count() == 0 ==> final(self).position() == old(self).position(),
    ;

    /// Moves one item up; stays on the first item.
    fn previous_selection(&mut self)
        ensures
            final(self).item_count() == old(self).item_count(),
            final(self).position() == moved(
                old(self).position(),
                Motion::Previous,
                old(self).item_count(),
            ),
            old(self).position() <= last_index(old(self).item_count()),
            final(self).position() <= last_index(final(self).item_count()),
            old(self).item_count() == 0 ==> final(self).position() == old(self).position(),
    ;

    /// Moves `page_size` items down; stops at the last item.
    fn pagedown(&mut self, page_size: u16)
        ensures
            final(self).item_count() == old(self).item_count(),
            final(self).position() == moved(
                old(self).position(),
                Motion::PageDown(page_size),
                old(self).item_count(),
            ),
            old(self).position() <= last_index(old(self).item_count()),
            final(self).position() <= last_index(final(self).item_count()),
            old(self).item_count() == 0 ==> final(self).position() == old(self).position(),
    ;

    /// Moves `page_size` items up; stops at the first item.
    fn pageup(&mut self, page_size: u16)
        ensures
            final(self).item_count() == old(self).item_count(),
            final(self).position() == moved(
                old(self).position(),
                Motion::PageUp(page_size),
                old(self).item_count(),
            ),
            old(self).position() <= last_index(old(self).item_count()),
            final(self).position() <= last_index(final(self).item_count()),
            old(self).item_count() == 0 ==> final(self).position() == old(self).position(),
    ;

    /// Returns the object and name under the cursor, or `None` where there
    /// is nothing to open. The page is not changed.
    fn select(&self) -> (selection: Option<(ObjectRef, String)>)
        ensures
            selection_view(selection) == self.selection(),
    ;

    /// Returns the text that stands for the current item.
    fn selected_item(&self) -> (text: String)
        ensures
            text@ == self.label(),
    ;
}

} // verus!
