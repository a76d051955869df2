//! A titled list of entries with a cursor.

use crate::system::button::{Pad, DPAD_DOWN, DPAD_UP};
use vstd::prelude::*;

verus! {

/// A list menu: a heading, the entries from top to bottom, and the index of
/// the entry that the cursor is on.
///
/// A menu is built afresh for every frame that shows it; nothing of it is
/// kept between frames but the cursor, which its owner stores.
#[derive(Debug)]
pub struct SimpleMenu {
    heading: &'static str,
    entries: Vec<&'static str>,
    cursor: u32,
}

/// What a [`SimpleMenu`] holds.
pub struct SimpleMenuView {
    pub heading: Seq<char>,
    pub entries: Seq<Seq<char>>,
    pub cursor: int,
}

impl View for SimpleMenu {
    type V = SimpleMenuView;

    closed spec fn view(&self) -> SimpleMenuView {
        SimpleMenuView {
            heading: self.heading@,
            entries: self.entries@.map_values(|entry: &'static str| entry@),
            cursor: self.cursor as int,
        }
    }
}

/// Where a cursor at `cursor` in a list of `count` entries goes under `pad`:
/// one entry down on d-pad down, one entry up on d-pad up, around the ends
/// of the list, and nowhere otherwise.
pub open spec fn cursor_after(cursor: int, count: int, pad: Pad) -> int {
    if count <= 0 {
        cursor
    } else if pad.pressing(DPAD_DOWN) {
        (cursor + 1) % count
    } else if pad.pressing(DPAD_UP) {
        (cursor + count - 1) % count
    } else {
        cursor
    }
}

impl SimpleMenu {
    /// An empty menu: no heading, no entries, the cursor at the top.
    pub fn new() -> (menu: SimpleMenu)
        ensures
            menu@ == (SimpleMenuView { heading: ""@, entries: Seq::empty(), cursor: 0 }),
    {
        let menu = SimpleMenu { heading: "", entries: Vec::new(), cursor: 0 };
        assert(menu.entries@.map_values(|entry: &'static str| entry@) =~= Seq::empty());
        menu
    }

    pub fn set_heading(&mut self, heading: &'static str)
        ensures
            final(self)@ == (SimpleMenuView { heading: heading@, ..old(self)@ }),
    {
        self.heading = heading;
    }

    /// Adds an entry below the ones that are there.
    pub fn add_entry(&mut self, entry: &'static str)
        ensures
            final(self)@ == (SimpleMenuView {
                entries: old(self)@.entries.push(entry@),
                ..old(self)@
            }),
    {
        self.entries.push(entry);
        assert(self.entries@.map_values(|entry: &'static str| entry@) =~= old(
            self,
        ).entries@.map_values(|entry: &'static str| entry@).push(entry@));
    }

    pub fn set_cursor(&mut self, cursor: u32)
        ensures
            final(self)@ == (SimpleMenuView { cursor: cursor as int, ..old(self)@ }),
    {
        self.cursor = cursor;
    }

    pub fn heading(&self) -> (heading: &'static str)
        ensures
            heading@ == self@.heading,
    {
        self.heading
    }

    pub fn len(&self) -> (count: usize)
        ensures
            count == self@.entries.len(),
    {
        self.entries.len()
    }

    pub fn entry(&self, index: usize) -> (entry: &'static str)
        requires
            index < self@.entries.len(),
        ensures
            entry@ == self@.entries[index as int],
    {
        self.entries[index]
    }

    pub fn cursor(&self) -> (cursor: u32)
        ensures
            cursor == self@.cursor,
    {
        self.cursor
    }

    /// The cursor's place after this frame's input. The list must be short
    /// enough for a cursor to reach its last entry.
    pub fn move_cursor(&self, pad: &Pad) -> (cursor: u32)
        requires
            self@.entries.len() <= u32::MAX,
        ensures
            cursor == cursor_after(self@.cursor, self@.entries.len() as int, *pad),
    {
        move_cursor(self.cursor, self.entries.len() as u32, pad)
    }
}

/// Moves a cursor through a list of `count` entries by this frame's input.
pub fn move_cursor(cursor: u32, count: u32, pad: &Pad) -> (moved: u32)
    ensures
        moved == cursor_after(cursor as int, count as int, *pad),
{
    let count: u64 = count as u64;
    let at: u64 = cursor as u64;
    if count == 0 {
        cursor
    } else if pad.is_pressed(DPAD_DOWN) {
        ((at + 1) % count) as u32
    } else if pad.is_pressed(DPAD_UP) {
        ((at + count - 1) % count) as u32
    } else {
        cursor
    }
}

} // verus!
