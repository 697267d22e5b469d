//! The SD-card file browser's state: the fixed timestamp stamped onto
//! files and the scrolling window over the listed directory entries.
//! Reading the card and drawing the list stay with the host.

use vstd::prelude::*;

verus! {

/// A time source for the card's filesystem that always reports the epoch:
/// year 1970, month 0, day 0, midnight.
pub struct SdLocalTimeSource;

impl SdLocalTimeSource {
    /// The fixed timestamp, as `(years since 1970, month, day, hours,
    /// minutes, seconds)` with zero-indexed month and day.
    pub fn get_timestamp(&self) -> (t: (u8, u8, u8, u8, u8, u8))
        ensures
            t == (0u8, 0u8, 0u8, 0u8, 0u8, 0u8),
    {
        (0, 0, 0, 0, 0, 0)
    }
}

/// One listed file: its name and its size in bytes.
#[derive(Clone, Debug, PartialEq)]
pub struct FileEntry {
    pub name: String,
    pub size: u32,
}

/// A scrolling window over a directory listing: at most `limit` entries
/// are visible, starting `offset` entries into the list.
pub struct FileList {
    files: Vec<FileEntry>,
    offset: usize,
    limit: usize,
}

impl FileList {
    /// The listed entries.
    pub closed spec fn entries(&self) -> Seq<FileEntry> {
        self.files@
    }

    /// How many files the listing holds.
    pub open spec fn file_count(&self) -> int {
        self.entries().len() as int
    }

    /// How far the window is scrolled into the list.
    pub closed spec fn offset(&self) -> int {
        self.offset as int
    }

    /// How many entries are visible at once.
    pub closed spec fn limit(&self) -> int {
        self.limit as int
    }

    /// The window never scrolls past the end of the list.
    pub open spec fn wf(&self) -> bool {
        self.offset() <= self.file_count()
    }

    /// A listing of `files`, not scrolled, showing six entries at a time.
    pub fn new(files: Vec<FileEntry>) -> (l: FileList)
        ensures
            l.wf(),
            l.entries() == files@,
            l.offset() == 0,
            l.limit() == 6,
    {
        FileList { files, offset: 0, limit: 6 }
    }

    /// Whether more entries lie below the window, so that it can scroll
    /// further into the list.
    pub fn can_scroll_up(&self) -> (b: bool)
        requires
            self.wf(),
        ensures
            b == (self.file_count() - self.offset() > self.limit()),
    {
        self.files.len() - self.offset > self.limit
    }

    /// Whether the window is scrolled at all, so that it can scroll back
    /// towards the top.
    pub fn can_scroll_down(&self) -> (b: bool)
        ensures
            b == (self.offset() > 0),
    {
        self.offset > 0
    }

    /// Scrolls one entry further into the list, when more entries lie
    /// below the window.
    pub fn scroll_up(&mut self)
        requires
            old(self).wf(),
        ensures
            final(self).wf(),
            final(self).entries() == old(self).entries(),
            final(self).limit() == old(self).limit(),
            final(self).offset() == (if old(self).file_count() - old(self).offset()
                > old(self).limit() {
                old(self).offset() + 1
            } else {
                old(self).offset()
            }),
    {
        let count = self.files.len();
        if self.can_scroll_up() {
            assert(self.offset < count);
            self.offset = self.offset + 1;
        }
    }

    /// Scrolls one entry back towards the top, when the window is
    /// scrolled at all.
    pub fn scroll_down(&mut self)
        requires
            old(self).wf(),
        ensures
            final(self).wf(),
            final(self).entries() == old(self).entries(),
            final(self).limit() == old(self).limit(),
            final(self).offset() == (if old(self).offset() > 0 {
                old(self).offset() - 1
            } else {
                0int
            }),
    {
        if self.can_scroll_down() {
            self.offset = self.offset - 1;
        }
    }

    /// The bounds of the visible window: the first visible entry and one
    /// past the last.
    pub fn visible_bounds(&self) -> (bounds: (usize, usize))
        requires
            self.wf(),
        ensures
            bounds.0 == self.offset(),
            bounds.1 == (if self.offset() + self.limit() <= self.file_count() {
                self.offset() + self.limit()
            } else {
                self.file_count()
            }),
    {
        let upper: usize = if self.files.len() - self.offset > self.limit {
            self.offset + self.limit
        } else {
            self.files.len()
        };
        (self.offset, upper)
    }

    /// The entry at `index`.
    pub fn entry(&self, index: usize) -> (e: &FileEntry)
        requires
            index < self.file_count(),
        ensures
            *e == self.entries()[index as int],
    {
        &self.files[index]
    }
}

} // verus!
