//! The system clipboard, modelled as one global resource behind an
//! exclusive lock.
//!
//! `locked` says that some other holder has the clipboard open; acquisition
//! then fails at once — the bridge never blocks and never retries. Both
//! operations release whatever they acquired on every path, so neither ever
//! leaves the clipboard more locked than it found it: an independent
//! acquisition attempt made immediately after either succeeds whenever it
//! would have succeeded before.

use crate::wide::{decode_wide, nul_prefix_len};
use vstd::prelude::*;

verus! {

/// The clipboard: its lock, and its native contents — wide text, or absent
/// when the clipboard is empty or holds no text format.
pub struct ClipboardModel {
    pub locked: bool,
    pub content: Option<Vec<u16>>,
}

/// What the clipboard holds, as a mathematical value.
pub open spec fn content_view(c: Option<Vec<u16>>) -> Option<Seq<u16>> {
    match c {
        Some(v) => Some(v@),
        None => None,
    }
}

/// The portable text a wide clipboard content decodes to: its prefix up to
/// the first NUL, decoded lossily.
pub open spec fn decoded_content(units: Seq<u16>) -> Seq<char> {
    decode_wide(units.take(nul_prefix_len(units)))
}

impl ClipboardModel {
    /// An unlocked, empty clipboard.
    pub fn new() -> (r: ClipboardModel)
        ensures
            !r.locked,
            r.content is None,
    {
        ClipboardModel { locked: false, content: None }
    }

    /// What a synthesized copy chord leaves behind once the settle delay has
    /// passed: the foreground selection as wide text. With nothing selected,
    /// or with the clipboard held by another process, the contents stay as
    /// they were. Synthesis failure is not distinguished from success — the
    /// subsequent read is the source of truth.
    pub fn synthesize_copy(&mut self, selection: Option<Vec<u16>>)
        ensures
            final(self).locked == old(self).locked,
            old(self).locked ==> content_view(final(self).content) == content_view(
                old(self).content,
            ),
            !old(self).locked ==> content_view(final(self).content) == (match selection {
                Some(sel) => Some(sel@),
                None => content_view(old(self).content),
            }),
    {
        if !self.locked {
            match selection {
                Some(sel) => {
                    self.content = Some(sel);
                },
                None => {},
            }
        }
    }

    /// Read the clipboard's text: acquire the lock, decode the native wide
    /// text lossily, and release the lock, on every path. Acquisition
    /// failure, like non-text content, is an absent result, never an error.
    pub fn read_text(&mut self) -> (r: Option<String>)
        ensures
            final(self).locked == old(self).locked,
            content_view(final(self).content) == content_view(old(self).content),
            old(self).locked ==> r is None,
            !old(self).locked && old(self).content is None ==> r is None,
            match old(self).content {
                Some(units) => !old(self).locked ==> (r matches Some(s) && s@ == decoded_content(
                    units@,
                )),
                None => true,
            },
    {
        if self.locked {
            return None;
        }
        match &self.content {
            None => None,
            Some(units) => Some(crate::wide::decode_wide_nul_terminated(units.as_slice())),
        }
    }

    /// Empty the clipboard: acquire the lock, clear, release. Reports whether
    /// the clear happened; when the clipboard is held by another process it
    /// does not, and the contents stay.
    pub fn clear(&mut self) -> (cleared: bool)
        ensures
            final(self).locked == old(self).locked,
            cleared == !old(self).locked,
            cleared ==> final(self).content is None,
            !cleared ==> content_view(final(self).content) == content_view(old(self).content),
    {
        if self.locked {
            return false;
        }
        self.content = None;
        true
    }
}

} // verus!
