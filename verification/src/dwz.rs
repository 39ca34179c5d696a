//! The build-id of a deduplicated debug image.
//!
//! Packages ship such images below `/usr/lib/debug/.dwz/` without a
//! build-id link, so the id is read from the image itself.  The images are
//! small ELF objects whose build-id note stands near the front: only the
//! first 256 bytes are searched.  A note counts where its mark and the 20
//! bytes of the id both lie within those bytes; one that reaches past them
//! is not looked for.

use vstd::prelude::*;

use crate::build_id::{BuildId, BUILD_CHARS};
use crate::package::{dwz_dir, DWZ_DEBUG_INFO_PATH};
use crate::payload::found_in_package;
use crate::server::Server;
use crate::text::{has_prefix, starts_with};

verus! {

/// How many bytes of an image are searched.
pub const WINDOW: usize = 256;

/// The end of a note header that announces a GNU build-id: the note type 3
/// as a little-endian word, then the owner `GNU` with its closing zero.
pub const BUILD_ID_ELF_PREFIX: [u8; 8] = [0x03, 0x00, 0x00, 0x00, 0x47, 0x4e, 0x55, 0x00];

/// How many bytes a mark and the build-id after it take up.
pub const NOTE_SIZE: usize = 8 + BUILD_CHARS;

/// The mark as a sequence of bytes.
pub open spec fn note_mark() -> Seq<u8> {
    BUILD_ID_ELF_PREFIX@
}

/// The bytes of a file that are searched: its first 256, or all of it
/// where it is shorter.
pub open spec fn window_of(content: Seq<u8>) -> Seq<u8> {
    if content.len() <= WINDOW {
        content
    } else {
        content.subrange(0, WINDOW as int)
    }
}

/// The mark stands at position `at` of the window.
pub open spec fn mark_at(window: Seq<u8>, at: int) -> bool {
    window.subrange(at, at + 8) == note_mark()
}

/// The first position from `from` on at which the mark stands with room
/// for a build-id after it.
pub open spec fn first_mark(window: Seq<u8>, from: int) -> Option<int>
    decreases window.len() - from,
{
    if from < 0 || from + NOTE_SIZE > window.len() {
        None
    } else if mark_at(window, from) {
        Some(from)
    } else {
        first_mark(window, from + 1)
    }
}

/// The build-id that the front of an image announces: the 20 bytes after
/// the first mark.
pub open spec fn build_id_note(content: Seq<u8>) -> Option<Seq<u8>> {
    let window = window_of(content);
    match first_mark(window, 0) {
        Some(at) => Some(window.subrange(at + 8, at + NOTE_SIZE as int)),
        None => None,
    }
}

/// Tells whether the mark stands at position `at` of `window`.
fn has_mark_at(window: &[u8], at: usize) -> (r: bool)
    requires
        at + 8 <= window@.len() <= WINDOW,
    ensures
        r == mark_at(window@, at as int),
{
    let mut i: usize = 0;
    while i < 8
        invariant
            i <= 8,
            at + 8 <= window@.len() <= WINDOW,
            forall|j: int| 0 <= j < i ==> window@[at + j] == note_mark()[j],
        decreases 8 - i,
    {
        if window[at + i] != BUILD_ID_ELF_PREFIX[i] {
            assert(window@.subrange(at as int, at + 8)[i as int] != note_mark()[i as int]);
            return false;
        }
        i += 1;
    }
    assert(window@.subrange(at as int, at + 8) =~= note_mark());
    true
}

/// Searches the front of an image for its build-id note.
pub fn find_build_id_note(content: &[u8]) -> (r: Option<BuildId>)
    ensures
        match r {
            Some(build_id) => build_id_note(content@) == Some(build_id@),
            None => build_id_note(content@) is None,
        },
{
    let window = if content.len() <= WINDOW {
        content
    } else {
        vstd::slice::slice_subrange(content, 0, WINDOW)
    };
    assert(window@ == window_of(content@));
    let mut at: usize = 0;
    while at + NOTE_SIZE <= window.len()
        invariant
            at <= window@.len() <= WINDOW,
            window@ == window_of(content@),
            first_mark(window@, 0) == first_mark(window@, at as int),
        decreases window@.len() - at,
    {
        if has_mark_at(window, at) {
            let mut build_id: BuildId = [0u8; BUILD_CHARS];
            let mut i: usize = 0;
            while i < BUILD_CHARS
                invariant
                    i <= BUILD_CHARS,
                    at + NOTE_SIZE <= window@.len() <= WINDOW,
                    forall|j: int| 0 <= j < i ==> build_id@[j] == window@[at + 8 + j],
                decreases BUILD_CHARS - i,
            {
                build_id[i] = window[at + 8 + i];
                i += 1;
            }
            assert(build_id@ =~= window@.subrange(at + 8, at + NOTE_SIZE as int));
            return Some(build_id);
        }
        at += 1;
    }
    None
}

/// The predicate that holds of the paths below the dwz directory.
pub open spec fn below_dwz() -> spec_fn(Seq<char>) -> bool {
    |path: Seq<char>| has_prefix(path, dwz_dir())
}

/// The build-id of the first deduplicated debug image in a package, with
/// the payload path of the image.
pub open spec fn dwz_build_id(rpm: Seq<u8>) -> Option<(Seq<u8>, Seq<char>)> {
    match found_in_package(rpm, below_dwz()) {
        Ok((path, content)) => match build_id_note(content) {
            Some(build_id) => Some((build_id, path)),
            None => None,
        },
        Err(_) => None,
    }
}

/// The image that a build-id was read from lies below the dwz directory.
pub proof fn lemma_dwz_path(rpm: Seq<u8>)
    ensures
        dwz_build_id(rpm) matches Some((_, path)) ==> has_prefix(path, dwz_dir()),
{
    crate::payload::lemma_found_in_package_is_wanted(rpm, below_dwz());
}

impl Server {
    /// Reads the build-id of the first file below `/usr/lib/debug/.dwz/`
    /// in the payload of the package `rpm`.
    pub fn get_build_id_for_dwz(&self, rpm: &[u8]) -> (r: Option<(BuildId, String)>)
        ensures
            match r {
                Some((build_id, path)) => dwz_build_id(rpm@) == Some((build_id@, path@)),
                None => dwz_build_id(rpm@) is None,
            },
    {
        let selector = |path: &str| -> (chosen: bool)
            ensures
                chosen == has_prefix(path@, dwz_dir()),
            { starts_with(path, DWZ_DEBUG_INFO_PATH) };
        assert(crate::payload::selects(selector, below_dwz()));
        match self.get_rpm_file_stream(rpm, selector) {
            Ok((content, path)) => match find_build_id_note(content.as_slice()) {
                Some(build_id) => Some((build_id, path)),
                None => None,
            },
            Err(_) => None,
        }
    }
}

} // verus!
