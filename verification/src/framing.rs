//! The frame of a package file: the lead and the two header sections.
//!
//! A header section is an index of 16-byte entries followed by a store of
//! values; each entry says where in the store its value begins and how
//! many items it has.  The header parser follows those numbers as it finds
//! them.  Before a file is handed to it, the numbers are therefore held
//! against the sizes of the sections: a file whose entries point outside
//! their store, or count more items than the store has bytes, is no
//! package.

use vstd::prelude::*;

use crate::outside::{parse_package, parsed_package};

verus! {

/// The length of the lead that a package file begins with.
pub const LEAD_SIZE: usize = 96;

/// The big-endian 32-bit word at `at`.
pub open spec fn word_at(data: Seq<u8>, at: int) -> int {
    data[at] as int * 0x100_0000 + data[at + 1] as int * 0x1_0000 + data[at + 2] as int * 0x100
        + data[at + 3] as int
}

/// How many entries the header section at `start` announces.
pub open spec fn entry_count(data: Seq<u8>, start: int) -> int {
    word_at(data, start + 8)
}

/// How many bytes the store of the header section at `start` has.
pub open spec fn store_size(data: Seq<u8>, start: int) -> int {
    word_at(data, start + 12)
}

/// Where the header section at `start` ends.
pub open spec fn header_end(data: Seq<u8>, start: int) -> int {
    start + 16 + 16 * entry_count(data, start) + store_size(data, start)
}

/// Entry `i` of the section at `start` fits a store of `size` bytes: its
/// value begins within the store, and unless its type is the null type it
/// has no more items than the store has bytes.
pub open spec fn entry_fits(data: Seq<u8>, start: int, i: int, size: int) -> bool {
    let at = start + 16 + 16 * i;
    &&& word_at(data, at + 8) <= size
    &&& word_at(data, at + 8) <= i32::MAX
    &&& (word_at(data, at + 4) == 0 || word_at(data, at + 12) <= size)
}

/// The bytes from `start` on hold a whole header section whose entries fit
/// its store.
pub open spec fn header_framed(data: Seq<u8>, start: int) -> bool {
    &&& start + 16 <= data.len()
    &&& 16 * entry_count(data, start) + store_size(data, start) <= u32::MAX
    &&& header_end(data, start) <= data.len()
    &&& forall|i: int|
        0 <= i < entry_count(data, start) ==> #[trigger] entry_fits(
            data,
            start,
            i,
            store_size(data, start),
        )
}

/// Where the main header begins: after the signature header, which is
/// filled up to a multiple of 8 bytes.
pub open spec fn main_header_start(data: Seq<u8>) -> int {
    header_end(data, LEAD_SIZE as int) + (8 - store_size(data, LEAD_SIZE as int) % 8) % 8
}

/// The bytes hold a lead and, after it, two framed header sections.
pub open spec fn package_framed(data: Seq<u8>) -> bool {
    &&& header_framed(data, LEAD_SIZE as int)
    &&& header_framed(data, main_header_start(data))
}

/// The lead and headers of a package file, and its payload; `None` for
/// bytes that are not framed or that the header parser refuses.
pub open spec fn package_of(data: Seq<u8>) -> Option<(rpm::PackageMetadata, Seq<u8>)> {
    if package_framed(data) {
        parsed_package(data)
    } else {
        None
    }
}

/// Reads the big-endian 32-bit word at `at`.
fn word(data: &[u8], at: usize) -> (r: u32)
    requires
        at + 4 <= data@.len(),
    ensures
        r == word_at(data@, at as int),
{
    let b0 = data[at] as u32;
    let b1 = data[at + 1] as u32;
    let b2 = data[at + 2] as u32;
    let b3 = data[at + 3] as u32;
    b0 * 0x100_0000 + b1 * 0x1_0000 + b2 * 0x100 + b3
}

/// Goes through the header section at `start` and returns where it ends,
/// if the section is framed.
pub fn frame_end(data: &[u8], start: usize) -> (r: Option<usize>)
    ensures
        match r {
            Some(end) => header_framed(data@, start as int) && end == header_end(
                data@,
                start as int,
            ),
            None => !header_framed(data@, start as int),
        },
{
    let len = data.len();
    if start > len || len - start < 16 {
        return None;
    }
    let count = word(data, start + 8) as u64;
    let size = word(data, start + 12) as u64;
    let total = 16 * count + size;
    if total > u32::MAX as u64 {
        return None;
    }
    if ((len - start - 16) as u64) < total {
        return None;
    }
    let mut i: u64 = 0;
    while i < count
        invariant
            i <= count,
            len == data@.len(),
            count == entry_count(data@, start as int),
            size == store_size(data@, start as int),
            16 * count + size <= u32::MAX,
            start + 16 + 16 * count + size <= data@.len(),
            forall|j: int| 0 <= j < i ==> #[trigger] entry_fits(data@, start as int, j, size as int),
        decreases count - i,
    {
        let at = start + 16 + 16 * (i as usize);
        let kind = word(data, at + 4);
        let offset = word(data, at + 8) as u64;
        let items = word(data, at + 12) as u64;
        if offset > size || offset > i32::MAX as u64 || (kind != 0 && items > size) {
            assert(!entry_fits(data@, start as int, i as int, size as int));
            return None;
        }
        i += 1;
    }
    Some(start + 16 + total as usize)
}

/// Tells whether the bytes are framed as a package file is.
pub fn is_framed(data: &[u8]) -> (r: bool)
    ensures
        r == package_framed(data@),
{
    match frame_end(data, LEAD_SIZE) {
        Some(end) => {
            let size = word(data, LEAD_SIZE + 12);
            let padding = ((8 - size % 8) % 8) as usize;
            if data.len() - end < padding {
                false
            } else {
                frame_end(data, end + padding).is_some()
            }
        },
        None => false,
    }
}

/// Parses the lead and the headers of a package file.  Returns them with
/// the payload, which is what follows them.
pub fn open_package<'a>(data: &'a [u8]) -> (r: Option<(rpm::PackageMetadata, &'a [u8])>)
    ensures
        match r {
            Some((meta, payload)) => package_of(data@) == Some((meta, payload@)),
            None => package_of(data@) is None,
        },
{
    if !is_framed(data) {
        return None;
    }
    match parse_package(data) {
        Ok(parsed) => Some(parsed),
        Err(_) => None,
    }
}

} // verus!
