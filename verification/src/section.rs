//! Reading one section out of an ELF image.

use vstd::prelude::*;

use crate::outside::{
    elf_section_data, elf_section_header, file_range, find_section_header, is_stored,
    read_section_data,
};
use crate::payload::file_in_package;
use crate::server::Server;

verus! {

/// The type of a section that takes up no bytes in the file.
pub const SHT_NOBITS: u32 = 8;

/// The bytes of the section called `name` in an ELF image: none where the
/// image has no such section, or has one that takes up no bytes in the
/// file.
pub open spec fn section_of(image: Seq<u8>, name: Seq<char>) -> Option<Seq<u8>> {
    match elf_section_header(image, name) {
        Some(header) => if header.sh_type == SHT_NOBITS {
            None
        } else {
            elf_section_data(image, header)
        },
        None => None,
    }
}

/// The bytes of the section `section` of the file that a package holds
/// under the path `file`.
pub open spec fn section_in_package(rpm: Seq<u8>, file: Seq<char>, section: Seq<char>) -> Option<
    Seq<u8>,
> {
    match file_in_package(rpm, file) {
        Some(image) => section_of(image, section),
        None => None,
    }
}

/// The bytes of a vector that may be absent.
pub open spec fn section_bytes(bytes: Option<Vec<u8>>) -> Option<Seq<u8>> {
    match bytes {
        Some(b) => Some(b@),
        None => None,
    }
}

/// `bytes` are what the section called `name` takes up in an ELF image:
/// the image has a section of that name, the section takes up bytes in the
/// file and, unless it is marked as compressed, its range from `sh_offset`
/// on, `sh_size` long, lies within the image and holds `bytes`.
pub open spec fn is_section(image: Seq<u8>, name: Seq<char>, bytes: Seq<u8>) -> bool {
    elf_section_header(image, name) matches Some(header) && header.sh_type != SHT_NOBITS && (
    is_stored(header) ==> header.sh_offset + header.sh_size <= image.len() && bytes == file_range(
        image,
        header,
    ))
}

/// What an image holds of a section that is stored as it is: the range
/// from `sh_offset` on, `sh_size` long, where that lies within the image.
pub open spec fn stored_section(image: Seq<u8>, header: elf::section::SectionHeader) -> Option<
    Seq<u8>,
> {
    if header.sh_offset + header.sh_size <= image.len() {
        Some(file_range(image, header))
    } else {
        None
    }
}

/// What the section called `name` takes up in an image, where the image
/// has such a section and holds it as it is.
pub open spec fn stored_section_of(image: Seq<u8>, name: Seq<char>) -> Option<Seq<u8>> {
    match elf_section_header(image, name) {
        Some(header) => stored_section(image, header),
        None => None,
    }
}

/// The section called `name` is one of the image, and one that the image
/// holds as it is.
pub open spec fn has_stored_section(image: Seq<u8>, name: Seq<char>) -> bool {
    elf_section_header(image, name) matches Some(header) && is_stored(header)
}

/// Reads the section called `name` out of an ELF image.  What comes back
/// is a copy of the bytes that the section takes up in the image: for a
/// section that is stored as it is, its range of the image, and nothing
/// where that range does not lie within the image.
pub fn read_section(image: &[u8], name: &str) -> (r: Option<Vec<u8>>)
    ensures
        match r {
            Some(bytes) => section_of(image@, name@) == Some(bytes@),
            None => section_of(image@, name@) is None,
        },
        r matches Some(bytes) ==> is_section(image@, name@, bytes@),
        has_stored_section(image@, name@) ==> section_bytes(r) == stored_section_of(image@, name@),
{
    match find_section_header(image, name) {
        Some(header) => {
            if header.sh_type == SHT_NOBITS {
                None
            } else {
                read_section_data(image, &header)
            }
        },
        None => None,
    }
}

impl Server {
    /// Reads the section `section` of the ELF file at the payload path
    /// `file` out of the package `rpm`.  What comes back is a copy of the
    /// bytes that the section takes up in that file.
    pub fn read_rpm_file_section(&self, rpm: &[u8], file: &str, section: &str) -> (r: Option<
        Vec<u8>,
    >)
        ensures
            match r {
                Some(bytes) => section_in_package(rpm@, file@, section@) == Some(bytes@),
                None => section_in_package(rpm@, file@, section@) is None,
            },
            r matches Some(bytes) ==> (file_in_package(rpm@, file@) matches Some(image)
                && is_section(image, section@, bytes@)),
            file_in_package(rpm@, file@) matches Some(image) ==> (has_stored_section(
                image,
                section@,
            ) ==> section_bytes(r) == stored_section_of(image, section@)),
    {
        match self.read_rpm_file(rpm, file) {
            Some(image) => read_section(image.as_slice(), section),
            None => None,
        }
    }
}

} // verus!
