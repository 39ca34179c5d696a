//! The look-ups by build-id.
//!
//! A look-up first finds, in the index, the package and the payload path
//! to read, and then reads.  The library opens no files: each look-up
//! takes a function that hands it the bytes of the package file at a path,
//! or nothing where the file cannot be had.

use vstd::prelude::*;
use vstd::string::StringExecFns;

use crate::build_id::{parse_build_id, parsed_build_id, BuildId, BuildIdError};
use crate::package::DEBUG_INFO_PATH;
use crate::paths::path_of;
use crate::payload::file_in_package;
use crate::section::section_in_package;
use crate::server::{record_for, Server, ServerView};
use crate::text::{ends_with, has_prefix, has_suffix, starts_with};

verus! {

/// The package that holds the debug file of a build-id, and the payload
/// path of that file.
pub open spec fn debuginfo_location(server: ServerView, id: Seq<u8>) -> Option<
    (Seq<char>, Seq<char>),
> {
    match record_for(server, id) {
        Some(record) => match path_of(record.build_id_to_path, id) {
            Some(path) => Some((record.rpm_path, path)),
            None => None,
        },
        None => None,
    }
}

/// The payload path of the executable that a debug file belongs to: the
/// path of the debug file without `.debug` at its end and, after that,
/// without `/usr/lib/debug` at its front.  A path that lacks either has no
/// executable.
pub open spec fn executable_path(debug_path: Seq<char>) -> Option<Seq<char>> {
    if has_suffix(debug_path, ".debug"@) && has_prefix(
        debug_path.subrange(0, debug_path.len() - 6),
        DEBUG_INFO_PATH@,
    ) {
        Some(debug_path.subrange(14, debug_path.len() - 6))
    } else {
        None
    }
}

/// The binary package that holds the executable of a build-id, and the
/// payload path of the executable.
pub open spec fn executable_location(server: ServerView, id: Seq<u8>) -> Option<
    (Seq<char>, Seq<char>),
> {
    match record_for(server, id) {
        Some(record) => match (path_of(record.build_id_to_path, id), record.binary_rpm_path) {
            (Some(path), Some(binary)) => match executable_path(path) {
                Some(file) => Some((binary, file)),
                None => None,
            },
            _ => None,
        },
        None => None,
    }
}

/// The debug-source package of a build-id, and the payload path of the
/// source file `source_path`: the path with a `/` put before it.
pub open spec fn source_location(server: ServerView, id: Seq<u8>, source_path: Seq<char>)
    -> Option<(Seq<char>, Seq<char>)> {
    match record_for(server, id) {
        Some(record) => match record.source_rpm {
            Some(rpm) => Some((rpm, seq!['/'] + source_path)),
            None => None,
        },
        None => None,
    }
}

/// The characters of a pair of strings that may be absent.
pub open spec fn location_of(location: Option<(String, String)>) -> Option<(Seq<char>, Seq<char>)> {
    match location {
        Some((rpm_path, file)) => Some((rpm_path@, file@)),
        None => None,
    }
}

/// The bytes of a vector that may be absent.
pub open spec fn bytes_of(bytes: Option<Vec<u8>>) -> Option<Seq<u8>> {
    match bytes {
        Some(b) => Some(b@),
        None => None,
    }
}

/// The function `fetch` hands out the package files `files`, each under
/// its path, and nothing under any other path.
pub open spec fn fetches<F: Fn(&str) -> Option<Vec<u8>>>(
    fetch: F,
    files: Map<Seq<char>, Seq<u8>>,
) -> bool {
    forall|path: &str, rpm: Option<Vec<u8>>|
        call_ensures(fetch, (path,), rpm) ==> bytes_of(rpm) == if files.contains_key(path@) {
            Some(files[path@])
        } else {
            None
        }
}

/// The file at a location, where `files` are the package files.
pub open spec fn file_at(files: Map<Seq<char>, Seq<u8>>, location: Option<(Seq<char>, Seq<char>)>)
    -> Option<Seq<u8>> {
    match location {
        Some((rpm_path, file)) => if files.contains_key(rpm_path) {
            file_in_package(files[rpm_path], file)
        } else {
            None
        },
        None => None,
    }
}

/// The section `section` of the ELF file at a location.
pub open spec fn section_at(
    files: Map<Seq<char>, Seq<u8>>,
    location: Option<(Seq<char>, Seq<char>)>,
    section: Seq<char>,
) -> Option<Seq<u8>> {
    match location {
        Some((rpm_path, file)) => if files.contains_key(rpm_path) {
            section_in_package(files[rpm_path], file, section)
        } else {
            None
        },
        None => None,
    }
}

/// What can be asked for a build-id.
pub enum Wanted {
    /// The debug file.
    DebugInfo,
    /// The executable.
    Executable,
    /// The section of this name, from the debug file or else from the
    /// executable.
    Section(Seq<char>),
    /// The source file at this path.
    Source(Seq<char>),
}

/// The answer to a look-up: it is made of the index, of the package
/// files, and of what is asked, and of nothing else.
pub open spec fn answer(
    server: ServerView,
    files: Map<Seq<char>, Seq<u8>>,
    id: Seq<u8>,
    wanted: Wanted,
) -> Option<Seq<u8>> {
    match wanted {
        Wanted::DebugInfo => file_at(files, debuginfo_location(server, id)),
        Wanted::Executable => file_at(files, executable_location(server, id)),
        Wanted::Section(section) => match section_at(
            files,
            debuginfo_location(server, id),
            section,
        ) {
            Some(bytes) => Some(bytes),
            None => section_at(files, executable_location(server, id), section),
        },
        Wanted::Source(source_path) => file_at(files, source_location(server, id, source_path)),
    }
}

/// Look-ups are functions of the index: two that ask the same of the
/// same index over the same package files come back with the same bytes,
/// or both with nothing.
pub proof fn lemma_lookups_agree(
    server: ServerView,
    files: Map<Seq<char>, Seq<u8>>,
    id: Seq<u8>,
    wanted: Wanted,
    first: Option<Vec<u8>>,
    second: Option<Vec<u8>>,
)
    requires
        bytes_of(first) == answer(server, files, id, wanted),
        bytes_of(second) == answer(server, files, id, wanted),
    ensures
        match (first, second) {
            (Some(a), Some(b)) => a@ == b@,
            (None, None) => true,
            _ => false,
        },
{
}

/// A build-id that the index does not hold has no answer.
pub proof fn lemma_unknown_build_id(
    server: ServerView,
    files: Map<Seq<char>, Seq<u8>>,
    id: Seq<u8>,
    wanted: Wanted,
)
    requires
        !server.build_ids.contains_key(id),
    ensures
        answer(server, files, id, wanted) is None,
{
}

impl Server {
    /// Parses the textual form of a build-id, strictly: 40 hexadecimal
    /// digits and nothing else.
    pub fn parse_build_id(&self, id: &str) -> (r: Result<BuildId, BuildIdError>)
        ensures
            match r {
                Ok(build_id) => parsed_build_id(id@) == Ok::<Seq<u8>, BuildIdError>(build_id@),
                Err(e) => parsed_build_id(id@) == Err::<Seq<u8>, BuildIdError>(e),
            },
    {
        parse_build_id(id)
    }

    /// Where the debug file of `build_id` lies: the path of the debuginfo
    /// package and the payload path of the file.
    pub fn get_debuginfo_rpm_for_build_id(&self, build_id: &BuildId) -> (r: Option<
        (String, String),
    >)
        requires
            self.wf(),
        ensures
            location_of(r) == debuginfo_location(self@, build_id@),
    {
        match self.record(build_id) {
            Some(record) => match record.build_id_to_path.get(build_id) {
                Some(path) => Some((record.rpm_path.clone(), String::from_str(path))),
                None => None,
            },
            None => None,
        }
    }

    /// Where the executable of `build_id` lies: the path of the binary
    /// package and the payload path of the executable.
    pub fn get_binary_rpm_for_build_id(&self, build_id: &BuildId) -> (r: Option<(String, String)>)
        requires
            self.wf(),
        ensures
            location_of(r) == executable_location(self@, build_id@),
    {
        let record = match self.record(build_id) {
            Some(record) => record,
            None => {
                return None;
            },
        };
        let path = match record.build_id_to_path.get(build_id) {
            Some(path) => path,
            None => {
                return None;
            },
        };
        let binary = match &record.binary_rpm_path {
            Some(binary) => binary,
            None => {
                return None;
            },
        };
        proof {
            reveal_strlit(".debug");
            reveal_strlit("/usr/lib/debug");
        }
        if !ends_with(path, ".debug") {
            return None;
        }
        let n = path.unicode_len();
        let stripped = path.substring_char(0, n - 6);
        if !starts_with(stripped, DEBUG_INFO_PATH) {
            return None;
        }
        let file = stripped.substring_char(14, n - 6);
        assert(file@ =~= path@.subrange(14, path@.len() - 6));
        Some((binary.clone(), String::from_str(file)))
    }

    /// Where the source file `source_path` of `build_id` lies: the path
    /// of the debug-source package and the payload path of the file.
    pub fn get_source_rpm_for_build_id(&self, build_id: &BuildId, source_path: &str) -> (r: Option<
        (String, String),
    >)
        requires
            self.wf(),
        ensures
            location_of(r) == source_location(self@, build_id@, source_path@),
    {
        match self.record(build_id) {
            Some(record) => match &record.source_rpm {
                Some(rpm) => {
                    let mut file = String::from_str("/");
                    file.append(source_path);
                    proof {
                        reveal_strlit("/");
                        assert(file@ =~= seq!['/'] + source_path@);
                    }
                    Some((rpm.clone(), file))
                },
                None => None,
            },
            None => None,
        }
    }

    /// The debug file of `build_id`, whole.  A build-id without a debug
    /// file in the index has none, whatever `fetch` does.
    pub fn debuginfo<F: Fn(&str) -> Option<Vec<u8>>>(&self, build_id: &BuildId, fetch: F) -> (r:
        Option<Vec<u8>>)
        requires
            self.wf(),
            forall|path: &str| call_requires(fetch, (path,)),
        ensures
            forall|files: Map<Seq<char>, Seq<u8>>| #[trigger]
                fetches(fetch, files) ==> bytes_of(r) == answer(
                    self@,
                    files,
                    build_id@,
                    Wanted::DebugInfo,
                ),
            debuginfo_location(self@, build_id@) is None ==> r is None,
    {
        match self.get_debuginfo_rpm_for_build_id(build_id) {
            Some((rpm_path, file)) => match fetch(rpm_path.as_str()) {
                Some(rpm) => self.read_rpm_file(rpm.as_slice(), file.as_str()),
                None => None,
            },
            None => None,
        }
    }

    /// The executable of `build_id`, whole.  A build-id without an
    /// executable in the index has none, whatever `fetch` does.
    pub fn executable<F: Fn(&str) -> Option<Vec<u8>>>(&self, build_id: &BuildId, fetch: F) -> (r:
        Option<Vec<u8>>)
        requires
            self.wf(),
            forall|path: &str| call_requires(fetch, (path,)),
        ensures
            forall|files: Map<Seq<char>, Seq<u8>>| #[trigger]
                fetches(fetch, files) ==> bytes_of(r) == answer(
                    self@,
                    files,
                    build_id@,
                    Wanted::Executable,
                ),
            executable_location(self@, build_id@) is None ==> r is None,
    {
        match self.get_binary_rpm_for_build_id(build_id) {
            Some((rpm_path, file)) => match fetch(rpm_path.as_str()) {
                Some(rpm) => self.read_rpm_file(rpm.as_slice(), file.as_str()),
                None => None,
            },
            None => None,
        }
    }

    /// The section `section_name` for `build_id`: the one in its debug
    /// file or, where that file has none, the one in its executable.  A
    /// build-id without a debug file in the index has no sections,
    /// whatever `fetch` does.
    pub fn section<F: Fn(&str) -> Option<Vec<u8>>>(
        &self,
        build_id: &BuildId,
        section_name: &str,
        fetch: F,
    ) -> (r: Option<Vec<u8>>)
        requires
            self.wf(),
            forall|path: &str| call_requires(fetch, (path,)),
        ensures
            forall|files: Map<Seq<char>, Seq<u8>>| #[trigger]
                fetches(fetch, files) ==> bytes_of(r) == answer(
                    self@,
                    files,
                    build_id@,
                    Wanted::Section(section_name@),
                ),
            debuginfo_location(self@, build_id@) is None ==> r is None,
    {
        match self.get_debuginfo_rpm_for_build_id(build_id) {
            Some((rpm_path, file)) => match fetch(rpm_path.as_str()) {
                Some(rpm) => match self.read_rpm_file_section(
                    rpm.as_slice(),
                    file.as_str(),
                    section_name,
                ) {
                    Some(bytes) => {
                        return Some(bytes);
                    },
                    None => {},
                },
                None => {},
            },
            None => {},
        }
        match self.get_binary_rpm_for_build_id(build_id) {
            Some((rpm_path, file)) => match fetch(rpm_path.as_str()) {
                Some(rpm) => self.read_rpm_file_section(
                    rpm.as_slice(),
                    file.as_str(),
                    section_name,
                ),
                None => None,
            },
            None => None,
        }
    }

    /// The source file `source_path` of `build_id`, whole.  The path is
    /// taken as it is given, relative to the root of the payload.  A
    /// build-id without a debug-source package in the index has no source
    /// files, whatever `fetch` does.
    pub fn source<F: Fn(&str) -> Option<Vec<u8>>>(
        &self,
        build_id: &BuildId,
        source_path: &str,
        fetch: F,
    ) -> (r: Option<Vec<u8>>)
        requires
            self.wf(),
            forall|path: &str| call_requires(fetch, (path,)),
        ensures
            forall|files: Map<Seq<char>, Seq<u8>>| #[trigger]
                fetches(fetch, files) ==> bytes_of(r) == answer(
                    self@,
                    files,
                    build_id@,
                    Wanted::Source(source_path@),
                ),
            source_location(self@, build_id@, source_path@) is None ==> r is None,
    {
        match self.get_source_rpm_for_build_id(build_id, source_path) {
            Some((rpm_path, file)) => match fetch(rpm_path.as_str()) {
                Some(rpm) => self.read_rpm_file(rpm.as_slice(), file.as_str()),
                None => None,
            },
            None => None,
        }
    }
}

} // verus!
