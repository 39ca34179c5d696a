//! Build-ids and their textual form.

use vstd::prelude::*;
use vstd::string::StringExecFns;

use crate::outside::hex_decode;

verus! {

/// Number of bytes in a GNU build-id.
pub const BUILD_CHARS: usize = 20;

/// A GNU build-id: the 20 bytes of an ELF `.note.gnu.build-id` note.
pub type BuildId = [u8; BUILD_CHARS];

/// Why a string is not the textual form of a build-id.
#[derive(Debug, Clone, Copy, PartialEq, Eq)]
pub enum BuildIdError {
    /// The string is not an even number of hexadecimal digits.
    InvalidHex,
    /// The string decodes to this many bytes, not to 20.
    InvalidLength(usize),
}

/// One of `0-9`, `a-f`, `A-F`.
pub open spec fn is_hex_digit(c: char) -> bool {
    ('0' <= c && c <= '9') || ('a' <= c && c <= 'f') || ('A' <= c && c <= 'F')
}

/// The number a hexadecimal digit stands for.
pub open spec fn hex_value(c: char) -> int {
    if '0' <= c && c <= '9' {
        c as int - '0' as int
    } else if 'a' <= c && c <= 'f' {
        c as int - 'a' as int + 10
    } else {
        c as int - 'A' as int + 10
    }
}

/// An even number of hexadecimal digits.
pub open spec fn is_hex(text: Seq<char>) -> bool {
    &&& text.len() % 2 == 0
    &&& forall|i: int| 0 <= i < text.len() ==> is_hex_digit(#[trigger] text[i])
}

/// The bytes that a string of hexadecimal digits spells, two digits a byte.
pub open spec fn hex_decoded(text: Seq<char>) -> Seq<u8> {
    Seq::new(
        text.len() / 2,
        |i: int| (16 * hex_value(text[2 * i]) + hex_value(text[2 * i + 1])) as u8,
    )
}

/// The lower-case digit for a number below 16.
pub open spec fn lower_hex_digit(v: int) -> char {
    if v < 10 {
        (v + 48) as u8 as char
    } else {
        (v + 87) as u8 as char
    }
}

/// The lower-case hexadecimal spelling of a byte string.
pub open spec fn lower_hex(bytes: Seq<u8>) -> Seq<char> {
    Seq::new(
        2 * bytes.len(),
        |i: int|
            if i % 2 == 0 {
                lower_hex_digit(bytes[i / 2] as int / 16)
            } else {
                lower_hex_digit(bytes[i / 2] as int % 16)
            },
    )
}

/// What parsing a string as a build-id yields: the string must be
/// hexadecimal and must decode to exactly 20 bytes.
pub open spec fn parsed_build_id(text: Seq<char>) -> Result<Seq<u8>, BuildIdError> {
    if !is_hex(text) {
        Err(BuildIdError::InvalidHex)
    } else if text.len() / 2 != BUILD_CHARS {
        Err(BuildIdError::InvalidLength((text.len() / 2) as usize))
    } else {
        Ok(hex_decoded(text))
    }
}

/// Parses the textual form of a build-id, strictly: 40 hexadecimal digits
/// and nothing else.
pub fn parse_build_id(id: &str) -> (r: Result<BuildId, BuildIdError>)
    ensures
        match r {
            Ok(build_id) => parsed_build_id(id@) == Ok::<Seq<u8>, BuildIdError>(build_id@),
            Err(e) => parsed_build_id(id@) == Err::<Seq<u8>, BuildIdError>(e),
        },
{
    match hex_decode(id) {
        Err(_) => Err(BuildIdError::InvalidHex),
        Ok(bytes) => {
            if bytes.len() != BUILD_CHARS {
                Err(BuildIdError::InvalidLength(bytes.len()))
            } else {
                let mut build_id: BuildId = [0u8; BUILD_CHARS];
                let mut i: usize = 0;
                while i < BUILD_CHARS
                    invariant
                        i <= BUILD_CHARS,
                        bytes.len() == BUILD_CHARS,
                        forall|j: int| 0 <= j < i ==> build_id@[j] == bytes@[j],
                    decreases BUILD_CHARS - i,
                {
                    build_id[i] = bytes[i];
                    i += 1;
                }
                assert(build_id@ =~= bytes@);
                Ok(build_id)
            }
        },
    }
}

/// The lower-case hexadecimal digit for a number below 16, as a string.
fn lower_hex_digit_str(v: u8) -> (r: &'static str)
    requires
        v < 16,
    ensures
        r@ == seq![lower_hex_digit(v as int)],
{
    proof {
        reveal_strlit("0");
        reveal_strlit("1");
        reveal_strlit("2");
        reveal_strlit("3");
        reveal_strlit("4");
        reveal_strlit("5");
        reveal_strlit("6");
        reveal_strlit("7");
        reveal_strlit("8");
        reveal_strlit("9");
        reveal_strlit("a");
        reveal_strlit("b");
        reveal_strlit("c");
        reveal_strlit("d");
        reveal_strlit("e");
        reveal_strlit("f");
    }
    let r = if v == 0 {
        "0"
    } else if v == 1 {
        "1"
    } else if v == 2 {
        "2"
    } else if v == 3 {
        "3"
    } else if v == 4 {
        "4"
    } else if v == 5 {
        "5"
    } else if v == 6 {
        "6"
    } else if v == 7 {
        "7"
    } else if v == 8 {
        "8"
    } else if v == 9 {
        "9"
    } else if v == 10 {
        "a"
    } else if v == 11 {
        "b"
    } else if v == 12 {
        "c"
    } else if v == 13 {
        "d"
    } else if v == 14 {
        "e"
    } else {
        "f"
    };
    assert(r@ =~= seq![lower_hex_digit(v as int)]);
    r
}

/// Spells a build-id as 40 lower-case hexadecimal digits.
pub fn to_hex(id: &BuildId) -> (r: String)
    ensures
        r@ == lower_hex(id@),
{
    let mut text = String::from_str("");
    proof {
        reveal_strlit("");
    }
    let mut i: usize = 0;
    while i < BUILD_CHARS
        invariant
            i <= BUILD_CHARS,
            text@ == lower_hex(id@).subrange(0, 2 * i),
        decreases BUILD_CHARS - i,
    {
        let byte = id[i];
        text.append(lower_hex_digit_str(byte / 16));
        text.append(lower_hex_digit_str(byte % 16));
        proof {
            let all = lower_hex(id@);
            assert((2 * i) / 2 == i && (2 * i) % 2 == 0);
            assert((2 * i + 1) / 2 == i && (2 * i + 1) % 2 == 1);
            assert(all[2 * i] == lower_hex_digit(byte as int / 16));
            assert(all[2 * i + 1] == lower_hex_digit(byte as int % 16));
            assert(text@ =~= all.subrange(0, 2 * (i + 1)));
        }
        i += 1;
    }
    assert(text@ =~= lower_hex(id@));
    text
}

/// Tells whether two build-ids hold the same bytes.
pub fn same_build_id(a: &BuildId, b: &BuildId) -> (r: bool)
    ensures
        r == (a@ == b@),
{
    let mut i: usize = 0;
    while i < BUILD_CHARS
        invariant
            i <= BUILD_CHARS,
            forall|j: int| 0 <= j < i ==> a@[j] == b@[j],
        decreases BUILD_CHARS - i,
    {
        if a[i] != b[i] {
            return false;
        }
        i += 1;
    }
    assert(a@ =~= b@);
    true
}

/// Every lower-case digit is a hexadecimal digit and stands for the number
/// it was made from.
pub proof fn lemma_lower_hex_digit(v: int)
    requires
        0 <= v < 16,
    ensures
        is_hex_digit(lower_hex_digit(v)),
        hex_value(lower_hex_digit(v)) == v,
{
}

/// Decoding undoes the lower-case spelling: any byte string comes back from
/// its own hexadecimal form.
pub proof fn lemma_hex_round_trip(bytes: Seq<u8>)
    ensures
        is_hex(lower_hex(bytes)),
        hex_decoded(lower_hex(bytes)) == bytes,
{
    let text = lower_hex(bytes);
    assert forall|i: int| 0 <= i < text.len() implies is_hex_digit(#[trigger] text[i]) by {
        let b = bytes[i / 2] as int;
        lemma_lower_hex_digit(b / 16);
        lemma_lower_hex_digit(b % 16);
    }
    assert forall|i: int| 0 <= i < bytes.len() implies hex_decoded(text)[i] == bytes[i] by {
        let b = bytes[i] as int;
        lemma_lower_hex_digit(b / 16);
        lemma_lower_hex_digit(b % 16);
        assert((2 * i) / 2 == i && (2 * i) % 2 == 0);
        assert((2 * i + 1) / 2 == i && (2 * i + 1) % 2 == 1);
        assert(text[2 * i] == lower_hex_digit(b / 16));
        assert(text[2 * i + 1] == lower_hex_digit(b % 16));
        assert(16 * (b / 16) + b % 16 == b);
    }
    assert(hex_decoded(text) =~= bytes);
}

/// Parsing the lower-case hexadecimal form of a 20-byte id gives the id
/// back.
pub proof fn lemma_parse_round_trip(id: Seq<u8>)
    requires
        id.len() == BUILD_CHARS,
    ensures
        parsed_build_id(lower_hex(id)) == Ok::<Seq<u8>, BuildIdError>(id),
{
    lemma_hex_round_trip(id);
}

/// Parsing refuses every string that holds a character other than a
/// hexadecimal digit, and every string that does not decode to 20 bytes;
/// it accepts all others.
pub proof fn lemma_parse_rejects(text: Seq<char>)
    ensures
        (exists|i: int| 0 <= i < text.len() && !is_hex_digit(text[i])) ==> parsed_build_id(text)
            is Err,
        text.len() != 2 * BUILD_CHARS ==> parsed_build_id(text) is Err,
        parsed_build_id(text) is Ok <==> text.len() == 2 * BUILD_CHARS && (forall|i: int|
            0 <= i < text.len() ==> is_hex_digit(#[trigger] text[i])),
{
}

/// Two byte strings with the same hexadecimal form are the same string.
pub proof fn lemma_lower_hex_injective(a: Seq<u8>, b: Seq<u8>)
    requires
        lower_hex(a) == lower_hex(b),
    ensures
        a == b,
{
    lemma_hex_round_trip(a);
    lemma_hex_round_trip(b);
}

} // verus!
