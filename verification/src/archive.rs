use vstd::prelude::*;
use vstd::arithmetic::power::pow;
use uuid::Uuid;

verus! {

// A saved file is a zip archive: its first entry holds the sequencer state,
// and every other entry holds the screenshot of one keyframe, named by the
// keyframe's identifier written as a uuid.

/// The identifier an archive entry's name stands for, when the name parses
/// as a uuid (`Uuid::parse_str`, which accepts several textual forms).
pub uninterp spec fn parsed_image_key(name: Seq<char>) -> Option<u128>;

/// Lowercase hexadecimal digit of a value below 16.
pub open spec fn hex_digit(d: int) -> char {
    if d < 10 {
        (48 + d) as char
    } else {
        (87 + d) as char
    }
}

/// Byte `i` of `uid`, counting from the most significant one.
pub open spec fn be_byte(uid: u128, i: int) -> int {
    (uid as int / pow(256, (15 - i) as nat)) % 256
}

/// Byte `j` of the uuid an identifier is written as: the identifier's bytes
/// are the uuid's little-endian bytes, which swap the order within the
/// first three fields.
pub open spec fn uuid_byte(uid: u128, j: int) -> int {
    if j < 4 {
        be_byte(uid, 3 - j)
    } else if j < 6 {
        be_byte(uid, 9 - j)
    } else if j < 8 {
        be_byte(uid, 13 - j)
    } else {
        be_byte(uid, j)
    }
}

/// The name of the entry holding the screenshot of keyframe `uid`: the
/// uuid's 32 lowercase hex digits, two per byte, with hyphens after the
/// 8th, 12th, 16th and 20th digit.
pub open spec fn entry_text(uid: u128) -> Seq<char> {
    Seq::new(
        36,
        |p: int|
            if p == 8 || p == 13 || p == 18 || p == 23 {
                '-'
            } else {
                let q = p - (if p > 23 {
                    4int
                } else if p > 18 {
                    3int
                } else if p > 13 {
                    2int
                } else if p > 8 {
                    1int
                } else {
                    0int
                });
                let b = uuid_byte(uid, q / 2);
                hex_digit(
                    if q % 2 == 0 {
                        b / 16
                    } else {
                        b % 16
                    },
                )
            },
    )
}

/// Whether every screenshot entry's name parses as an identifier.
pub open spec fn entries_parse(entries: Seq<(String, Vec<u8>)>) -> bool {
    forall|i: int| 0 <= i < entries.len() ==> (#[trigger] parsed_image_key(entries[i].0@)) is Some
}

/// Screenshots after loading the entries in order: each one stores its
/// bytes under the identifier its name stands for, a later entry replacing
/// an earlier one with the same identifier.
pub open spec fn with_images(m: Map<u128, Seq<u8>>, entries: Seq<(String, Vec<u8>)>) -> Map<
    u128,
    Seq<u8>,
>
    decreases entries.len(),
{
    if entries.len() == 0 {
        m
    } else {
        with_images(m, entries.drop_last()).insert(
            parsed_image_key(entries.last().0@)->0,
            entries.last().1@,
        )
    }
}

/// Parses an entry name with `Uuid::parse_str` and reads the uuid's
/// little-endian bytes as a big-endian `u128`. The contract names the result.
#[verifier::external_body]
pub(crate) fn parse_image_key(name: &str) -> (key: Option<u128>)
    ensures
        key == parsed_image_key(name@),
{
    match Uuid::parse_str(name) {
        Ok(u) => Some(u128::from_be_bytes(u.to_bytes_le())),
        Err(_) => None,
    }
}

/// Writes an identifier as a uuid with `Uuid::from_bytes_le` and
/// `to_string`. The contract claims what the crate's source shows:
/// `to_string` gives the hyphenated lowercase form, and `parse_str` reads
/// that form back, where `to_bytes_le` undoes `from_bytes_le`.
#[verifier::external_body]
fn uuid_text(uid: u128) -> (name: String)
    ensures
        name@ == entry_text(uid),
        parsed_image_key(name@) == Some(uid),
{
    Uuid::from_bytes_le(uid.to_be_bytes()).to_string()
}

/// The name under which the screenshot of keyframe `uid` is saved; loading
/// reads it back as `uid`.
pub fn image_entry_name(uid: u128) -> (name: String)
    ensures
        name@ == entry_text(uid),
        parsed_image_key(name@) == Some(uid),
{
    uuid_text(uid)
}

} // verus!
