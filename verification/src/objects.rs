//! Repository objects as the navigator sees them: an identifier and a kind.

use vstd::prelude::*;
use vstd::string::StrSliceExecFns;

verus! {

/// The kind of a repository object, resolved when the object was looked up.
#[derive(Clone, Copy, Debug, PartialEq, Eq, Structural)]
pub enum ObjectKind {
    /// File content.
    Blob,
    /// A directory listing.
    Tree,
    /// A commit.
    Commit,
    /// An annotated tag.
    Tag,
    /// The repository could not tell.
    Unknown,
}

/// The 20-byte name of a repository object.
#[derive(Clone, Copy, Debug, PartialEq, Eq)]
pub struct ObjectId {
    pub bytes: [u8; 20],
}

/// An object of the repository: its identifier and its resolved kind.
#[derive(Clone, Copy, Debug, PartialEq, Eq)]
pub struct ObjectRef {
    pub id: ObjectId,
    pub kind: ObjectKind,
}

/// A named object: a reference and its target, or an entry of a tree.
#[derive(Clone, Debug, PartialEq, Eq)]
pub struct Entry {
    pub name: String,
    pub object: ObjectRef,
}

/// An entry as a value: the characters of its name, and its object.
pub ghost struct EntryView {
    pub name: Seq<char>,
    pub object: ObjectRef,
}

impl View for Entry {
    type V = EntryView;

    open spec fn view(&self) -> EntryView {
        EntryView { name: self.name@, object: self.object }
    }
}

/// The entries of `entries` as values, in order.
pub open spec fn entry_views(entries: Seq<Entry>) -> Seq<EntryView> {
    Seq::new(entries.len(), |i: int| entries[i]@)
}

/// The sixteen hexadecimal digits, lower case, by value.
pub open spec fn hex_digits() -> Seq<char> {
    seq!['0', '1', '2', '3', '4', '5', '6', '7', '8', '9', 'a', 'b', 'c', 'd', 'e', 'f']
}

/// Hexadecimal rendering of `bytes`: two lower-case digits for each byte,
/// the high half first.
pub open spec fn hex(bytes: Seq<u8>) -> Seq<char> {
    Seq::new(
        2 * bytes.len(),
        |i: int|
            if i % 2 == 0 {
                hex_digits()[bytes[i / 2] as int / 16]
            } else {
                hex_digits()[bytes[i / 2] as int % 16]
            },
    )
}

/// Number of hexadecimal digits of a short id: as many as git shows when it
/// abbreviates an object's name.
pub const SHORT_ID_DIGITS: usize = 7;

/// The short id of the object named `bytes`: the first `SHORT_ID_DIGITS`
/// digits of its hexadecimal rendering.
pub open spec fn short_hex(bytes: Seq<u8>) -> Seq<char> {
    hex(bytes).subrange(0, SHORT_ID_DIGITS as int)
}

/// Formats a raw object id with `git2::Oid`'s `Display`, which hex-encodes
/// the twenty bytes in lower case. `git2::Oid::from_bytes` accepts exactly
/// twenty bytes, which the parameter's type guarantees.
#[verifier::external_body]
fn oid_to_hex(bytes: &[u8; 20]) -> (text: String)
    ensures
        text@ == hex(bytes@),
{
    match git2::Oid::from_bytes(bytes) {
        Ok(oid) => oid.to_string(),
        Err(_) => String::new(),
    }
}

impl ObjectId {
    /// The identifier as forty hexadecimal digits, the form in which git
    /// prints it.
    pub fn to_hex(&self) -> (text: String)
        ensures
            text@ == hex(self.bytes@),
            text@.len() == 40,
    {
        oid_to_hex(&self.bytes)
    }

    /// The short id: the first seven of the forty hexadecimal digits.
    pub fn to_short_hex(&self) -> (text: String)
        ensures
            text@ == short_hex(self.bytes@),
            text@.len() == SHORT_ID_DIGITS,
    {
        let full = oid_to_hex(&self.bytes);
        full.as_str().substring_char(0, SHORT_ID_DIGITS).to_owned()
    }
}

} // verus!
