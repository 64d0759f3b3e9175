//! Fresh random identifiers for backups, from the `uuid` crate, and the
//! two texts a backup identifier is written as.

use vstd::prelude::*;

verus! {

/// The lower-case hexadecimal digit of `n` (below 16).
pub open spec fn hex_digit(n: int) -> char {
    seq!['0', '1', '2', '3', '4', '5', '6', '7', '8', '9', 'a', 'b', 'c', 'd', 'e', 'f'][n]
}

/// Each byte written as two lower-case hexadecimal digits, high digit first.
pub open spec fn hex_text(bytes: Seq<u8>) -> Seq<char>
    decreases bytes.len(),
{
    if bytes.len() == 0 {
        Seq::empty()
    } else {
        hex_text(bytes.drop_last()) + seq![
            hex_digit((bytes.last() / 16) as int),
            hex_digit((bytes.last() % 16) as int),
        ]
    }
}

/// The simple text of the UUID with the given 16 bytes: 32 hexadecimal digits.
pub open spec fn simple_uuid_text(bytes: Seq<u8>) -> Seq<char> {
    hex_text(bytes)
}

/// The hyphenated text of the UUID with the given 16 bytes: the digits of
/// bytes 0-3, 4-5, 6-7, 8-9 and 10-15, separated by hyphens.
pub open spec fn hyphenated_uuid_text(bytes: Seq<u8>) -> Seq<char> {
    hex_text(bytes.subrange(0, 4)) + seq!['-'] + hex_text(bytes.subrange(4, 6)) + seq!['-']
        + hex_text(bytes.subrange(6, 8)) + seq!['-'] + hex_text(bytes.subrange(8, 10)) + seq!['-']
        + hex_text(bytes.subrange(10, 16))
}

/// Whether `c` is a lower-case hexadecimal digit.
pub open spec fn is_hex_char(c: char) -> bool {
    ('0' <= c && c <= '9') || ('a' <= c && c <= 'f')
}

proof fn lemma_hex_digit(n: int)
    requires
        0 <= n < 16,
    ensures
        is_hex_char(hex_digit(n)),
{
    if n == 0 {
        assert(hex_digit(n) == '0');
    }
    if n == 1 {
        assert(hex_digit(n) == '1');
    }
    if n == 2 {
        assert(hex_digit(n) == '2');
    }
    if n == 3 {
        assert(hex_digit(n) == '3');
    }
    if n == 4 {
        assert(hex_digit(n) == '4');
    }
    if n == 5 {
        assert(hex_digit(n) == '5');
    }
    if n == 6 {
        assert(hex_digit(n) == '6');
    }
    if n == 7 {
        assert(hex_digit(n) == '7');
    }
    if n == 8 {
        assert(hex_digit(n) == '8');
    }
    if n == 9 {
        assert(hex_digit(n) == '9');
    }
    if n == 10 {
        assert(hex_digit(n) == 'a');
    }
    if n == 11 {
        assert(hex_digit(n) == 'b');
    }
    if n == 12 {
        assert(hex_digit(n) == 'c');
    }
    if n == 13 {
        assert(hex_digit(n) == 'd');
    }
    if n == 14 {
        assert(hex_digit(n) == 'e');
    }
    if n == 15 {
        assert(hex_digit(n) == 'f');
    }
}

/// The hexadecimal text of some bytes has two digits per byte.
pub proof fn lemma_hex_text(bytes: Seq<u8>)
    ensures
        hex_text(bytes).len() == 2 * bytes.len(),
        forall|i: int| 0 <= i < hex_text(bytes).len() ==> is_hex_char(#[trigger] hex_text(bytes)[i]),
    decreases bytes.len(),
{
    if bytes.len() > 0 {
        lemma_hex_text(bytes.drop_last());
        lemma_hex_digit((bytes.last() / 16) as int);
        lemma_hex_digit((bytes.last() % 16) as int);
        let rest = hex_text(bytes.drop_last());
        let t = hex_text(bytes);
        assert forall|i: int| 0 <= i < t.len() implies is_hex_char(#[trigger] t[i]) by {
            if i < rest.len() {
                assert(t[i] == rest[i]);
            }
        }
    }
}

/// The hyphenated text of a UUID is 36 long, with hyphens at positions 8,
/// 13, 18 and 23 and lower-case hexadecimal digits everywhere else.
pub proof fn lemma_hyphenated_uuid_text(bytes: Seq<u8>)
    requires
        bytes.len() == 16,
    ensures
        hyphenated_uuid_text(bytes).len() == 36,
        forall|i: int|
            0 <= i < 36 ==> (#[trigger] hyphenated_uuid_text(bytes)[i] == '-' <==> (i == 8 || i == 13
                || i == 18 || i == 23)),
        forall|i: int|
            0 <= i < 36 ==> (is_hex_char(#[trigger] hyphenated_uuid_text(bytes)[i]) || hyphenated_uuid_text(
                bytes,
            )[i] == '-'),
{
    let a = hex_text(bytes.subrange(0, 4));
    let b = hex_text(bytes.subrange(4, 6));
    let c = hex_text(bytes.subrange(6, 8));
    let d = hex_text(bytes.subrange(8, 10));
    let e = hex_text(bytes.subrange(10, 16));
    lemma_hex_text(bytes.subrange(0, 4));
    lemma_hex_text(bytes.subrange(4, 6));
    lemma_hex_text(bytes.subrange(6, 8));
    lemma_hex_text(bytes.subrange(8, 10));
    lemma_hex_text(bytes.subrange(10, 16));
    let t = hyphenated_uuid_text(bytes);
    assert forall|i: int| 0 <= i < 36 implies (#[trigger] t[i] == '-' <==> (i == 8 || i == 13 || i == 18
        || i == 23)) && (is_hex_char(t[i]) || t[i] == '-') by {
        if i < 8 {
            assert(t[i] == a[i]);
        } else if i == 8 {
        } else if i < 13 {
            assert(t[i] == b[i - 9]);
        } else if i == 13 {
        } else if i < 18 {
            assert(t[i] == c[i - 14]);
        } else if i == 18 {
        } else if i < 23 {
            assert(t[i] == d[i - 19]);
        } else if i == 23 {
        } else {
            assert(t[i] == e[i - 24]);
        }
    }
}

/// `uuid::Uuid::new_v4`, as its bytes (`as_bytes`): a random version-4
/// UUID. Nothing is claimed of the bytes, which come from the operating
/// system's random source (the crate panics where that source fails).
#[verifier::external_body]
fn random_uuid_bytes() -> (res: [u8; 16]) {
    *uuid::Uuid::new_v4().as_bytes()
}

/// The `Display` text (`to_string`) of the `uuid::Uuid` made from `bytes`
/// (`Uuid::from_bytes`): in uuid 0.8 it is the hyphenated lower-case form.
#[verifier::external_body]
fn hyphenated_text(bytes: [u8; 16]) -> (res: String)
    ensures
        res@ == hyphenated_uuid_text(bytes@),
{
    uuid::Uuid::from_bytes(bytes).to_string()
}

/// The text of `to_simple` of the `uuid::Uuid` made from `bytes`
/// (`Uuid::from_bytes`): in uuid 0.8 it is the 32 lower-case hexadecimal
/// digits, with no hyphen.
#[verifier::external_body]
fn simple_text(bytes: [u8; 16]) -> (res: String)
    ensures
        res@ == simple_uuid_text(bytes@),
{
    uuid::Uuid::from_bytes(bytes).to_simple().to_string()
}

/// A random identifier of a backup, with its two texts: the hyphenated one
/// names the archive file, the simple one identifies the backup in the
/// metadata. Both are texts of the same UUID.
#[derive(Debug)]
pub struct ArchiveId {
    bytes: [u8; 16],
    hyphenated: String,
    simple: String,
}

impl ArchiveId {
    /// The bytes of the UUID.
    pub closed spec fn spec_bytes(&self) -> Seq<u8> {
        self.bytes@
    }

    /// The hyphenated text of the identifier.
    pub closed spec fn spec_hyphenated(&self) -> Seq<char> {
        self.hyphenated@
    }

    /// The simple text of the identifier.
    pub closed spec fn spec_simple(&self) -> Seq<char> {
        self.simple@
    }

    /// Whether both texts are those of the UUID's bytes.
    pub open spec fn well_formed(&self) -> bool {
        &&& self.spec_bytes().len() == 16
        &&& self.spec_hyphenated() == hyphenated_uuid_text(self.spec_bytes())
        &&& self.spec_simple() == simple_uuid_text(self.spec_bytes())
    }

    /// The hyphenated text of the identifier.
    pub fn hyphenated(&self) -> (res: &str)
        ensures
            res@ == self.spec_hyphenated(),
    {
        self.hyphenated.as_str()
    }

    /// The simple text of the identifier.
    pub fn simple(&self) -> (res: &str)
        ensures
            res@ == self.spec_simple(),
    {
        self.simple.as_str()
    }

    /// The simple text of the identifier, taken out.
    pub fn into_simple(self) -> (res: String)
        ensures
            res@ == self.spec_simple(),
    {
        self.simple
    }
}

/// A fresh random identifier for a SnowRunner backup.
pub fn new_archive_id() -> (res: ArchiveId)
    ensures
        res.well_formed(),
{
    let bytes = random_uuid_bytes();
    ArchiveId { bytes, hyphenated: hyphenated_text(bytes), simple: simple_text(bytes) }
}

/// A fresh random file name for a MudRunner backup copy: the hyphenated
/// text of a random UUID.
pub fn new_backup_name() -> (res: String)
    ensures
        exists|bytes: Seq<u8>| bytes.len() == 16 && res@ == hyphenated_uuid_text(bytes),
{
    let bytes = random_uuid_bytes();
    let res = hyphenated_text(bytes);
    assert(bytes@.len() == 16 && res@ == hyphenated_uuid_text(bytes@));
    res
}

} // verus!
