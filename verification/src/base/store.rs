//! Device records, and names for files that are written aside.
use vstd::prelude::*;

verus! {

/// A persisted device record; `S` is the type of its texts.
#[derive(Debug, Clone, PartialEq, Eq)]
pub struct DeviceRow<S = String> {
    /// Stable device identifier.
    pub device_id: S,
    /// Human-readable device name.
    pub name: S,
    /// Device class label (`"phone"`, `"desktop"`, ...).
    pub device_type: S,
    /// SHA-256 fingerprint of the device certificate.
    pub cert_fingerprint: S,
    /// Whether the pairing handshake completed.
    pub paired: bool,
    /// Unix timestamp of the last sighting, if any.
    pub last_seen: Option<i64>,
}

impl View for DeviceRow<String> {
    type V = DeviceRow<Seq<char>>;

    open spec fn view(&self) -> DeviceRow<Seq<char>> {
        DeviceRow {
            device_id: self.device_id@,
            name: self.name@,
            device_type: self.device_type@,
            cert_fingerprint: self.cert_fingerprint@,
            paired: self.paired,
            last_seen: self.last_seen,
        }
    }
}

/// A lower-case hexadecimal digit.
pub open spec fn hex_digit(c: char) -> bool {
    '0' <= c <= '9' || 'a' <= c <= 'f'
}

/// Whether `c` is the digit with which the variant of a random id begins.
pub open spec fn variant_digit(c: char) -> bool {
    c == '8' || c == '9' || c == 'a' || c == 'b'
}

/// The hyphenated text of a random id: 36 characters, with hyphens after 8,
/// 12, 16 and 20 lower-case hexadecimal digits, among them those of the
/// version and of the variant.
pub open spec fn is_random_id(s: Seq<char>) -> bool {
    &&& s.len() == 36
    &&& forall|i: int|
        0 <= i < 36 ==> if i == 8 || i == 13 || i == 18 || i == 23 {
            #[trigger] s[i] == '-'
        } else {
            hex_digit(s[i])
        }
    &&& s[14] == '4'
    &&& variant_digit(s[19])
}

/// The text of a random id without hyphens.
pub open spec fn is_simple_id(s: Seq<char>) -> bool {
    &&& s.len() == 32
    &&& forall|i: int| 0 <= i < 32 ==> hex_digit(#[trigger] s[i])
    &&& s[12] == '4'
    &&& variant_digit(s[16])
}

/// The trusted wrapper of [`uuid::Uuid::new_v4`] and its hyphenated text. The
/// other digits are left to chance.
#[verifier::external_body]
fn random_hyphenated() -> (r: String)
    ensures
        is_random_id(r@),
{
    uuid::Uuid::new_v4().to_string()
}

/// The trusted wrapper of [`uuid::Uuid::simple`] on a fresh random id. The
/// other digits are left to chance.
#[verifier::external_body]
fn random_simple() -> (r: String)
    ensures
        is_simple_id(r@),
{
    uuid::Uuid::new_v4().simple().to_string()
}

/// Whether `id` is the device id to use, and `stored` says whether it has to
/// be stored: an id that exists is kept, and otherwise a fresh one is made.
pub open spec fn settles_id(existing: Option<Seq<char>>, id: Seq<char>, stored: bool) -> bool {
    match existing {
        Some(known) => id == known && !stored,
        None => stored && is_random_id(id),
    }
}

/// A device keeps its id: whatever was settled once is settled again, without
/// another write.
pub proof fn law_the_device_id_is_kept(
    existing: Option<Seq<char>>,
    id: Seq<char>,
    stored: bool,
    again: Seq<char>,
    stored_again: bool,
)
    requires
        settles_id(existing, id, stored),
        settles_id(Some(id), again, stored_again),
    ensures
        again == id,
        !stored_again,
        existing is Some ==> existing == Some(id),
        stored <==> existing is None,
{
}

/// The device id to use, and whether it has to be stored: an id that exists
/// is kept, and otherwise a fresh one is made.
pub fn ensure_device_id(existing: Option<String>) -> (r: (String, bool))
    ensures
        settles_id(
            match existing {
                Some(id) => Some(id@),
                None => None,
            },
            r.0@,
            r.1,
        ),
{
    match existing {
        Some(id) => (id, false),
        None => (random_hyphenated(), true),
    }
}

/// A character that phones accept in a device id.
pub open spec fn id_character(c: char) -> bool {
    'a' <= c <= 'z' || 'A' <= c <= 'Z' || '0' <= c <= '9' || c == '_' || c == '-'
}

/// Phones accept a fresh device id: it has 32 to 38 characters, and all of
/// them are letters, digits, underscores or hyphens.
pub proof fn law_fresh_ids_are_accepted(id: Seq<char>)
    requires
        is_random_id(id),
    ensures
        32 <= id.len() <= 38,
        forall|i: int| 0 <= i < id.len() ==> id_character(#[trigger] id[i]),
{
}

/// What an optional text says.
pub open spec fn str_view(s: Option<&str>) -> Option<Seq<char>> {
    match s {
        Some(t) => Some(t@),
        None => None,
    }
}

/// The name of the temporary sibling of a file; `blob` stands in for a file
/// without a name.
pub open spec fn sibling_name(file_name: Option<Seq<char>>, unique: Seq<char>) -> Seq<char> {
    let name = match file_name {
        Some(n) => n,
        None => "blob"@,
    };
    "."@ + name + ".tmp-"@ + unique
}

/// Names the temporary sibling that a file is written to before it is renamed
/// into place.
pub fn temp_sibling(file_name: Option<&str>) -> (r: String)
    ensures
        exists|unique: Seq<char>|
            #![trigger sibling_name(str_view(file_name), unique)]
            is_simple_id(unique) && r@ == sibling_name(str_view(file_name), unique),
{
    let unique = random_simple();
    sibling_with(file_name, unique.as_str())
}

/// Names the temporary sibling of a file with the given unique part.
pub fn sibling_with(file_name: Option<&str>, unique: &str) -> (r: String)
    ensures
        r@ == sibling_name(str_view(file_name), unique@),
{
    let name = match file_name {
        Some(n) => n,
        None => "blob",
    };
    ".".to_owned().concat(name).concat(".tmp-").concat(unique)
}

/// Whether a stored flag means paired: every number but zero does.
pub open spec fn means_paired(value: i64) -> bool {
    value != 0
}

/// Zero alone means that a device is not paired.
pub proof fn law_zero_means_unpaired(value: i64, paired: bool)
    ensures
        !means_paired(0),
        value < 0 || value > 0 ==> means_paired(value),
        means_paired(
            if paired {
                1
            } else {
                0
            },
        ) == paired,
{
}

/// The temporary sibling of a file is hidden, ends with its unique part, holds
/// the name of the file, and differs for another file or another unique part.
pub proof fn law_siblings_hold_the_name(name: Seq<char>, unique: Seq<char>, other: Seq<char>)
    ensures
        sibling_name(Some(name), unique)[0] == '.',
        sibling_name(Some(name), unique).subrange(1, 1 + name.len() as int) == name,
        sibling_name(Some(name), unique).skip(
            sibling_name(Some(name), unique).len() - unique.len(),
        ) == unique,
        sibling_name(Some(name), unique) != name,
        other.len() == unique.len() && other != unique ==> sibling_name(Some(name), other)
            != sibling_name(Some(name), unique),
{
    reveal_strlit(".");
    reveal_strlit(".tmp-");
    let s = sibling_name(Some(name), unique);
    assert(s.subrange(1, 1 + name.len() as int) =~= name);
    assert(s.skip(s.len() - unique.len()) =~= unique);
    assert(s.len() > name.len());
    let t = sibling_name(Some(name), other);
    assert(t.skip(t.len() - other.len()) =~= other);
}

/// Whether a stored flag means paired: every number but zero does.
pub fn stored_flag(value: i64) -> (r: bool)
    ensures
        r == means_paired(value),
{
    value != 0
}

} // verus!
