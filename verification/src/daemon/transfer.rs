//! Inbound file-transfer staging.
//!
//! [`TransferEngine`] owns the receive side: a transfer's metadata opens a
//! `.handfast-part` staging file inside the save directory, streamed chunks
//! append to it, and completion renames the staging file to its final name.
//! Peer-supplied file names are never trusted: [`sanitize_file_name`] reduces
//! them to a bare component. The engine says which files to create, extend,
//! rename and delete, and takes the outcomes.
use super::stream;
use crate::base::paths;
use crate::base::Error;
use crate::ordered::TextMap;
use crate::protocol::transfer::{TransferMeta, CHUNK_SIZE, UNKNOWN_SIZE};
use crate::text;
use vstd::prelude::*;

verus! {

/// Suffix of the staging file while a download is still incomplete.
pub const PART_SUFFIX: &'static str = ".handfast-part";

/// Fallback name when a peer sends something with no usable file name.
pub const FALLBACK_NAME: &'static str = "received-file";

/// Maximum length (in characters) of a sanitized file name kept on disk.
pub const MAX_FILE_NAME_LEN: usize = 240;

/// How many names are tried before giving up on finding a free destination
/// for a colliding file name.
pub const MAX_NAME_COLLISIONS: u32 = 10000;

/// The last part that is neither empty nor `.` nor `..`.
pub open spec fn last_usable(parts: Seq<Seq<char>>) -> Option<Seq<char>>
    decreases parts.len(),
{
    if parts.len() == 0 {
        None
    } else if parts.last().len() == 0 || parts.last() == seq!['.'] || parts.last() == seq![
        '.',
        '.',
    ] {
        last_usable(parts.drop_last())
    } else {
        Some(parts.last())
    }
}

/// Whether a character has no place in a file name.
pub open spec fn hostile(c: char) -> bool {
    c == '<' || c == '>' || c == ':' || c == '"' || c == '|' || c == '?' || c == '*' || (c as u32)
        < 0x20 || (c as u32) == 0x7f
}

/// `name` with `_` in place of each hostile character.
pub open spec fn cleaned(name: Seq<char>) -> Seq<char> {
    name.map_values(
        |c: char|
            if hostile(c) {
                '_'
            } else {
                c
            },
    )
}

/// The safe bare component that a peer-supplied file name is reduced to: the
/// last usable path component, cleaned, without trailing dots and spaces, cut
/// to the greatest length; the fallback name where nothing is left.
pub open spec fn sanitized(raw: Seq<char>) -> Seq<char> {
    let base = match last_usable(text::split(raw, seq!['/', '\\'])) {
        Some(part) => part,
        None => FALLBACK_NAME@,
    };
    let trimmed = text::trim_end_of(cleaned(base), seq!['.', ' ']);
    let cut = if trimmed.len() > MAX_FILE_NAME_LEN {
        trimmed.take(MAX_FILE_NAME_LEN as int)
    } else {
        trimmed
    };
    if cut.len() == 0 {
        FALLBACK_NAME@
    } else {
        cut
    }
}

fn is_hostile(c: char) -> (r: bool)
    ensures
        r == hostile(c),
{
    let n: u32 = c as u32;
    proof {
        vstd::utf8::char_u32_cast(c, n);
    }
    c == '<' || c == '>' || c == ':' || c == '"' || c == '|' || c == '?' || c == '*' || n < 0x20
        || n == 0x7f
}

/// Whether a path component names a file.
fn is_usable(part: &str) -> (r: bool)
    ensures
        r == (part@.len() > 0 && part@ != seq!['.'] && part@ != seq!['.', '.']),
{
    let chars = text::to_chars(part);
    let dot = chars.len() == 1 && chars[0] == '.';
    let dots = chars.len() == 2 && chars[0] == '.' && chars[1] == '.';
    proof {
        assert(dot ==> part@ =~= seq!['.']);
        assert(dots ==> part@ =~= seq!['.', '.']);
    }
    chars.len() > 0 && !dot && !dots
}

/// Reduce a peer-supplied file name to a safe bare component.
pub fn sanitize_file_name(raw: &str) -> (r: String)
    ensures
        r@ == sanitized(raw@),
{
    let separators: [char; 2] = ['/', '\\'];
    assert(separators@ =~= seq!['/', '\\']);
    let parts = text::split_text(raw, &separators);
    let ghost views = text::texts(parts@);
    let mut to: usize = parts.len();
    assert(views.take(to as int) =~= views);
    while to > 0 && !is_usable(parts[to - 1].as_str())
        invariant
            to <= parts.len(),
            views == text::texts(parts@),
            last_usable(views) == last_usable(views.take(to as int)),
        ensures
            to <= parts.len(),
            last_usable(views) == last_usable(views.take(to as int)),
            to > 0 ==> last_usable(views) == Some(parts@[to - 1]@),
        decreases to,
    {
        proof {
            assert(views.take(to as int).drop_last() =~= views.take(to - 1));
            assert(views.take(to as int).last() == parts@[to - 1]@);
        }
        to -= 1;
    }
    let base = if to > 0 {
        parts[to - 1].as_str()
    } else {
        FALLBACK_NAME
    };
    let chars = text::to_chars(base);
    let mut clean = String::new();
    let mut i: usize = 0;
    assert(clean@ =~= cleaned(base@).take(0));
    while i < chars.len()
        invariant
            i <= chars.len(),
            chars@ == base@,
            clean@ == cleaned(base@).take(i as int),
        decreases chars.len() - i,
    {
        if is_hostile(chars[i]) {
            clean.push('_');
        } else {
            clean.push(chars[i]);
        }
        assert(cleaned(base@).take(i + 1) =~= cleaned(base@).take(i as int).push(
            cleaned(base@)[i as int],
        ));
        i += 1;
    }
    assert(cleaned(base@).take(i as int) =~= cleaned(base@));
    let trailing: [char; 2] = ['.', ' '];
    assert(trailing@ =~= seq!['.', ' ']);
    let trimmed = text::trim_end_chars(clean.as_str(), &trailing);
    let kept = text::to_chars(trimmed.as_str());
    let cut = if kept.len() > MAX_FILE_NAME_LEN {
        assert(kept@.subrange(0, MAX_FILE_NAME_LEN as int) =~= kept@.take(
            MAX_FILE_NAME_LEN as int,
        ));
        text::range_string(&kept, 0, MAX_FILE_NAME_LEN)
    } else {
        trimmed
    };
    if cut.as_str().is_empty() {
        FALLBACK_NAME.to_owned()
    } else {
        cut
    }
}

/// Whether a character may stand in a sanitized file name.
pub open spec fn harmless(c: char) -> bool {
    c != '/' && c != '\\' && !hostile(c)
}

/// Whether every character of a name may stand in a sanitized file name.
pub open spec fn all_harmless(name: Seq<char>) -> bool {
    forall|i: int| 0 <= i < name.len() ==> harmless(#[trigger] name[i])
}

spec fn separator_free(part: Seq<char>) -> bool {
    forall|i: int| 0 <= i < part.len() ==> #[trigger] part[i] != '/' && part[i] != '\\'
}

proof fn lemma_split_is_separator_free(s: Seq<char>, k: int)
    requires
        0 <= k < text::split(s, seq!['/', '\\']).len(),
    ensures
        separator_free(text::split(s, seq!['/', '\\'])[k]),
        text::split(s, seq!['/', '\\']).len() > 0,
    decreases s.len(),
{
    let seps = seq!['/', '\\'];
    if s.len() > 0 {
        let before = text::split(s.drop_last(), seps);
        lemma_split_is_not_empty(s.drop_last(), seps);
        if seps.contains(s.last()) {
            if k < before.len() {
                lemma_split_is_separator_free(s.drop_last(), k);
            }
        } else {
            assert(seps[0] == '/' && seps[1] == '\\');
            lemma_split_is_separator_free(s.drop_last(), k);
        }
    }
}

proof fn lemma_split_is_not_empty(s: Seq<char>, seps: Seq<char>)
    ensures
        text::split(s, seps).len() > 0,
    decreases s.len(),
{
    if s.len() > 0 {
        lemma_split_is_not_empty(s.drop_last(), seps);
    }
}

proof fn lemma_last_usable(parts: Seq<Seq<char>>)
    ensures
        match last_usable(parts) {
            Some(part) => exists|k: int| 0 <= k < parts.len() && #[trigger] parts[k] == part,
            None => true,
        },
    decreases parts.len(),
{
    if parts.len() > 0 {
        lemma_last_usable(parts.drop_last());
        match last_usable(parts) {
            Some(part) => {
                if parts.last() == part {
                    assert(parts[parts.len() - 1] == part);
                } else {
                    let k = choose|k: int|
                        0 <= k < parts.drop_last().len() && #[trigger] parts.drop_last()[k] == part;
                    assert(parts[k] == part);
                }
            },
            None => {},
        }
    }
}

proof fn lemma_trim_end(s: Seq<char>, set: Seq<char>)
    ensures
        text::trim_end_of(s, set).len() <= s.len(),
        text::trim_end_of(s, set) == s.take(text::trim_end_of(s, set).len() as int),
        text::trim_end_of(s, set).len() > 0 ==> !set.contains(text::trim_end_of(s, set).last()),
    decreases s.len(),
{
    if s.len() > 0 && set.contains(s.last()) {
        lemma_trim_end(s.drop_last(), set);
        let n = text::trim_end_of(s, set).len() as int;
        assert(s.drop_last().take(n) =~= s.take(n));
    } else {
        assert(s.take(s.len() as int) =~= s);
    }
}

proof fn lemma_fallback()
    ensures
        all_harmless(FALLBACK_NAME@),
        FALLBACK_NAME@.len() == 13,
{
    reveal_strlit("received-file");
}

/// Whatever name a peer sends, the name kept on disk is a bare component: it
/// is not empty, at most the greatest length long, holds no separator, control
/// or Windows-hostile character, and is neither `.` nor `..`.
pub proof fn law_sanitized_names_are_safe(raw: Seq<char>)
    ensures
        0 < sanitized(raw).len() <= MAX_FILE_NAME_LEN,
        all_harmless(sanitized(raw)),
        sanitized(raw) != seq!['.'],
        sanitized(raw) != seq!['.', '.'],
{
    let parts = text::split(raw, seq!['/', '\\']);
    let base = match last_usable(parts) {
        Some(part) => part,
        None => FALLBACK_NAME@,
    };
    lemma_fallback();
    lemma_last_usable(parts);
    assert(separator_free(base)) by {
        match last_usable(parts) {
            Some(part) => {
                let k = choose|k: int| 0 <= k < parts.len() && #[trigger] parts[k] == part;
                lemma_split_is_separator_free(raw, k);
            },
            None => {},
        }
    }
    let clean = cleaned(base);
    assert(all_harmless(clean)) by {
        assert forall|i: int| 0 <= i < clean.len() implies harmless(#[trigger] clean[i]) by {
            assert(base[i] != '/' && base[i] != '\\');
        }
    }
    let set = seq!['.', ' '];
    let trimmed = text::trim_end_of(clean, set);
    lemma_trim_end(clean, set);
    assert(all_harmless(trimmed)) by {
        assert forall|i: int| 0 <= i < trimmed.len() implies harmless(#[trigger] trimmed[i]) by {
            assert(trimmed[i] == clean[i]);
        }
    }
    assert(set[0] == '.');
    if trimmed.len() > MAX_FILE_NAME_LEN {
        let cut = trimmed.take(MAX_FILE_NAME_LEN as int);
        assert forall|i: int| 0 <= i < cut.len() implies harmless(#[trigger] cut[i]) by {
            assert(cut[i] == trimmed[i]);
        }
    }
    assert(seq!['.'].last() == '.' && seq!['.', '.'].last() == '.');
}

/// Where the extension of a file name begins: at its last dot, unless that is
/// its first character.
pub open spec fn extension_start(name: Seq<char>) -> Option<int> {
    match text::last_position(name, '.') {
        Some(i) if i > 0 => Some(i),
        _ => None,
    }
}

/// The `n`-th name that is tried for a file: the plain name, then
/// `stem (n).ext`.
pub open spec fn candidate_name(name: Seq<char>, n: nat) -> Seq<char> {
    if n == 0 {
        name
    } else {
        match extension_start(name) {
            Some(i) => name.take(i) + " ("@ + text::decimal(n) + ")"@ + name.skip(i),
            None => name + " ("@ + text::decimal(n) + ")"@,
        }
    }
}

/// The `n`-th name that is tried for a file.
pub fn candidate(name: &str, n: u32) -> (r: String)
    ensures
        r@ == candidate_name(name@, n as nat),
{
    if n == 0 {
        return name.to_owned();
    }
    let number = text::decimal_text(n as u128);
    let chars = text::to_chars(name);
    match text::find_last(&chars, '.') {
        Some(i) => {
            if i > 0 {
                proof {
                    assert(chars@.subrange(0, i as int) =~= name@.take(i as int));
                    assert(chars@.subrange(i as int, chars.len() as int) =~= name@.skip(i as int));
                }
                let stem = text::range_string(&chars, 0, i);
                let extension = text::range_string(&chars, i, chars.len());
                return stem.concat(" (").concat(number.as_str()).concat(")").concat(
                    extension.as_str(),
                );
            }
        },
        None => {},
    }
    name.to_owned().concat(" (").concat(number.as_str()).concat(")")
}

/// What follows from the answers on whether the names tried so far are taken.
#[derive(Debug, Clone, Copy, PartialEq, Eq)]
pub enum Slot {
    /// The name with this number is free.
    Free(u32),
    /// Ask about the name with this number.
    Ask(u32),
    /// Every name is taken.
    Exhausted,
}

/// Whether `slot` is what comes next: the first free name, or else the next
/// one to ask about. `taken` says of the names tried so far, in their order,
/// whether each is taken.
pub open spec fn picks(taken: Seq<bool>, slot: Slot) -> bool {
    match slot {
        Slot::Free(n) => {
            &&& n < taken.len() && n < MAX_NAME_COLLISIONS
            &&& !taken[n as int]
            &&& forall|i: int| 0 <= i < n ==> taken[i]
        },
        Slot::Ask(n) => {
            &&& n == taken.len() && n < MAX_NAME_COLLISIONS
            &&& forall|i: int| 0 <= i < n ==> taken[i]
        },
        Slot::Exhausted => {
            &&& taken.len() >= MAX_NAME_COLLISIONS
            &&& forall|i: int| 0 <= i < MAX_NAME_COLLISIONS ==> taken[i]
        },
    }
}

/// The first free name is taken, and it is the only answer: no free name is
/// passed over, and none is asked about twice.
pub proof fn law_the_first_free_name_is_taken(taken: Seq<bool>, slot: Slot, other: Slot, i: int)
    requires
        picks(taken, slot),
    ensures
        picks(taken, other) ==> other == slot,
        slot matches Slot::Free(n) ==> n < taken.len() && !taken[n as int],
        slot matches Slot::Free(n) ==> (0 <= i < n ==> taken[i]),
        slot matches Slot::Ask(n) ==> n == taken.len(),
        slot is Ask || slot is Exhausted ==> (0 <= i < taken.len() && i < MAX_NAME_COLLISIONS
            ==> taken[i]),
{
}

/// Picks the first free name. `taken` says of the names tried so far, in
/// their order, whether each is taken.
pub fn free_slot(taken: &Vec<bool>) -> (r: Slot)
    ensures
        picks(taken@, r),
{
    let mut n: u32 = 0;
    while n < MAX_NAME_COLLISIONS
        invariant
            n <= MAX_NAME_COLLISIONS,
            n <= taken@.len(),
            forall|i: int| 0 <= i < n ==> taken@[i],
        decreases MAX_NAME_COLLISIONS - n,
    {
        if n as usize == taken.len() {
            return Slot::Ask(n);
        }
        if !taken[n as usize] {
            return Slot::Free(n);
        }
        n += 1;
    }
    Slot::Exhausted
}

/// A numbered copy has a name of its own: two numbers never give one name.
pub proof fn law_numbered_copies_differ(name: Seq<char>, a: nat, b: nat)
    requires
        a != b,
    ensures
        candidate_name(name, a) != candidate_name(name, b),
{
    let tail = match extension_start(name) {
        Some(i) => name.skip(i),
        None => Seq::empty(),
    };
    let head = match extension_start(name) {
        Some(i) => name.take(i),
        None => name,
    };
    lemma_last_position(name, '.');
    assert(head + tail =~= name);
    reveal_strlit(" (");
    reveal_strlit(")");
    assert forall|n: nat| n > 0 implies #[trigger] candidate_name(name, n) == head + " ("@
        + text::decimal(n) + ")"@ + tail by {
        assert(candidate_name(name, n) =~= head + " ("@ + text::decimal(n) + ")"@ + tail);
    }
    let open = " ("@;
    let close = ")"@;
    if a == 0 {
        assert(candidate_name(name, b).len() > name.len());
    } else if b == 0 {
        assert(candidate_name(name, a).len() > name.len());
    } else if candidate_name(name, a) == candidate_name(name, b) {
        let x = candidate_name(name, a);
        let y = candidate_name(name, b);
        let da = text::decimal(a);
        let db = text::decimal(b);
        assert(x.len() == head.len() + open.len() + da.len() + close.len() + tail.len());
        assert(y.len() == head.len() + open.len() + db.len() + close.len() + tail.len());
        let from = (head + open).len() as int;
        assert(x.subrange(from, from + da.len()) =~= da);
        assert(y.subrange(from, from + db.len()) =~= db);
        text::lemma_decimal_injective(a, b);
    }
}

proof fn lemma_last_position(s: Seq<char>, c: char)
    ensures
        match text::last_position(s, c) {
            Some(i) => 0 <= i < s.len() && s[i] == c,
            None => true,
        },
    decreases s.len(),
{
    if s.len() > 0 && s.last() != c {
        lemma_last_position(s.drop_last(), c);
    }
}

/// Bookkeeping for one in-flight inbound transfer; `S` is the type of its
/// texts.
#[derive(Debug)]
pub struct IncomingTransfer<S = String> {
    /// What the sender announced.
    pub meta: TransferMeta<S>,
    /// Bytes appended so far; equals the staging file's length.
    pub received: u64,
}

impl View for IncomingTransfer<String> {
    type V = IncomingTransfer<Seq<char>>;

    open spec fn view(&self) -> IncomingTransfer<Seq<char>> {
        IncomingTransfer { meta: self.meta@, received: self.received }
    }
}

/// Manages file receive operations into a single save directory.
#[derive(Debug)]
pub struct TransferEngine {
    save_dir: String,
    incoming: TextMap<IncomingTransfer>,
}

/// What a table of transfers says.
pub open spec fn table_view(
    m: Map<Seq<char>, IncomingTransfer>,
) -> Map<Seq<char>, IncomingTransfer<Seq<char>>> {
    m.map_values(|t: IncomingTransfer| t@)
}

/// Whether no transfer has received more than was announced.
pub open spec fn within_sizes(m: Map<Seq<char>, IncomingTransfer<Seq<char>>>) -> bool {
    forall|id: Seq<char>| #[trigger]
        m.contains_key(id) ==> m[id].received <= m[id].meta.file_size
}

/// The staging file of a transfer.
pub open spec fn staging_path(save_dir: Seq<char>, file_name: Seq<char>) -> Seq<char> {
    paths::below(save_dir, sanitized(file_name) + PART_SUFFIX@)
}

/// Why a chunk of `len` bytes is refused, if it is.
pub open spec fn chunk_refusal(
    m: Map<Seq<char>, IncomingTransfer<Seq<char>>>,
    id: Seq<char>,
    len: nat,
) -> Option<Seq<char>> {
    if len > CHUNK_SIZE {
        Some(
            "chunk of "@ + text::decimal(len) + " bytes exceeds CHUNK_SIZE ("@ + text::decimal(
                CHUNK_SIZE as nat,
            ) + ")"@,
        )
    } else if !m.contains_key(id) {
        Some(unknown_text(id))
    } else if m[id].received + len > m[id].meta.file_size {
        Some(
            "transfer '"@ + id + "' overflows declared size: "@ + text::decimal(
                m[id].received as nat,
            ) + " + "@ + text::decimal(len) + " > "@ + text::decimal(
                m[id].meta.file_size as nat,
            ),
        )
    } else {
        None
    }
}

/// Why a transfer cannot be finished, if it cannot. Where the sender gave no
/// size, any number of bytes will do.
pub open spec fn finish_refusal(
    m: Map<Seq<char>, IncomingTransfer<Seq<char>>>,
    id: Seq<char>,
) -> Option<Seq<char>> {
    if !m.contains_key(id) {
        Some(unknown_text(id))
    } else if m[id].meta.file_size != UNKNOWN_SIZE && m[id].received != m[id].meta.file_size {
        Some(
            "transfer '"@ + id + "' incomplete: "@ + text::decimal(m[id].received as nat) + "/"@
                + text::decimal(m[id].meta.file_size as nat) + " bytes"@,
        )
    } else {
        None
    }
}

/// The message about a transfer that is not known.
pub open spec fn unknown_text(id: Seq<char>) -> Seq<char> {
    "unknown transfer '"@ + id + "'"@
}

/// The message about a transfer that is already active.
pub open spec fn active_text(id: Seq<char>) -> Seq<char> {
    "transfer '"@ + id + "' already active"@
}

/// The message about a file name without a free copy.
pub open spec fn exhausted_text(name: Seq<char>) -> Seq<char> {
    "no free name for '"@ + name + "'"@
}

fn unknown(id: &str) -> (r: Error)
    ensures
        match r {
            Error::Other(m) => m@ == unknown_text(id@),
            _ => false,
        },
{
    Error::Other("unknown transfer '".to_owned().concat(id).concat("'"))
}

/// How the removal of a staging file went.
#[derive(Debug, Clone, PartialEq, Eq)]
pub enum Removal {
    /// The file is gone.
    Removed,
    /// There was no such file.
    Missing,
    /// The file is still there.
    Failed(String),
}

impl TransferEngine {
    /// The directory that files are received into.
    pub closed spec fn directory(&self) -> Seq<char> {
        self.save_dir@
    }

    /// The transfers in flight.
    pub closed spec fn table(&self) -> Map<Seq<char>, IncomingTransfer<Seq<char>>> {
        table_view(self.incoming@)
    }

    /// An engine that receives into `save_dir`.
    pub fn new(save_dir: String) -> (r: Self)
        ensures
            r.directory() == save_dir@,
            r.table() == Map::<Seq<char>, IncomingTransfer<Seq<char>>>::empty(),
            within_sizes(r.table()),
    {
        let r = TransferEngine { save_dir, incoming: TextMap::new() };
        assert(r.table() =~= Map::empty());
        r
    }

    /// Whether a transfer is in flight.
    pub fn is_active(&self, transfer_id: &str) -> (r: bool)
        ensures
            r == self.table().contains_key(transfer_id@),
    {
        self.incoming.contains_key(transfer_id)
    }

    /// Number of receives currently in flight.
    pub fn active_count(&self) -> (r: usize)
        ensures
            r == self.table().dom().len(),
    {
        assert(self.table().dom() =~= self.incoming@.dom());
        self.incoming.len()
    }

    /// The staging file that a transfer of this name is to be given.
    pub fn staging_for(&self, file_name: &str) -> (r: String)
        ensures
            r@ == staging_path(self.directory(), file_name@),
    {
        let name = sanitize_file_name(file_name).concat(PART_SUFFIX);
        paths::join(self.save_dir.as_str(), name.as_str())
    }

    /// The staging file of a transfer in flight.
    pub fn part_path(&self, transfer_id: &str) -> (r: Option<String>)
        ensures
            match r {
                Some(path) => self.table().contains_key(transfer_id@) && path@ == staging_path(
                    self.directory(),
                    self.table()[transfer_id@].meta.file_name,
                ),
                None => !self.table().contains_key(transfer_id@),
            },
    {
        match self.incoming.get(transfer_id) {
            Some(transfer) => Some(self.staging_for(transfer.meta.file_name.as_str())),
            None => None,
        }
    }

    /// Begin receiving `meta`. `created` tells whether its staging file could
    /// be created, and created new.
    pub fn start_receive(&mut self, meta: TransferMeta, created: Result<(), String>) -> (r: Result<
        (),
        Error,
    >)
        ensures
            final(self).directory() == old(self).directory(),
            within_sizes(old(self).table()) ==> within_sizes(final(self).table()),
            created is Ok ==> final(self).table() == after_step(
                old(self).table(),
                EngineStep::Start(meta@),
            ),
            if old(self).table().contains_key(meta@.transfer_id) {
                &&& final(self).table() == old(self).table()
                &&& match r {
                    Err(Error::Other(m)) => m@ == active_text(meta@.transfer_id),
                    _ => false,
                }
            } else {
                match created {
                    Ok(()) => r is Ok && final(self).table() == old(self).table().insert(
                        meta@.transfer_id,
                        IncomingTransfer { meta: meta@, received: 0 },
                    ),
                    Err(reason) => {
                        &&& final(self).table() == old(self).table()
                        &&& match r {
                            Err(Error::Io(m)) => m@ == reason@,
                            _ => false,
                        }
                    },
                }
            },
    {
        if self.incoming.contains_key(meta.transfer_id.as_str()) {
            return Err(
                Error::Other(
                    "transfer '".to_owned().concat(meta.transfer_id.as_str()).concat(
                        "' already active",
                    ),
                ),
            );
        }
        match created {
            Ok(()) => {
                let id = meta.transfer_id.clone();
                let ghost m = meta@;
                let _ = self.incoming.insert(id, IncomingTransfer { meta, received: 0 });
                assert(self.table() =~= old(self).table().insert(
                    m.transfer_id,
                    IncomingTransfer { meta: m, received: 0 },
                ));
                Ok(())
            },
            Err(reason) => Err(Error::Io(reason)),
        }
    }

    /// Whether a chunk of `len` bytes may be appended to the staging file of
    /// a transfer, and how many bytes it then holds.
    pub fn check_chunk(&self, transfer_id: &str, len: usize) -> (r: Result<u64, Error>)
        ensures
            match r {
                Ok(total) => chunk_refusal(self.table(), transfer_id@, len as nat) is None
                    && total == self.table()[transfer_id@].received + len,
                Err(Error::Other(m)) => chunk_refusal(self.table(), transfer_id@, len as nat)
                    == Some(m@),
                Err(_) => false,
            },
    {
        if len > CHUNK_SIZE {
            return Err(
                Error::Other(
                    "chunk of ".to_owned().concat(text::decimal_text(len as u128).as_str()).concat(
                        " bytes exceeds CHUNK_SIZE (",
                    ).concat(text::decimal_text(CHUNK_SIZE as u128).as_str()).concat(")"),
                ),
            );
        }
        let transfer = match self.incoming.get(transfer_id) {
            Some(transfer) => transfer,
            None => {
                return Err(unknown(transfer_id));
            },
        };
        let total: u128 = transfer.received as u128 + len as u128;
        if total > transfer.meta.file_size as u128 {
            return Err(
                Error::Other(
                    "transfer '".to_owned().concat(transfer_id).concat(
                        "' overflows declared size: ",
                    ).concat(text::decimal_text(transfer.received as u128).as_str()).concat(
                        " + ",
                    ).concat(text::decimal_text(len as u128).as_str()).concat(" > ").concat(
                        text::decimal_text(transfer.meta.file_size as u128).as_str(),
                    ),
                ),
            );
        }
        Ok(total as u64)
    }

    /// Append `len` bytes to a transfer; `appended` tells whether they are in
    /// its staging file. Returns the number of bytes received so far. Chunks
    /// that [`TransferEngine::check_chunk`] refuses change nothing.
    pub fn write_chunk(
        &mut self,
        transfer_id: &str,
        len: usize,
        appended: Result<(), String>,
    ) -> (r: Result<u64, Error>)
        ensures
            final(self).directory() == old(self).directory(),
            within_sizes(old(self).table()) ==> within_sizes(final(self).table()),
            appended is Ok ==> forall|bytes: Seq<u8>|
                bytes.len() == len ==> final(self).table() == #[trigger] after_step(
                    old(self).table(),
                    EngineStep::Chunk { id: transfer_id@, bytes },
                ),
            match chunk_refusal(old(self).table(), transfer_id@, len as nat) {
                Some(refusal) => {
                    &&& final(self).table() == old(self).table()
                    &&& match r {
                        Err(Error::Other(m)) => m@ == refusal,
                        _ => false,
                    }
                },
                None => match appended {
                    Ok(()) => {
                        let before = old(self).table()[transfer_id@];
                        &&& r == Ok::<u64, Error>((before.received + len) as u64)
                        &&& final(self).table() == old(self).table().insert(
                            transfer_id@,
                            IncomingTransfer {
                                meta: before.meta,
                                received: (before.received + len) as u64,
                            },
                        )
                    },
                    Err(reason) => {
                        &&& final(self).table() == old(self).table()
                        &&& match r {
                            Err(Error::Io(m)) => m@ == reason@,
                            _ => false,
                        }
                    },
                },
            },
    {
        let total = match self.check_chunk(transfer_id, len) {
            Ok(total) => total,
            Err(e) => {
                return Err(e);
            },
        };
        if let Err(reason) = appended {
            return Err(Error::Io(reason));
        }
        let ghost before = self.table()[transfer_id@];
        if let Some(transfer) = self.incoming.remove(transfer_id) {
            let _ = self.incoming.insert(
                transfer_id.to_owned(),
                IncomingTransfer { meta: transfer.meta, received: total },
            );
        }
        assert(self.table() =~= old(self).table().insert(
            transfer_id@,
            IncomingTransfer { meta: before.meta, received: total },
        ));
        Ok(total)
    }

    /// Whether a transfer may be finished, and the sanitized name of its
    /// file.
    pub fn check_finish(&self, transfer_id: &str) -> (r: Result<String, Error>)
        ensures
            match r {
                Ok(name) => finish_refusal(self.table(), transfer_id@) is None && name@
                    == sanitized(self.table()[transfer_id@].meta.file_name),
                Err(Error::Other(m)) => finish_refusal(self.table(), transfer_id@) == Some(m@),
                Err(_) => false,
            },
    {
        let transfer = match self.incoming.get(transfer_id) {
            Some(transfer) => transfer,
            None => {
                return Err(unknown(transfer_id));
            },
        };
        let size = transfer.meta.file_size;
        if size != UNKNOWN_SIZE && transfer.received != size {
            return Err(
                Error::Other(
                    "transfer '".to_owned().concat(transfer_id).concat("' incomplete: ").concat(
                        text::decimal_text(transfer.received as u128).as_str(),
                    ).concat("/").concat(text::decimal_text(size as u128).as_str()).concat(
                        " bytes",
                    ),
                ),
            );
        }
        Ok(sanitize_file_name(transfer.meta.file_name.as_str()))
    }

    /// The destination with the given number for a file name.
    pub fn destination(&self, name: &str, n: u32) -> (r: String)
        ensures
            r@ == paths::below(self.directory(), candidate_name(name@, n as nat)),
    {
        paths::join(self.save_dir.as_str(), candidate(name, n).as_str())
    }

    /// Finalize a transfer. `slot` is the number of the free name that was
    /// found, if one was, and `renamed` tells whether the staging file now
    /// bears it. Returns the destination; a transfer that could not be
    /// finished stays in flight.
    pub fn finish_receive(
        &mut self,
        transfer_id: &str,
        slot: Option<u32>,
        renamed: Result<(), String>,
    ) -> (r: Result<String, Error>)
        ensures
            final(self).directory() == old(self).directory(),
            within_sizes(old(self).table()) ==> within_sizes(final(self).table()),
            slot is Some && renamed is Ok ==> final(self).table() == after_step(
                old(self).table(),
                EngineStep::Finish { id: transfer_id@ },
            ),
            match finish_refusal(old(self).table(), transfer_id@) {
                Some(refusal) => {
                    &&& final(self).table() == old(self).table()
                    &&& match r {
                        Err(Error::Other(m)) => m@ == refusal,
                        _ => false,
                    }
                },
                None => {
                    let name = sanitized(old(self).table()[transfer_id@].meta.file_name);
                    match (slot, renamed) {
                        (None, _) => {
                            &&& final(self).table() == old(self).table()
                            &&& match r {
                                Err(Error::Other(m)) => m@ == exhausted_text(name),
                                _ => false,
                            }
                        },
                        (Some(_), Err(reason)) => {
                            &&& final(self).table() == old(self).table()
                            &&& match r {
                                Err(Error::Io(m)) => m@ == reason@,
                                _ => false,
                            }
                        },
                        (Some(n), Ok(())) => {
                            &&& final(self).table() == old(self).table().remove(transfer_id@)
                            &&& match r {
                                Ok(path) => path@ == paths::below(
                                    old(self).directory(),
                                    candidate_name(name, n as nat),
                                ),
                                Err(_) => false,
                            }
                        },
                    }
                },
            },
    {
        let name = match self.check_finish(transfer_id) {
            Ok(name) => name,
            Err(e) => {
                return Err(e);
            },
        };
        let n = match slot {
            Some(n) => n,
            None => {
                return Err(
                    Error::Other(
                        "no free name for '".to_owned().concat(name.as_str()).concat("'"),
                    ),
                );
            },
        };
        if let Err(reason) = renamed {
            return Err(Error::Io(reason));
        }
        let path = self.destination(name.as_str(), n);
        let _ = self.incoming.remove(transfer_id);
        assert(self.table() =~= old(self).table().remove(transfer_id@));
        Ok(path)
    }

    /// Cancel a transfer. `removal` tells what became of its staging file; a
    /// file that was already gone is as good as removed.
    pub fn abort(&mut self, transfer_id: &str, removal: Removal) -> (r: Result<(), Error>)
        ensures
            final(self).directory() == old(self).directory(),
            final(self).table() == after_step(
                old(self).table(),
                EngineStep::Abort { id: transfer_id@ },
            ),
            within_sizes(old(self).table()) ==> within_sizes(final(self).table()),
            if !old(self).table().contains_key(transfer_id@) {
                match r {
                    Err(Error::Other(m)) => m@ == unknown_text(transfer_id@),
                    _ => false,
                }
            } else {
                match removal {
                    Removal::Failed(reason) => match r {
                        Err(Error::Io(m)) => m@ == reason@,
                        _ => false,
                    },
                    _ => r is Ok,
                }
            },
    {
        let found = self.incoming.remove(transfer_id);
        assert(self.table() =~= old(self).table().remove(transfer_id@));
        if found.is_none() {
            return Err(unknown(transfer_id));
        }
        match removal {
            Removal::Failed(reason) => Err(Error::Io(reason)),
            _ => Ok(()),
        }
    }
}

/// The table after chunks of these lengths, one after the other; none where
/// one of them is refused.
pub open spec fn after_chunks(
    m: Map<Seq<char>, IncomingTransfer<Seq<char>>>,
    id: Seq<char>,
    lens: Seq<nat>,
) -> Option<Map<Seq<char>, IncomingTransfer<Seq<char>>>>
    decreases lens.len(),
{
    if lens.len() == 0 {
        Some(m)
    } else {
        match after_chunks(m, id, lens.drop_last()) {
            Some(n) => if chunk_refusal(n, id, lens.last()) is None {
                Some(
                    n.insert(
                        id,
                        IncomingTransfer {
                            meta: n[id].meta,
                            received: (n[id].received + lens.last()) as u64,
                        },
                    ),
                )
            } else {
                None
            },
            None => None,
        }
    }
}

/// A transfer takes chunks, however they are cut, until they exceed the
/// declared size, and can be finished exactly where they amount to it.
pub proof fn law_exactly_the_declared_size(
    m: Map<Seq<char>, IncomingTransfer<Seq<char>>>,
    id: Seq<char>,
    lens: Seq<nat>,
)
    requires
        m.contains_key(id),
        m[id].received == 0,
        m[id].meta.file_size != UNKNOWN_SIZE,
        forall|i: int| 0 <= i < lens.len() ==> #[trigger] lens[i] <= CHUNK_SIZE,
    ensures
        match after_chunks(m, id, lens) {
            Some(n) => {
                &&& n.contains_key(id)
                &&& n[id].meta == m[id].meta
                &&& n[id].received == stream::total(lens) <= m[id].meta.file_size
                &&& finish_refusal(n, id) is None <==> stream::total(lens)
                    == m[id].meta.file_size
            },
            None => stream::total(lens) > m[id].meta.file_size,
        },
    decreases lens.len(),
{
    if lens.len() > 0 {
        assert forall|i: int| 0 <= i < lens.drop_last().len() implies #[trigger] lens.drop_last()[i]
            <= CHUNK_SIZE by {
            assert(lens[i] <= CHUNK_SIZE);
        }
        law_exactly_the_declared_size(m, id, lens.drop_last());
    }
}

/// Something that happens to the transfers while the files can be written.
pub enum EngineStep {
    /// A transfer begins.
    Start(TransferMeta<Seq<char>>),
    /// A chunk comes.
    Chunk {
        /// Transfer.
        id: Seq<char>,
        /// Bytes.
        bytes: Seq<u8>,
    },
    /// A transfer is to be finished.
    Finish {
        /// Transfer.
        id: Seq<char>,
    },
    /// A transfer is cancelled.
    Abort {
        /// Transfer.
        id: Seq<char>,
    },
}

/// The transfer that a step is about.
pub open spec fn subject(step: EngineStep) -> Seq<char> {
    match step {
        EngineStep::Start(meta) => meta.transfer_id,
        EngineStep::Chunk { id, .. } => id,
        EngineStep::Finish { id } => id,
        EngineStep::Abort { id } => id,
    }
}

/// The table after a step; a step that is refused changes nothing.
pub open spec fn after_step(
    m: Map<Seq<char>, IncomingTransfer<Seq<char>>>,
    step: EngineStep,
) -> Map<Seq<char>, IncomingTransfer<Seq<char>>> {
    match step {
        EngineStep::Start(meta) => if m.contains_key(meta.transfer_id) {
            m
        } else {
            m.insert(meta.transfer_id, IncomingTransfer { meta, received: 0 })
        },
        EngineStep::Chunk { id, bytes } => if chunk_refusal(m, id, bytes.len()) is None {
            m.insert(
                id,
                IncomingTransfer {
                    meta: m[id].meta,
                    received: (m[id].received + bytes.len()) as u64,
                },
            )
        } else {
            m
        },
        EngineStep::Finish { id } => if finish_refusal(m, id) is None {
            m.remove(id)
        } else {
            m
        },
        EngineStep::Abort { id } => m.remove(id),
    }
}

/// The table after steps, one after the other.
pub open spec fn after_steps(
    m: Map<Seq<char>, IncomingTransfer<Seq<char>>>,
    steps: Seq<EngineStep>,
) -> Map<Seq<char>, IncomingTransfer<Seq<char>>>
    decreases steps.len(),
{
    if steps.len() == 0 {
        m
    } else {
        after_step(after_steps(m, steps.drop_last()), steps.last())
    }
}

/// The bytes that steps append to the staging file of a transfer: those of
/// its chunks that were not refused, in order.
pub open spec fn appended(
    m: Map<Seq<char>, IncomingTransfer<Seq<char>>>,
    steps: Seq<EngineStep>,
    id: Seq<char>,
) -> Seq<u8>
    decreases steps.len(),
{
    if steps.len() == 0 {
        Seq::empty()
    } else {
        let before = appended(m, steps.drop_last(), id);
        match steps.last() {
            EngineStep::Chunk { id: i, bytes } if i == id && chunk_refusal(
                after_steps(m, steps.drop_last()),
                id,
                bytes.len(),
            ) is None => before + bytes,
            _ => before,
        }
    }
}

/// The steps that are about one transfer, in order.
pub open spec fn steps_about(steps: Seq<EngineStep>, id: Seq<char>) -> Seq<EngineStep>
    decreases steps.len(),
{
    if steps.len() == 0 {
        Seq::empty()
    } else if subject(steps.last()) == id {
        steps_about(steps.drop_last(), id).push(steps.last())
    } else {
        steps_about(steps.drop_last(), id)
    }
}

/// Steps on other transfers do nothing to a transfer: it stands where its own
/// steps alone would have brought it, and so do its bytes.
pub proof fn law_interleaved_transfers_stay_isolated(
    m: Map<Seq<char>, IncomingTransfer<Seq<char>>>,
    steps: Seq<EngineStep>,
    id: Seq<char>,
)
    ensures
        ({
            let all = after_steps(m, steps);
            let own = after_steps(m, steps_about(steps, id));
            &&& all.contains_key(id) == own.contains_key(id)
            &&& all.contains_key(id) ==> all[id] == own[id]
            &&& appended(m, steps, id) == appended(m, steps_about(steps, id), id)
        }),
    decreases steps.len(),
{
    if steps.len() > 0 {
        law_interleaved_transfers_stay_isolated(m, steps.drop_last(), id);
        let own = steps_about(steps.drop_last(), id);
        if subject(steps.last()) == id {
            assert(own.push(steps.last()).drop_last() =~= own);
            assert(own.push(steps.last()).last() == steps.last());
        }
    }
}

/// However transfers interleave, one that has begun and takes chunks holds
/// exactly the bytes of its chunks that were not refused, never more than were
/// announced; it can be finished exactly where they amount to the announced
/// size, and is then no longer active, while one that is incomplete stays.
pub proof fn law_interleaved_transfers_complete(
    m: Map<Seq<char>, IncomingTransfer<Seq<char>>>,
    steps: Seq<EngineStep>,
    id: Seq<char>,
)
    requires
        m.contains_key(id),
        m[id].received == 0,
        m[id].meta.file_size != UNKNOWN_SIZE,
        forall|i: int|
            0 <= i < steps.len() && subject(#[trigger] steps[i]) == id ==> steps[i] is Chunk,
    ensures
        ({
            let n = after_steps(m, steps);
            let finished = after_step(n, EngineStep::Finish { id });
            let held = appended(m, steps, id);
            &&& n.contains_key(id)
            &&& n[id].meta == m[id].meta
            &&& n[id].received == held.len() <= m[id].meta.file_size
            &&& finish_refusal(n, id) is None <==> held.len() == m[id].meta.file_size
            &&& finished.contains_key(id) <==> held.len() < m[id].meta.file_size
            &&& forall|other: Seq<char>|
                other != id ==> (#[trigger] finished.contains_key(other) == n.contains_key(other))
                    && (n.contains_key(other) ==> finished[other] == n[other])
        }),
    decreases steps.len(),
{
    if steps.len() > 0 {
        let before = steps.drop_last();
        assert forall|i: int| 0 <= i < before.len() && subject(#[trigger] before[i])
            == id implies before[i] is Chunk by {
            assert(before[i] == steps[i]);
        }
        law_interleaved_transfers_complete(m, before, id);
        assert(steps[steps.len() - 1] == steps.last());
    }
}

/// Whether a character has to be replaced before a name can be a file name.
pub open spec fn misplaced(c: char) -> bool {
    c == '<' || c == '>' || c == ':' || c == '"' || c == '|' || c == '?' || c == '*' || (c as u32)
        < 0x20 || (c as u32) == 0x7f
}

/// A name is changed only where it has to be: one without separators that is
/// neither too long nor ends with a dot or a space keeps its length, each
/// misplaced character of it is replaced by `_`, and every other one stays.
pub proof fn law_names_change_only_where_needed(raw: Seq<char>)
    requires
        0 < raw.len() <= 240,
        forall|i: int| 0 <= i < raw.len() ==> #[trigger] raw[i] != '/' && raw[i] != '\\',
        raw.last() != '.',
        raw.last() != ' ',
    ensures
        sanitized(raw).len() == raw.len(),
        forall|i: int|
            0 <= i < raw.len() ==> #[trigger] sanitized(raw)[i] == if misplaced(raw[i]) {
                '_'
            } else {
                raw[i]
            },
{
    let seps = seq!['/', '\\'];
    assert(seps[0] == '/');
    assert forall|i: int| 0 <= i < raw.len() implies !seps.contains(#[trigger] raw[i]) by {
        assert(raw[i] != '/' && raw[i] != '\\');
    }
    text::law_parts_lie_between_separators(Seq::empty(), '/', raw, seps);
    let parts = seq![raw];
    assert(parts.last() == raw);
    assert(seq!['.'].last() == '.' && seq!['.', '.'].last() == '.');
    assert(last_usable(parts) == Some(raw));
    let clean = cleaned(raw);
    let set = seq!['.', ' '];
    assert(clean.last() == if hostile(raw.last()) { '_' } else { raw.last() });
    assert(!set.contains(clean.last())) by {
        if set.contains(clean.last()) {
            let k = choose|k: int| 0 <= k < set.len() && set[k] == clean.last();
            assert(k == 0 || k == 1);
        }
    }
    assert(text::trim_end_of(clean, set) == clean);
}

/// A name that is already safe is kept as it is.
pub proof fn law_safe_names_are_kept(raw: Seq<char>)
    requires
        0 < raw.len() <= 240,
        forall|i: int|
            0 <= i < raw.len() ==> #[trigger] raw[i] != '/' && raw[i] != '\\' && !misplaced(
                raw[i],
            ),
        raw.last() != '.',
        raw.last() != ' ',
    ensures
        sanitized(raw) == raw,
{
    law_names_change_only_where_needed(raw);
    assert(sanitized(raw) =~= raw);
}

/// Only the last component of what a peer sends counts: directories in front
/// of it, in either notation, are dropped.
pub proof fn law_directories_are_dropped(dir: Seq<char>, separator: char, name: Seq<char>)
    requires
        separator == '/' || separator == '\\',
        name.len() > 0,
        name != seq!['.'],
        name != seq!['.', '.'],
        forall|i: int| 0 <= i < name.len() ==> #[trigger] name[i] != '/' && name[i] != '\\',
    ensures
        sanitized(dir + seq![separator] + name) == sanitized(name),
{
    let seps = seq!['/', '\\'];
    assert(seps[0] == '/' && seps[1] == '\\');
    assert forall|i: int| 0 <= i < name.len() implies !seps.contains(#[trigger] name[i]) by {
        assert(name[i] != '/' && name[i] != '\\');
    }
    text::law_parts_lie_between_separators(dir, separator, name, seps);
    let parts = text::split(dir, seps).push(name);
    assert(parts.last() == name);
    assert(seq![name].last() == name);
}

/// A numbered copy of a file keeps its stem and its extension, with the number
/// between them; the plain name comes first.
pub proof fn law_copies_keep_stem_and_extension(stem: Seq<char>, extension: Seq<char>, n: nat)
    requires
        stem.len() > 0,
        n > 0,
        forall|i: int| 0 <= i < extension.len() ==> #[trigger] extension[i] != '.',
    ensures
        candidate_name(stem + seq!['.'] + extension, 0) == stem + seq!['.'] + extension,
        candidate_name(stem + seq!['.'] + extension, n) == stem + " ("@ + text::decimal(n) + ")"@
            + seq!['.'] + extension,
        (forall|i: int| 0 <= i < stem.len() ==> #[trigger] stem[i] != '.') ==> candidate_name(
            stem,
            n,
        ) == stem + " ("@ + text::decimal(n) + ")"@,
{
    let name = stem + seq!['.'] + extension;
    lemma_last_dot(stem + seq!['.'], extension);
    assert((stem + seq!['.']).last() == '.');
    assert(text::last_position(stem + seq!['.'], '.') == Some(stem.len() as int));
    assert(name.take(stem.len() as int) =~= stem);
    assert(name.skip(stem.len() as int) =~= seq!['.'] + extension);
    assert(candidate_name(name, n) =~= stem + " ("@ + text::decimal(n) + ")"@ + seq!['.']
        + extension);
    if forall|i: int| 0 <= i < stem.len() ==> #[trigger] stem[i] != '.' {
        lemma_last_dot(Seq::empty(), stem);
        assert(Seq::empty() + stem =~= stem);
    }
}

proof fn lemma_last_dot(before: Seq<char>, rest: Seq<char>)
    requires
        forall|i: int| 0 <= i < rest.len() ==> #[trigger] rest[i] != '.',
    ensures
        text::last_position(before + rest, '.') == text::last_position(before, '.'),
    decreases rest.len(),
{
    if rest.len() == 0 {
        assert(before + rest =~= before);
    } else {
        let shorter = rest.drop_last();
        assert forall|i: int| 0 <= i < shorter.len() implies #[trigger] shorter[i] != '.' by {
            assert(shorter[i] == rest[i]);
        }
        lemma_last_dot(before, shorter);
        assert((before + rest).drop_last() =~= before + shorter);
        assert((before + rest).last() == rest[rest.len() - 1]);
    }
}

/// A file is staged and delivered inside the save directory, under the name
/// that its own name was reduced to; while it is staged a suffix tells it
/// apart.
pub proof fn law_files_stay_in_the_save_directory(save_dir: Seq<char>, raw: Seq<char>)
    requires
        save_dir.len() > 0,
        save_dir.last() != '/',
    ensures
        staging_path(save_dir, raw) == save_dir + seq!['/'] + sanitized(raw) + ".handfast-part"@,
        paths::below(save_dir, candidate_name(sanitized(raw), 0)) == save_dir + seq!['/']
            + sanitized(raw),
{
    law_sanitized_names_are_safe(raw);
    assert(harmless(sanitized(raw)[0]));
    assert((sanitized(raw) + PART_SUFFIX@)[0] == sanitized(raw)[0]);
    assert(staging_path(save_dir, raw) =~= save_dir + seq!['/'] + sanitized(raw) + ".handfast-part"@);
}

/// A chunk is refused exactly where it is larger than a chunk may be, the
/// transfer is not known, or it would exceed the announced size.
pub proof fn law_chunks_are_refused_for_three_reasons(
    m: Map<Seq<char>, IncomingTransfer<Seq<char>>>,
    id: Seq<char>,
    len: nat,
)
    ensures
        chunk_refusal(m, id, len) is Some <==> len > 0x1_0000 || !m.contains_key(id)
            || m[id].received + len > m[id].meta.file_size,
{
}

proof fn lemma_single_component(raw: Seq<char>)
    requires
        forall|i: int| 0 <= i < raw.len() ==> #[trigger] raw[i] != '/' && raw[i] != '\\',
    ensures
        text::split(raw, seq!['/', '\\']) == seq![raw],
{
    let seps = seq!['/', '\\'];
    assert(seps[0] == '/');
    assert forall|i: int| 0 <= i < raw.len() implies !seps.contains(#[trigger] raw[i]) by {
        assert(raw[i] != '/' && raw[i] != '\\');
    }
    text::law_parts_lie_between_separators(Seq::empty(), '/', raw, seps);
}

/// A name that is too long loses its end: what fits is kept, character by
/// character, as in a name that is short enough.
pub proof fn law_long_names_keep_their_beginning(raw: Seq<char>)
    requires
        raw.len() > 240,
        forall|i: int| 0 <= i < raw.len() ==> #[trigger] raw[i] != '/' && raw[i] != '\\',
        raw.last() != '.',
        raw.last() != ' ',
    ensures
        sanitized(raw).len() == 240,
        forall|i: int|
            0 <= i < 240 ==> #[trigger] sanitized(raw)[i] == if misplaced(raw[i]) {
                '_'
            } else {
                raw[i]
            },
{
    lemma_single_component(raw);
    assert(seq![raw].last() == raw);
    let clean = cleaned(raw);
    let set = seq!['.', ' '];
    assert(clean.last() == if hostile(raw.last()) { '_' } else { raw.last() });
    assert(!set.contains(clean.last())) by {
        if set.contains(clean.last()) {
            let k = choose|k: int| 0 <= k < set.len() && set[k] == clean.last();
            assert(k == 0 || k == 1);
        }
    }
    assert(text::trim_end_of(clean, set) == clean);
}

/// A dot or a space at the end of a name does not count.
pub proof fn law_trailing_dots_and_spaces_are_dropped(raw: Seq<char>, c: char)
    requires
        c == '.' || c == ' ',
        raw.len() > 0,
        raw != seq!['.'],
        raw != seq!['.', '.'],
        forall|i: int| 0 <= i < raw.len() ==> #[trigger] raw[i] != '/' && raw[i] != '\\',
    ensures
        sanitized(raw.push(c)) == sanitized(raw),
{
    let more = raw.push(c);
    lemma_single_component(raw);
    assert forall|i: int| 0 <= i < more.len() implies #[trigger] more[i] != '/' && more[i] != '\\' by {
        if i < raw.len() {
            assert(more[i] == raw[i]);
        }
    }
    lemma_single_component(more);
    assert(seq![raw].last() == raw && seq![more].last() == more);
    if more == seq!['.', '.'] {
        assert(raw =~= seq!['.']);
    }
    assert(more != seq!['.']) by {
        if more == seq!['.'] {
            assert(more.len() == 1);
        }
    }
    let set = seq!['.', ' '];
    assert(set[0] == '.' && set[1] == ' ');
    assert(cleaned(more).drop_last() =~= cleaned(raw));
    assert(cleaned(more).last() == c);
    assert(set.contains(c));
}

/// A name of nothing but dots and spaces, or none at all, is replaced by a
/// fixed one.
pub proof fn law_empty_names_are_replaced(raw: Seq<char>)
    requires
        forall|i: int| 0 <= i < raw.len() ==> #[trigger] raw[i] == '.' || raw[i] == ' ',
    ensures
        sanitized(raw) == "received-file"@,
{
    lemma_single_component(raw);
    assert(seq![raw].last() == raw);
    assert(seq![raw].drop_last() =~= Seq::<Seq<char>>::empty());
    assert(cleaned(raw) =~= raw) by {
        assert forall|i: int| 0 <= i < raw.len() implies cleaned(raw)[i] == raw[i] by {
            assert(raw[i] == '.' || raw[i] == ' ');
        }
    }
    lemma_all_trimmed(raw);
    lemma_fallback_is_kept();
    lemma_fallback();
    assert(last_usable(Seq::<Seq<char>>::empty()) is None);
    assert(last_usable(seq![raw]) == if raw.len() == 0 || raw == seq!['.'] || raw == seq![
        '.',
        '.',
    ] {
        None
    } else {
        Some(raw)
    });
}

proof fn lemma_all_trimmed(s: Seq<char>)
    requires
        forall|i: int| 0 <= i < s.len() ==> #[trigger] s[i] == '.' || s[i] == ' ',
    ensures
        text::trim_end_of(s, seq!['.', ' ']).len() == 0,
    decreases s.len(),
{
    let set = seq!['.', ' '];
    assert(set[0] == '.' && set[1] == ' ');
    if s.len() > 0 {
        assert(s.last() == s[s.len() - 1]);
        let rest = s.drop_last();
        assert forall|i: int| 0 <= i < rest.len() implies #[trigger] rest[i] == '.' || rest[i] == ' ' by {
            assert(rest[i] == s[i]);
        }
        lemma_all_trimmed(rest);
    }
}

proof fn lemma_fallback_is_kept()
    ensures
        text::trim_end_of(cleaned(FALLBACK_NAME@), seq!['.', ' ']) == FALLBACK_NAME@,
{
    reveal_strlit("received-file");
    let name = FALLBACK_NAME@;
    assert(cleaned(name) =~= name);
    let set = seq!['.', ' '];
    assert(name.last() == 'e');
    assert(!set.contains('e')) by {
        if set.contains('e') {
            let k = choose|k: int| 0 <= k < set.len() && set[k] == 'e';
            assert(k == 0 || k == 1);
        }
    }
}

} // verus!
