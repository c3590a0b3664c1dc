//! The active-session registry record: building the live record of a login,
//! retiring it when the session ends, and the keyed table the records are
//! written into.
use vstd::prelude::*;
use vstd::string::StringSliceAdditionalSpecFns;

verus! {

/// Bytes kept of the username.
pub const USER_SIZE: usize = 32;

/// Highest console number whose terminal line is `tty` and one digit.
pub const MAX_TTY: u8 = 9;

pub const MICROS_PER_SECOND: u128 = 1_000_000;

/// Kind of a registry record.
#[derive(Clone, Copy, Debug, PartialEq, Eq, Structural)]
pub enum EntryKind {
    /// A logged-in user's process.
    Live,
    /// A process that has ended.
    Dead,
}

/// One fixed-layout record of the active-session registry.
#[derive(Clone, Copy, Debug, PartialEq, Eq)]
pub struct RegistryEntry {
    pub kind: EntryKind,
    pub pid: i32,
    /// Terminal line, `tty` and the console digit, zero-padded.
    pub line: [u8; 32],
    /// Key of the record: the console digit, zero-padded.
    pub id: [u8; 4],
    /// Username, truncated and zero-padded.
    pub user: [u8; 32],
    pub tv_sec: i32,
    pub tv_usec: i32,
}

/// Why no record was built.
#[derive(Clone, Copy, Debug, PartialEq, Eq, Structural)]
pub enum RegistryError {
    /// The console number has no one-digit terminal line.
    InvalidTty,
    /// The time does not fit the record's seconds field.
    ClockOverflow,
}

pub open spec fn digit_of(tty: u8) -> u8 {
    (48 + tty) as u8
}

/// The username field: the first bytes of the name, then zeros.
pub open spec fn user_field(name: Seq<u8>) -> Seq<u8> {
    Seq::new(32, |i: int| if i < name.len() { name[i] } else { 0u8 })
}

/// The terminal line field: `tty`, the digit, then zeros.
pub open spec fn line_field(tty: u8) -> Seq<u8> {
    Seq::new(
        32,
        |i: int|
            if i == 0 {
                116u8
            } else if i == 1 {
                116u8
            } else if i == 2 {
                121u8
            } else if i == 3 {
                digit_of(tty)
            } else {
                0u8
            },
    )
}

/// The key field: the digit, then zeros.
pub open spec fn id_field(tty: u8) -> Seq<u8> {
    Seq::new(4, |i: int| if i == 0 { digit_of(tty) } else { 0u8 })
}

/// The live record of `name` on console `tty` for process `pid` at
/// `micros` microseconds since the epoch.
pub open spec fn is_live_record(e: RegistryEntry, name: Seq<u8>, tty: u8, pid: i32, micros: u128) -> bool {
    &&& e.kind == EntryKind::Live
    &&& e.pid == pid
    &&& e.user@ == user_field(name)
    &&& e.line@ == line_field(tty)
    &&& e.id@ == id_field(tty)
    &&& e.tv_sec == micros / MICROS_PER_SECOND
    &&& e.tv_usec == micros % MICROS_PER_SECOND
}

pub open spec fn zeros(n: nat) -> Seq<u8> {
    Seq::new(n, |i: int| 0u8)
}

/// `r` is `e` marked dead, with line, user and time cleared: same process
/// and same key.
pub open spec fn is_retired(r: RegistryEntry, e: RegistryEntry) -> bool {
    &&& r.kind == EntryKind::Dead
    &&& r.pid == e.pid
    &&& r.id == e.id
    &&& r.line@ == zeros(32)
    &&& r.user@ == zeros(32)
    &&& r.tv_sec == 0
    &&& r.tv_usec == 0
}

/// Builds the live record of a login: `username` on console `tty`, process
/// `pid`, at `now_micros` microseconds since the epoch.
pub fn add_utmpx_entry(username: &str, tty: u8, pid: i32, now_micros: u128) -> (r: Result<RegistryEntry, RegistryError>)
    ensures
        tty > MAX_TTY ==> r == Err::<RegistryEntry, RegistryError>(RegistryError::InvalidTty),
        tty <= MAX_TTY && now_micros / MICROS_PER_SECOND > i32::MAX ==> r == Err::<
            RegistryEntry,
            RegistryError,
        >(RegistryError::ClockOverflow),
        tty <= MAX_TTY && now_micros / MICROS_PER_SECOND <= i32::MAX ==> match r {
            Ok(e) => is_live_record(e, username.spec_bytes(), tty, pid, now_micros),
            Err(_) => false,
        },
{
    if tty > MAX_TTY {
        return Err(RegistryError::InvalidTty);
    }
    let secs = now_micros / MICROS_PER_SECOND;
    if secs > i32::MAX as u128 {
        return Err(RegistryError::ClockOverflow);
    }
    let micros = now_micros % MICROS_PER_SECOND;
    let name = username.as_bytes();
    let mut user = [0u8; 32];
    let mut i: usize = 0;
    while i < USER_SIZE && i < name.len()
        invariant
            i <= USER_SIZE,
            i <= name@.len(),
            name@ == username.spec_bytes(),
            forall|j: int| 0 <= j < i ==> user@[j] == name@[j],
            forall|j: int| i <= j < 32 ==> user@[j] == 0u8,
        decreases USER_SIZE - i,
    {
        user[i] = name[i];
        i = i + 1;
    }
    assert forall|j: int| 0 <= j < 32 implies user@[j] == user_field(name@)[j] by {
        if j < name@.len() {
            assert(j < i);
        }
    }
    assert(user@ =~= user_field(name@));
    let digit = 48u8 + tty;
    let mut line = [0u8; 32];
    line[0] = 116u8;
    line[1] = 116u8;
    line[2] = 121u8;
    line[3] = digit;
    assert(line@ =~= line_field(tty));
    let mut id = [0u8; 4];
    id[0] = digit;
    assert(id@ =~= id_field(tty));
    Ok(
        RegistryEntry {
            kind: EntryKind::Live,
            pid,
            line,
            id,
            user,
            tv_sec: secs as i32,
            tv_usec: micros as i32,
        },
    )
}

/// The record that retires `entry` when its session ends.
pub fn drop_utmpx_entry(entry: RegistryEntry) -> (r: RegistryEntry)
    ensures
        is_retired(r, entry),
{
    let r = RegistryEntry {
        kind: EntryKind::Dead,
        pid: entry.pid,
        line: [0u8; 32],
        id: entry.id,
        user: [0u8; 32],
        tv_sec: 0,
        tv_usec: 0,
    };
    assert(r.line@ =~= zeros(32));
    assert(r.user@ =~= zeros(32));
    r
}

/// The registry as a table from key to record: a later record replaces an
/// earlier one with the same key.
pub open spec fn table_of(s: Seq<RegistryEntry>) -> Map<Seq<u8>, RegistryEntry>
    decreases s.len(),
{
    if s.len() == 0 {
        Map::empty()
    } else {
        table_of(s.drop_last()).insert(s.last().id@, s.last())
    }
}

/// An in-memory active-session registry, written by key as the system's
/// registry is.
pub struct Registry {
    pub entries: Vec<RegistryEntry>,
}

proof fn lemma_update_last_match(s: Seq<RegistryEntry>, i: int, e: RegistryEntry)
    requires
        0 <= i < s.len(),
        s[i].id@ == e.id@,
        forall|j: int| i < j < s.len() ==> s[j].id@ != e.id@,
    ensures
        table_of(s.update(i, e)) == table_of(s).insert(e.id@, e),
    decreases s.len(),
{
    let u = s.update(i, e);
    if i == s.len() - 1 {
        assert(u.drop_last() =~= s.drop_last());
        assert(table_of(u) =~= table_of(s).insert(e.id@, e));
    } else {
        assert(u.drop_last() =~= s.drop_last().update(i, e));
        lemma_update_last_match(s.drop_last(), i, e);
        assert(table_of(u) =~= table_of(s).insert(e.id@, e));
    }
}

fn same_key(a: &[u8; 4], b: &[u8; 4]) -> (r: bool)
    ensures
        r == (a@ == b@),
{
    let mut i: usize = 0;
    while i < 4
        invariant
            i <= 4,
            forall|j: int| 0 <= j < i ==> a@[j] == b@[j],
        decreases 4 - i,
    {
        if a[i] != b[i] {
            return false;
        }
        i = i + 1;
    }
    assert(a@ =~= b@);
    true
}

impl Registry {
    pub fn new() -> (r: Registry)
        ensures
            table_of(r.entries@) == Map::<Seq<u8>, RegistryEntry>::empty(),
    {
        Registry { entries: Vec::new() }
    }

    /// Writes `entry`: it replaces the record with the same key, or is added.
    pub fn put(&mut self, entry: RegistryEntry)
        ensures
            table_of(final(self).entries@) == table_of(old(self).entries@).insert(entry.id@, entry),
    {
        let mut k: usize = self.entries.len();
        while k > 0
            invariant
                self.entries@ == old(self).entries@,
                k <= self.entries.len(),
                forall|j: int| k <= j < self.entries.len() ==> self.entries@[j].id@ != entry.id@,
            decreases k,
        {
            if same_key(&self.entries[k - 1].id, &entry.id) {
                proof {
                    lemma_update_last_match(self.entries@, k - 1, entry);
                }
                self.entries.set(k - 1, entry);
                return;
            }
            k = k - 1;
        }
        self.entries.push(entry);
        proof {
            assert(self.entries@.drop_last() =~= old(self).entries@);
        }
    }

    /// The record written under `key`, if any.
    pub fn get(&self, key: &[u8; 4]) -> (r: Option<RegistryEntry>)
        ensures
            table_of(self.entries@).contains_key(key@) ==> r == Some(table_of(self.entries@)[key@]),
            !table_of(self.entries@).contains_key(key@) ==> r is None,
    {
        let mut k: usize = self.entries.len();
        while k > 0
            invariant
                k <= self.entries.len(),
                forall|j: int| k <= j < self.entries.len() ==> self.entries@[j].id@ != key@,
            decreases k,
        {
            if same_key(&self.entries[k - 1].id, key) {
                proof {
                    lemma_lookup_last_match(self.entries@, k - 1, key@);
                }
                return Some(self.entries[k - 1]);
            }
            k = k - 1;
        }
        proof {
            lemma_lookup_absent(self.entries@, key@);
        }
        None
    }
}

proof fn lemma_lookup_last_match(s: Seq<RegistryEntry>, i: int, key: Seq<u8>)
    requires
        0 <= i < s.len(),
        s[i].id@ == key,
        forall|j: int| i < j < s.len() ==> s[j].id@ != key,
    ensures
        table_of(s).contains_key(key),
        table_of(s)[key] == s[i],
    decreases s.len(),
{
    if i < s.len() - 1 {
        lemma_lookup_last_match(s.drop_last(), i, key);
    }
}

proof fn lemma_lookup_absent(s: Seq<RegistryEntry>, key: Seq<u8>)
    requires
        forall|j: int| 0 <= j < s.len() ==> s[j].id@ != key,
    ensures
        !table_of(s).contains_key(key),
    decreases s.len(),
{
    if s.len() > 0 {
        lemma_lookup_absent(s.drop_last(), key);
    }
}

/// Writing a session's live record and then the record that retires it
/// leaves, under that session's key, a dead record and nothing live; no
/// other key is touched.
pub proof fn lemma_record_then_clear(
    before: Map<Seq<u8>, RegistryEntry>,
    record: RegistryEntry,
    cleared: RegistryEntry,
)
    requires
        is_retired(cleared, record),
    ensures
        ({
            let after = before.insert(record.id@, record).insert(cleared.id@, cleared);
            &&& after.contains_key(record.id@)
            &&& after[record.id@].kind == EntryKind::Dead
            &&& after[record.id@].user@ == zeros(32)
            &&& after[record.id@].line@ == zeros(32)
            &&& after.dom() == before.dom().insert(record.id@)
            &&& forall|k: Seq<u8>| k != record.id@ && before.contains_key(k) ==> after[k] == before[k]
        }),
{
    let after = before.insert(record.id@, record).insert(cleared.id@, cleared);
    assert(after.dom() =~= before.dom().insert(record.id@));
}

} // verus!
