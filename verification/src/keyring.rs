use vstd::prelude::*;
use std::collections::BTreeMap;
use vstd::std_specs::iter::IteratorSpec;
use vstd::std_specs::cmp::OrdSpec;
use crate::error::SyscallError;
use crate::text::{decimal, decimal_bytes, hex8, pad_left, push_all, push_decimal, push_hex8, push_padded};

verus! {

broadcast use vstd::laws_cmp::group_laws_cmp, vstd::std_specs::btree::group_btree_axioms;

/// Special keyring ids of `keyctl` and `add_key`.
pub const KEY_SPEC_THREAD_KEYRING: i32 = -1;
pub const KEY_SPEC_PROCESS_KEYRING: i32 = -2;
pub const KEY_SPEC_SESSION_KEYRING: i32 = -3;
pub const KEY_SPEC_USER_KEYRING: i32 = -4;
pub const KEY_SPEC_USER_SESSION_KEYRING: i32 = -5;

/// The possessor's write permission bit.
pub const KEY_POS_WRITE: u32 = 0x0400_0000;
/// The largest payload of a `user` key.
pub const KEY_USER_MAX_PAYLOAD: usize = 32_767;
/// Quota defaults for ordinary users and for root.
pub const KEY_USER_DEFAULT_MAX_KEYS: usize = 200;
pub const KEY_USER_DEFAULT_MAX_BYTES: usize = 200_000;
pub const KEY_ROOT_DEFAULT_MAX_KEYS: usize = 1_000_000;
pub const KEY_ROOT_DEFAULT_MAX_BYTES: usize = 25_000_000;
/// The permissions a new key or keyring starts with.
pub const KEY_DEFAULT_PERMISSIONS: u32 = 0x3f3f_0000;
/// The first serial handed to keyrings and to keys.
pub const FIRST_KEYRING_ID: i32 = 1;
pub const FIRST_KEY_SERIAL: i32 = 1024;

/// `keyring`, the type name of keyrings.
pub open spec fn keyring_key_type() -> Seq<u8> {
    seq![0x6bu8, 0x65u8, 0x79u8, 0x72u8, 0x69u8, 0x6eu8, 0x67u8]
}

/// `user`, the type of keys whose payload counts against the owner's quota on update.
pub open spec fn user_key_type() -> Seq<u8> {
    seq![0x75u8, 0x73u8, 0x65u8, 0x72u8]
}

/// One key or keyring. Names and descriptions are byte strings.
pub struct KeyEntry {
    pub key_type: Vec<u8>,
    pub description: Vec<u8>,
    pub payload: Vec<u8>,
    pub uid: u32,
    pub gid: u32,
    pub permissions: u32,
    pub links: Vec<i32>,
    pub is_keyring: bool,
    pub negative: bool,
    pub revoked: bool,
    pub invalidated: bool,
    pub timeout_sec: u32,
    pub expires_at_sec: u64,
    pub quota_bytes: usize,
}

/// A key as a mathematical value.
pub struct KeyView {
    pub key_type: Seq<u8>,
    pub description: Seq<u8>,
    pub payload: Seq<u8>,
    pub uid: u32,
    pub gid: u32,
    pub permissions: u32,
    pub links: Seq<i32>,
    pub is_keyring: bool,
    pub negative: bool,
    pub revoked: bool,
    pub invalidated: bool,
    pub timeout_sec: u32,
    pub expires_at_sec: u64,
    pub quota_bytes: usize,
}

impl View for KeyEntry {
    type V = KeyView;

    open spec fn view(&self) -> KeyView {
        KeyView {
            key_type: self.key_type@,
            description: self.description@,
            payload: self.payload@,
            uid: self.uid,
            gid: self.gid,
            permissions: self.permissions,
            links: self.links@,
            is_keyring: self.is_keyring,
            negative: self.negative,
            revoked: self.revoked,
            invalidated: self.invalidated,
            timeout_sec: self.timeout_sec,
            expires_at_sec: self.expires_at_sec,
            quota_bytes: self.quota_bytes,
        }
    }
}

/// A key with every field empty, zero or false.
pub open spec fn empty_key() -> KeyView {
    KeyView {
        key_type: Seq::empty(),
        description: Seq::empty(),
        payload: Seq::empty(),
        uid: 0,
        gid: 0,
        permissions: 0,
        links: Seq::empty(),
        is_keyring: false,
        negative: false,
        revoked: false,
        invalidated: false,
        timeout_sec: 0,
        expires_at_sec: 0,
        quota_bytes: 0,
    }
}

/// A copy of a byte string.
pub fn copy_bytes(bytes: &[u8]) -> (r: Vec<u8>)
    ensures
        r@ == bytes@,
{
    let mut out: Vec<u8> = Vec::new();
    let mut i: usize = 0;
    while i < bytes.len()
        invariant
            i <= bytes.len(),
            out@ == bytes@.take(i as int),
        decreases bytes.len() - i,
    {
        out.push(bytes[i]);
        i += 1;
        assert(out@ =~= bytes@.take(i as int));
    }
    assert(bytes@.take(bytes@.len() as int) =~= bytes@);
    out
}

/// A copy of a list of serials.
pub fn copy_serials(serials: &[i32]) -> (r: Vec<i32>)
    ensures
        r@ == serials@,
{
    let mut out: Vec<i32> = Vec::new();
    let mut i: usize = 0;
    while i < serials.len()
        invariant
            i <= serials.len(),
            out@ == serials@.take(i as int),
        decreases serials.len() - i,
    {
        out.push(serials[i]);
        i += 1;
        assert(out@ =~= serials@.take(i as int));
    }
    assert(serials@.take(serials@.len() as int) =~= serials@);
    out
}

/// Whether two byte strings are equal.
pub fn bytes_equal(a: &[u8], b: &[u8]) -> (r: bool)
    ensures
        r == (a@ == b@),
{
    if a.len() != b.len() {
        return false;
    }
    let mut i: usize = 0;
    while i < a.len()
        invariant
            i <= a.len() == b.len(),
            forall|j: int| 0 <= j < i ==> a@[j] == b@[j],
        decreases a.len() - i,
    {
        if a[i] != b[i] {
            return false;
        }
        i += 1;
    }
    assert(a@ =~= b@);
    true
}

impl KeyEntry {
    /// A key with every field empty, zero or false.
    pub fn empty() -> (r: KeyEntry)
        ensures
            r@ == empty_key(),
    {
        KeyEntry {
            key_type: Vec::new(),
            description: Vec::new(),
            payload: Vec::new(),
            uid: 0,
            gid: 0,
            permissions: 0,
            links: Vec::new(),
            is_keyring: false,
            negative: false,
            revoked: false,
            invalidated: false,
            timeout_sec: 0,
            expires_at_sec: 0,
            quota_bytes: 0,
        }
    }

    /// A field-by-field copy.
    pub fn duplicate(&self) -> (r: KeyEntry)
        ensures
            r@ == self@,
    {
        KeyEntry {
            key_type: copy_bytes(self.key_type.as_slice()),
            description: copy_bytes(self.description.as_slice()),
            payload: copy_bytes(self.payload.as_slice()),
            uid: self.uid,
            gid: self.gid,
            permissions: self.permissions,
            links: copy_serials(self.links.as_slice()),
            is_keyring: self.is_keyring,
            negative: self.negative,
            revoked: self.revoked,
            invalidated: self.invalidated,
            timeout_sec: self.timeout_sec,
            expires_at_sec: self.expires_at_sec,
            quota_bytes: self.quota_bytes,
        }
    }
}

/// Keys and payload bytes charged to one user.
#[derive(Clone, Copy, Debug, PartialEq, Eq, Structural)]
pub struct KeyUserQuota {
    pub keys: usize,
    pub bytes: usize,
}

/// The key-count and byte limits of root and of every other user.
#[derive(Clone, Copy, Debug, PartialEq, Eq, Structural)]
pub struct KeyQuotaLimits {
    pub root_max_keys: usize,
    pub root_max_bytes: usize,
    pub user_max_keys: usize,
    pub user_max_bytes: usize,
}

/// The limits a fresh registry has.
pub open spec fn default_limits() -> KeyQuotaLimits {
    KeyQuotaLimits {
        root_max_keys: KEY_ROOT_DEFAULT_MAX_KEYS,
        root_max_bytes: KEY_ROOT_DEFAULT_MAX_BYTES,
        user_max_keys: KEY_USER_DEFAULT_MAX_KEYS,
        user_max_bytes: KEY_USER_DEFAULT_MAX_BYTES,
    }
}

impl KeyQuotaLimits {
    /// Limits are sysctl integers.
    pub open spec fn wf(self) -> bool {
        &&& self.root_max_keys <= i32::MAX
        &&& self.root_max_bytes <= i32::MAX
        &&& self.user_max_keys <= i32::MAX
        &&& self.user_max_bytes <= i32::MAX
    }

    /// `(max_keys, max_bytes)` for `uid`.
    pub open spec fn limits_for(self, uid: u32) -> (usize, usize) {
        if uid == 0 {
            (self.root_max_keys, self.root_max_bytes)
        } else {
            (self.user_max_keys, self.user_max_bytes)
        }
    }

    /// The default limits.
    pub fn defaults() -> (r: KeyQuotaLimits)
        ensures
            r.wf(),
            r == default_limits(),
    {
        KeyQuotaLimits {
            root_max_keys: KEY_ROOT_DEFAULT_MAX_KEYS,
            root_max_bytes: KEY_ROOT_DEFAULT_MAX_BYTES,
            user_max_keys: KEY_USER_DEFAULT_MAX_KEYS,
            user_max_bytes: KEY_USER_DEFAULT_MAX_BYTES,
        }
    }

    /// `(max_keys, max_bytes)` for `uid`.
    pub fn limits(&self, uid: u32) -> (r: (usize, usize))
        ensures
            r == self.limits_for(uid),
    {
        if uid == 0 {
            (self.root_max_keys, self.root_max_bytes)
        } else {
            (self.user_max_keys, self.user_max_bytes)
        }
    }
}

/// Every key by serial, and the quota charged to each user.
pub struct KeyRegistry {
    pub entries: BTreeMap<i32, KeyEntry>,
    pub quotas: BTreeMap<u32, KeyUserQuota>,
    pub limits: KeyQuotaLimits,
}

/// The quota of `uid`, zero where it has none yet.
pub open spec fn quota_of(q: Map<u32, KeyUserQuota>, uid: u32) -> KeyUserQuota {
    if q.contains_key(uid) {
        q[uid]
    } else {
        KeyUserQuota { keys: 0, bytes: 0 }
    }
}

/// `a + b`, held at `usize::MAX`.
pub open spec fn sat_add(a: usize, b: usize) -> usize {
    if a + b > usize::MAX {
        usize::MAX
    } else {
        (a + b) as usize
    }
}

/// `a - b`, held at zero.
pub open spec fn sat_sub(a: usize, b: usize) -> usize {
    if a < b {
        0
    } else {
        (a - b) as usize
    }
}

/// The bytes a key charges: its description, a terminator and its payload.
pub open spec fn payload_charge(description_len: usize, plen: usize) -> usize {
    sat_add(sat_add(description_len, 1), plen)
}

/// The bytes a key charges: its description, a terminator and its payload.
pub fn key_user_payload_bytes(description: &[u8], plen: usize) -> (r: usize)
    ensures
        r == payload_charge(description@.len() as usize, plen),
{
    description.len().saturating_add(1).saturating_add(plen)
}

impl KeyRegistry {
    pub open spec fn keys(&self) -> Map<i32, KeyView> {
        self.entries@.map_values(|e: KeyEntry| e@)
    }

    pub open spec fn wf(&self) -> bool {
        self.limits.wf()
    }

    /// An empty registry with the default limits.
    pub fn new() -> (r: KeyRegistry)
        ensures
            r.wf(),
            r.keys() == Map::<i32, KeyView>::empty(),
            r.quotas@ == Map::<u32, KeyUserQuota>::empty(),
            r.limits == default_limits(),
    {
        let r = KeyRegistry {
            entries: BTreeMap::new(),
            quotas: BTreeMap::new(),
            limits: KeyQuotaLimits::defaults(),
        };
        assert(r.keys() =~= Map::<i32, KeyView>::empty());
        r
    }
}


/// The key under `serial`, or an empty one where there is none.
pub open spec fn key_or_empty(m: Map<i32, KeyView>, serial: i32) -> KeyView {
    if m.contains_key(serial) {
        m[serial]
    } else {
        empty_key()
    }
}

/// A key turned into a keyring owned by `uid`/`gid`; an empty description keeps the old one,
/// and a key that was not a keyring yet gets the default permissions.
pub open spec fn ensured_keyring(e: KeyView, description: Seq<u8>, uid: u32, gid: u32) -> KeyView {
    KeyView {
        key_type: keyring_key_type(),
        description: if description.len() == 0 {
            e.description
        } else {
            description
        },
        uid,
        gid,
        permissions: if e.is_keyring {
            e.permissions
        } else {
            KEY_DEFAULT_PERMISSIONS
        },
        is_keyring: true,
        ..e
    }
}

/// A key set to a positive key of `key_type` with `payload`, charged for its bytes.
pub open spec fn ensured_key(
    e: KeyView,
    key_type: Seq<u8>,
    description: Seq<u8>,
    payload: Seq<u8>,
    uid: u32,
    gid: u32,
) -> KeyView {
    KeyView {
        key_type,
        description,
        payload,
        uid,
        gid,
        permissions: KEY_DEFAULT_PERMISSIONS,
        is_keyring: false,
        negative: false,
        quota_bytes: payload_charge(description.len() as usize, payload.len() as usize),
        ..e
    }
}

/// A key set to a negative (rejected) key of `key_type`, with no payload and no charge.
pub open spec fn ensured_negative_key(
    e: KeyView,
    key_type: Seq<u8>,
    description: Seq<u8>,
    uid: u32,
    gid: u32,
) -> KeyView {
    KeyView {
        key_type,
        description,
        payload: Seq::empty(),
        uid,
        gid,
        permissions: KEY_DEFAULT_PERMISSIONS,
        is_keyring: false,
        negative: true,
        quota_bytes: 0,
        ..e
    }
}

/// The quotas after a key of `uid` charged with `quota_bytes` went away.
pub open spec fn quotas_after_release(
    q: Map<u32, KeyUserQuota>,
    uid: u32,
    quota_bytes: usize,
) -> Map<u32, KeyUserQuota> {
    if quota_bytes == 0 || !q.contains_key(uid) {
        q
    } else {
        q.insert(
            uid,
            KeyUserQuota { keys: sat_sub(q[uid].keys, 1), bytes: sat_sub(q[uid].bytes, quota_bytes) },
        )
    }
}

/// Whether reserving one more key of `bytes` bytes for `uid` stays within its limits.
pub open spec fn quota_fits(
    q: Map<u32, KeyUserQuota>,
    limits: KeyQuotaLimits,
    uid: u32,
    bytes: usize,
) -> bool {
    &&& sat_add(quota_of(q, uid).keys, 1) <= limits.limits_for(uid).0
    &&& sat_add(quota_of(q, uid).bytes, bytes) <= limits.limits_for(uid).1
}

/// The quotas after reserving one more key of `bytes` bytes for `uid`: charged where it
/// fits, and in any case with an entry for `uid`.
pub open spec fn quotas_after_reserve(
    q: Map<u32, KeyUserQuota>,
    limits: KeyQuotaLimits,
    uid: u32,
    bytes: usize,
) -> Map<u32, KeyUserQuota> {
    q.insert(
        uid,
        if quota_fits(q, limits, uid, bytes) {
            KeyUserQuota {
                keys: (quota_of(q, uid).keys + 1) as usize,
                bytes: (quota_of(q, uid).bytes + bytes) as usize,
            }
        } else {
            quota_of(q, uid)
        },
    )
}

/// Whether a key has expired at `now_sec`.
pub open spec fn key_expired(e: KeyView, now_sec: u64) -> bool {
    e.expires_at_sec != 0 && now_sec >= e.expires_at_sec
}

/// Why a key cannot be used at `now_sec`, if it cannot.
pub open spec fn live_key_check(m: Map<i32, KeyView>, serial: i32, now_sec: u64) -> Result<
    (),
    SyscallError,
> {
    if !m.contains_key(serial) {
        Err(SyscallError::NoKey)
    } else if m[serial].revoked {
        Err(SyscallError::KeyRevoked)
    } else if m[serial].invalidated || m[serial].negative {
        Err(SyscallError::NoKey)
    } else if key_expired(m[serial], now_sec) {
        Err(SyscallError::KeyExpired)
    } else {
        Ok(())
    }
}

/// `keyring` as bytes.
pub fn keyring_type_bytes() -> (r: Vec<u8>)
    ensures
        r@ == keyring_key_type(),
{
    let r: Vec<u8> = vec![0x6b, 0x65, 0x79, 0x72, 0x69, 0x6e, 0x67];
    assert(r@ =~= keyring_key_type());
    r
}

impl KeyRegistry {
    /// Takes the key under `serial` out of the registry.
    fn take_entry(&mut self, serial: i32) -> (r: Option<KeyEntry>)
        ensures
            final(self).keys() == old(self).keys().remove(serial),
            final(self).quotas@ == old(self).quotas@,
            final(self).limits == old(self).limits,
            match r {
                Some(e) => old(self).keys().contains_key(serial) && e@ == old(self).keys()[serial],
                None => !old(self).keys().contains_key(serial),
            },
    {
        let r = self.entries.remove(&serial);
        assert(self.keys() =~= old(self).keys().remove(serial));
        r
    }

    /// Puts a key (back) under `serial`.
    fn put_entry(&mut self, serial: i32, e: KeyEntry)
        ensures
            final(self).keys() == old(self).keys().insert(serial, e@),
            final(self).quotas@ == old(self).quotas@,
            final(self).limits == old(self).limits,
    {
        self.entries.insert(serial, e);
        assert(self.keys() =~= old(self).keys().insert(serial, e@));
    }

    /// Takes the key under `serial` out, or an empty key where there is none.
    fn take_entry_or_empty(&mut self, serial: i32) -> (r: KeyEntry)
        ensures
            final(self).keys() == old(self).keys().remove(serial),
            final(self).quotas@ == old(self).quotas@,
            final(self).limits == old(self).limits,
            r@ == key_or_empty(old(self).keys(), serial),
    {
        match self.take_entry(serial) {
            Some(e) => e,
            None => KeyEntry::empty(),
        }
    }

    /// Whether `serial` names a keyring that was not revoked.
    pub fn keyring_exists(&self, serial: i32) -> (r: bool)
        ensures
            r == (self.keys().contains_key(serial) && self.keys()[serial].is_keyring
                && !self.keys()[serial].revoked),
    {
        match self.entries.get(&serial) {
            Some(e) => e.is_keyring && !e.revoked,
            None => false,
        }
    }

    /// Makes `serial` a keyring owned by `uid`/`gid`, creating it where needed.
    pub fn ensure_keyring_entry_with_owner(
        &mut self,
        serial: i32,
        description: &[u8],
        uid: u32,
        gid: u32,
    )
        ensures
            final(self).keys() == old(self).keys().insert(
                serial,
                ensured_keyring(key_or_empty(old(self).keys(), serial), description@, uid, gid),
            ),
            final(self).quotas@ == old(self).quotas@,
            final(self).limits == old(self).limits,
    {
        let mut e = self.take_entry_or_empty(serial);
        if !e.is_keyring {
            e.permissions = KEY_DEFAULT_PERMISSIONS;
        }
        e.key_type = keyring_type_bytes();
        e.is_keyring = true;
        e.uid = uid;
        e.gid = gid;
        if description.len() != 0 {
            e.description = copy_bytes(description);
        }
        self.put_entry(serial, e);
        assert(self.keys() =~= old(self).keys().insert(
            serial,
            ensured_keyring(key_or_empty(old(self).keys(), serial), description@, uid, gid),
        ));
    }

    /// Makes `serial` a positive key of `key_type` holding `payload`.
    pub fn ensure_key_entry(
        &mut self,
        serial: i32,
        key_type: &[u8],
        description: &[u8],
        payload: Vec<u8>,
        uid: u32,
        gid: u32,
    )
        ensures
            final(self).keys() == old(self).keys().insert(
                serial,
                ensured_key(
                    key_or_empty(old(self).keys(), serial),
                    key_type@,
                    description@,
                    payload@,
                    uid,
                    gid,
                ),
            ),
            final(self).quotas@ == old(self).quotas@,
            final(self).limits == old(self).limits,
    {
        let quota_bytes = key_user_payload_bytes(description, payload.len());
        let mut e = self.take_entry_or_empty(serial);
        e.key_type = copy_bytes(key_type);
        e.description = copy_bytes(description);
        e.payload = payload;
        e.uid = uid;
        e.gid = gid;
        e.permissions = KEY_DEFAULT_PERMISSIONS;
        e.is_keyring = false;
        e.negative = false;
        e.quota_bytes = quota_bytes;
        self.put_entry(serial, e);
    }

    /// Makes `serial` a negative key of `key_type`: no payload, no charge.
    pub fn ensure_negative_key_entry(
        &mut self,
        serial: i32,
        key_type: &[u8],
        description: &[u8],
        uid: u32,
        gid: u32,
    )
        ensures
            final(self).keys() == old(self).keys().insert(
                serial,
                ensured_negative_key(
                    key_or_empty(old(self).keys(), serial),
                    key_type@,
                    description@,
                    uid,
                    gid,
                ),
            ),
            final(self).quotas@ == old(self).quotas@,
            final(self).limits == old(self).limits,
    {
        let mut e = self.take_entry_or_empty(serial);
        e.key_type = copy_bytes(key_type);
        e.description = copy_bytes(description);
        e.payload = Vec::new();
        e.uid = uid;
        e.gid = gid;
        e.permissions = KEY_DEFAULT_PERMISSIONS;
        e.is_keyring = false;
        e.negative = true;
        e.quota_bytes = 0;
        self.put_entry(serial, e);
        assert(self.keys() =~= old(self).keys().insert(
            serial,
            ensured_negative_key(
                key_or_empty(old(self).keys(), serial),
                key_type@,
                description@,
                uid,
                gid,
            ),
        ));
    }

    /// Charges one key of `description` and `plen` payload bytes to `uid`, or refuses with
    /// `QuotaExceeded`. A user seen for the first time gets an empty quota either way.
    pub fn reserve_user_key_quota(&mut self, uid: u32, description: &[u8], plen: usize) -> (r:
        Result<(), SyscallError>)
        requires
            old(self).wf(),
        ensures
            final(self).wf(),
            r == if quota_fits(
                old(self).quotas@,
                old(self).limits,
                uid,
                payload_charge(description@.len() as usize, plen),
            ) {
                Ok::<(), SyscallError>(())
            } else {
                Err(SyscallError::QuotaExceeded)
            },
            final(self).quotas@ == quotas_after_reserve(
                old(self).quotas@,
                old(self).limits,
                uid,
                payload_charge(description@.len() as usize, plen),
            ),
            final(self).keys() == old(self).keys(),
            final(self).limits == old(self).limits,
    {
        let bytes = key_user_payload_bytes(description, plen);
        let q = match self.quotas.get(&uid) {
            Some(q) => *q,
            None => KeyUserQuota { keys: 0, bytes: 0 },
        };
        let (max_keys, max_bytes) = self.limits.limits(uid);
        if q.keys.saturating_add(1) > max_keys || q.bytes.saturating_add(bytes) > max_bytes {
            self.quotas.insert(uid, q);
            return Err(SyscallError::QuotaExceeded);
        }
        self.quotas.insert(uid, KeyUserQuota { keys: q.keys + 1, bytes: q.bytes + bytes });
        Ok(())
    }

    /// Gives back the charge of a key that went away.
    pub fn release_key_quota(&mut self, entry: &KeyEntry)
        ensures
            final(self).quotas@ == quotas_after_release(
                old(self).quotas@,
                entry.uid,
                entry.quota_bytes,
            ),
            final(self).keys() == old(self).keys(),
            final(self).limits == old(self).limits,
    {
        if entry.quota_bytes == 0 {
            return;
        }
        let q = match self.quotas.get(&entry.uid) {
            Some(q) => *q,
            None => return,
        };
        self.quotas.insert(
            entry.uid,
            KeyUserQuota {
                keys: q.keys.saturating_sub(1),
                bytes: q.bytes.saturating_sub(entry.quota_bytes),
            },
        );
    }
}


/// The predicate "is not `serial`".
pub open spec fn not_serial(serial: i32) -> spec_fn(i32) -> bool {
    |l: i32| l != serial
}

/// A keyring with every link to `serial` dropped; other keys as they are.
pub open spec fn without_link(e: KeyView, serial: i32) -> KeyView {
    if e.is_keyring {
        KeyView { links: e.links.filter(not_serial(serial)), ..e }
    } else {
        e
    }
}

/// Every keyring of the registry with its links to `serial` dropped.
pub open spec fn keys_without_link(m: Map<i32, KeyView>, serial: i32) -> Map<i32, KeyView> {
    m.map_values(|e: KeyView| without_link(e, serial))
}

/// The first serial of `links` that satisfies `p`.
pub open spec fn first_link(links: Seq<i32>, p: spec_fn(i32) -> bool) -> Option<i32>
    decreases links.len(),
{
    if links.len() == 0 {
        None
    } else if p(links[0]) {
        Some(links[0])
    } else {
        first_link(links.drop_first(), p)
    }
}

/// `first_link` finds nothing exactly when no link satisfies `p`, and what it finds is a
/// link that satisfies `p`.
pub proof fn lemma_first_link(links: Seq<i32>, p: spec_fn(i32) -> bool)
    ensures
        first_link(links, p) is None <==> forall|i: int| 0 <= i < links.len() ==> !p(#[trigger] links[i]),
        first_link(links, p) matches Some(s) ==> p(s) && links.contains(s),
    decreases links.len(),
{
    if links.len() > 0 {
        lemma_first_link(links.drop_first(), p);
        if first_link(links, p) is None {
            assert forall|i: int| 0 <= i < links.len() implies !p(#[trigger] links[i]) by {
                if i > 0 {
                    assert(links.drop_first()[i - 1] == links[i]);
                }
            }
        }
        if let Some(s) = first_link(links, p) {
            if !p(links[0]) {
                let j = choose|j: int| 0 <= j < links.drop_first().len() && links.drop_first()[j] == s;
                assert(links[j + 1] == s);
            }
        }
    }
}

/// Stepping one link further keeps the first match of the rest.
proof fn lemma_first_link_step(links: Seq<i32>, p: spec_fn(i32) -> bool, i: int)
    requires
        0 <= i < links.len(),
        !p(links[i]),
    ensures
        first_link(links.skip(i), p) == first_link(links.skip(i + 1), p),
{
    assert(links.skip(i).drop_first() =~= links.skip(i + 1));
}

/// The serials of every key in the registry, each once.
fn registry_serials(m: &BTreeMap<i32, KeyEntry>) -> (r: Vec<i32>)
    ensures
        r@.to_set() == m@.dom(),
        r@.no_duplicates(),
{
    let ghost ks = vstd::std_specs::btree::spec_keys_iter(m).remaining();
    let mut out: Vec<i32> = Vec::new();
    for k in it: m.keys()
        invariant
            it.seq() == ks,
            out@ == ks.take(it.index()).unref(),
    {
        assert(ks.take(it.index() + 1) =~= ks.take(it.index()).push(k));
        out.push(*k);
        assert(out@ =~= ks.take(it.index() + 1).unref());
    }
    assert(ks.take(ks.len() as int) =~= ks);
    out
}

/// `links` without `serial`, in order.
pub fn links_without(links: &[i32], serial: i32) -> (r: Vec<i32>)
    ensures
        r@ == links@.filter(not_serial(serial)),
{
    let mut out: Vec<i32> = Vec::new();
    let mut i: usize = 0;
    while i < links.len()
        invariant
            i <= links.len(),
            out@ == links@.take(i as int).filter(not_serial(serial)),
        decreases links.len() - i,
    {
        proof {
            assert(links@.take(i + 1) =~= links@.take(i as int).push(links@[i as int]));
            links@.take(i as int).lemma_filter_push(links@[i as int], not_serial(serial));
        }
        if links[i] != serial {
            out.push(links[i]);
        }
        i += 1;
    }
    assert(links@.take(links@.len() as int) =~= links@);
    out
}

impl KeyRegistry {
    /// Drops every link to `serial` from every keyring.
    pub fn remove_key_from_all_keyrings(&mut self, serial: i32)
        ensures
            final(self).keys() == keys_without_link(old(self).keys(), serial),
            final(self).quotas@ == old(self).quotas@,
            final(self).limits == old(self).limits,
    {
        let serials = registry_serials(&self.entries);
        let ghost m0 = self.keys();
        let mut i: usize = 0;
        while i < serials.len()
            invariant
                i <= serials.len(),
                serials@.to_set() == m0.dom(),
                serials@.no_duplicates(),
                m0 == old(self).keys(),
                self.keys().dom() == m0.dom(),
                forall|k: i32|
                    #[trigger] m0.contains_key(k) ==> self.keys()[k] == if serials@.take(
                        i as int,
                    ).contains(k) {
                        without_link(m0[k], serial)
                    } else {
                        m0[k]
                    },
                self.quotas@ == old(self).quotas@,
                self.limits == old(self).limits,
            decreases serials.len() - i,
        {
            let k = serials[i];
            assert(serials@.to_set().contains(k));
            assert(!serials@.take(i as int).contains(k)) by {
                if serials@.take(i as int).contains(k) {
                    let j = choose|j: int| 0 <= j < i && serials@.take(i as int)[j] == k;
                    assert(serials@[j] == serials@[i as int]);
                }
            }
            assert forall|x: i32| serials@.take(i + 1).contains(x) <==> (serials@.take(
                i as int,
            ).contains(x) || x == k) by {
                broadcast use vstd::seq_lib::group_seq_properties;

                assert(serials@.take(i + 1) =~= serials@.take(i as int).push(k));
            }
            let ghost before = self.keys();
            match self.take_entry(k) {
                Some(mut e) => {
                    if e.is_keyring {
                        let kept = links_without(e.links.as_slice(), serial);
                        e.links = kept;
                    }
                    self.put_entry(k, e);
                    assert(self.keys() =~= before.insert(k, without_link(m0[k], serial)));
                },
                None => {},
            }
            i += 1;
        }
        assert forall|k: i32| #[trigger] m0.contains_key(k) implies serials@.take(
            serials@.len() as int,
        ).contains(k) by {
            assert(serials@.to_set().contains(k));
            assert(serials@.take(serials@.len() as int) =~= serials@);
        }
        assert(self.keys() =~= keys_without_link(old(self).keys(), serial));
    }
}


/// `now + timeout`, held at `u64::MAX`; zero means no expiry.
pub open spec fn expiry_after(now_sec: u64, timeout_sec: u32) -> u64 {
    if timeout_sec == 0 {
        0
    } else if now_sec + timeout_sec > u64::MAX {
        u64::MAX
    } else {
        (now_sec + timeout_sec) as u64
    }
}

impl KeyRegistry {
    /// Sets the permission mask of a key that was not revoked.
    pub fn set_key_permissions(&mut self, serial: i32, permissions: u32) -> (r: Result<
        (),
        SyscallError,
    >)
        ensures
            r == if !old(self).keys().contains_key(serial) {
                Err::<(), SyscallError>(SyscallError::NoKey)
            } else if old(self).keys()[serial].revoked {
                Err(SyscallError::KeyRevoked)
            } else {
                Ok(())
            },
            final(self).keys() == if r is Ok {
                old(self).keys().insert(serial, KeyView { permissions, ..old(self).keys()[serial] })
            } else {
                old(self).keys()
            },
            final(self).quotas@ == old(self).quotas@,
            final(self).limits == old(self).limits,
    {
        match self.entries.get(&serial) {
            None => return Err(SyscallError::NoKey),
            Some(e) => {
                if e.revoked {
                    return Err(SyscallError::KeyRevoked);
                }
            },
        }
        let mut e = self.take_entry_or_empty(serial);
        e.permissions = permissions;
        self.put_entry(serial, e);
        assert(self.keys() =~= old(self).keys().insert(
            serial,
            KeyView { permissions, ..old(self).keys()[serial] },
        ));
        Ok(())
    }

    /// Gives a key that was not revoked a new owner and group.
    pub fn chown_key(&mut self, serial: i32, uid: u32, gid: u32) -> (r: Result<(), SyscallError>)
        ensures
            r == if !old(self).keys().contains_key(serial) {
                Err::<(), SyscallError>(SyscallError::NoKey)
            } else if old(self).keys()[serial].revoked {
                Err(SyscallError::KeyRevoked)
            } else {
                Ok(())
            },
            final(self).keys() == if r is Ok {
                old(self).keys().insert(serial, KeyView { uid, gid, ..old(self).keys()[serial] })
            } else {
                old(self).keys()
            },
            final(self).quotas@ == old(self).quotas@,
            final(self).limits == old(self).limits,
    {
        match self.entries.get(&serial) {
            None => return Err(SyscallError::NoKey),
            Some(e) => {
                if e.revoked {
                    return Err(SyscallError::KeyRevoked);
                }
            },
        }
        let mut e = self.take_entry_or_empty(serial);
        e.uid = uid;
        e.gid = gid;
        self.put_entry(serial, e);
        assert(self.keys() =~= old(self).keys().insert(
            serial,
            KeyView { uid, gid, ..old(self).keys()[serial] },
        ));
        Ok(())
    }

    /// Empties a keyring that was not revoked.
    pub fn clear_keyring(&mut self, serial: i32) -> (r: Result<(), SyscallError>)
        ensures
            r == if !old(self).keys().contains_key(serial) {
                Err::<(), SyscallError>(SyscallError::NoKey)
            } else if !old(self).keys()[serial].is_keyring {
                Err(SyscallError::InvalidArguments)
            } else if old(self).keys()[serial].revoked {
                Err(SyscallError::KeyRevoked)
            } else {
                Ok(())
            },
            final(self).keys() == if r is Ok {
                old(self).keys().insert(
                    serial,
                    KeyView { links: Seq::empty(), ..old(self).keys()[serial] },
                )
            } else {
                old(self).keys()
            },
            final(self).quotas@ == old(self).quotas@,
            final(self).limits == old(self).limits,
    {
        match self.entries.get(&serial) {
            None => return Err(SyscallError::NoKey),
            Some(e) => {
                if !e.is_keyring {
                    return Err(SyscallError::InvalidArguments);
                }
                if e.revoked {
                    return Err(SyscallError::KeyRevoked);
                }
            },
        }
        let mut e = self.take_entry_or_empty(serial);
        e.links = Vec::new();
        self.put_entry(serial, e);
        assert(self.keys() =~= old(self).keys().insert(
            serial,
            KeyView { links: Seq::empty(), ..old(self).keys()[serial] },
        ));
        Ok(())
    }

    /// Sets how long a key that was not revoked lives from `now_sec` on (zero: forever).
    pub fn set_key_timeout(&mut self, serial: i32, timeout_sec: u32, now_sec: u64) -> (r: Result<
        (),
        SyscallError,
    >)
        ensures
            r == if !old(self).keys().contains_key(serial) {
                Err::<(), SyscallError>(SyscallError::NoKey)
            } else if old(self).keys()[serial].revoked {
                Err(SyscallError::KeyRevoked)
            } else {
                Ok(())
            },
            final(self).keys() == if r is Ok {
                old(self).keys().insert(
                    serial,
                    KeyView {
                        timeout_sec,
                        expires_at_sec: expiry_after(now_sec, timeout_sec),
                        ..old(self).keys()[serial]
                    },
                )
            } else {
                old(self).keys()
            },
            final(self).quotas@ == old(self).quotas@,
            final(self).limits == old(self).limits,
    {
        match self.entries.get(&serial) {
            None => return Err(SyscallError::NoKey),
            Some(e) => {
                if e.revoked {
                    return Err(SyscallError::KeyRevoked);
                }
            },
        }
        let mut e = self.take_entry_or_empty(serial);
        e.timeout_sec = timeout_sec;
        e.expires_at_sec = if timeout_sec == 0 {
            0
        } else {
            now_sec.saturating_add(timeout_sec as u64)
        };
        self.put_entry(serial, e);
        assert(self.keys() =~= old(self).keys().insert(
            serial,
            KeyView {
                timeout_sec,
                expires_at_sec: expiry_after(now_sec, timeout_sec),
                ..old(self).keys()[serial]
            },
        ));
        Ok(())
    }

    /// A copy of a key that is usable at `now_sec`: present, not revoked, invalidated,
    /// negative or expired.
    pub fn get_live_key(&self, serial: i32, now_sec: u64) -> (r: Result<KeyEntry, SyscallError>)
        ensures
            match r {
                Ok(e) => live_key_check(self.keys(), serial, now_sec) is Ok && e@ == self.keys()[serial],
                Err(err) => live_key_check(self.keys(), serial, now_sec) == Err::<(), SyscallError>(err),
            },
    {
        let e = match self.entries.get(&serial) {
            Some(e) => e,
            None => return Err(SyscallError::NoKey),
        };
        if e.revoked {
            return Err(SyscallError::KeyRevoked);
        }
        if e.invalidated {
            return Err(SyscallError::NoKey);
        }
        if e.negative {
            return Err(SyscallError::NoKey);
        }
        if e.expires_at_sec != 0 && now_sec >= e.expires_at_sec {
            return Err(SyscallError::KeyExpired);
        }
        Ok(e.duplicate())
    }

    /// Whether a live keyring grants the possessor write access.
    pub fn keyring_allows_write(&self, serial: i32, now_sec: u64) -> (r: Result<bool, SyscallError>)
        ensures
            r == match live_key_check(self.keys(), serial, now_sec) {
                Err(err) => Err(err),
                Ok(()) => if !self.keys()[serial].is_keyring {
                    Err(SyscallError::InvalidArguments)
                } else {
                    Ok(self.keys()[serial].permissions & KEY_POS_WRITE != 0)
                },
            },
    {
        let e = self.get_live_key(serial, now_sec)?;
        if !e.is_keyring {
            return Err(SyscallError::InvalidArguments);
        }
        Ok(e.permissions & KEY_POS_WRITE != 0)
    }

    /// Revokes a key: a plain key leaves the registry (and every keyring, and its owner's
    /// quota); a keyring stays, marked revoked and emptied.
    pub fn revoke_key(&mut self, serial: i32) -> (r: Result<(), SyscallError>)
        requires
            old(self).wf(),
        ensures
            final(self).wf(),
            r == if old(self).keys().contains_key(serial) {
                Ok::<(), SyscallError>(())
            } else {
                Err(SyscallError::NoKey)
            },
            r is Ok && !old(self).keys()[serial].is_keyring ==> {
                &&& final(self).keys() == keys_without_link(old(self).keys().remove(serial), serial)
                &&& final(self).quotas@ == quotas_after_release(
                    old(self).quotas@,
                    old(self).keys()[serial].uid,
                    old(self).keys()[serial].quota_bytes,
                )
            },
            r is Ok && old(self).keys()[serial].is_keyring ==> {
                &&& final(self).keys() == old(self).keys().insert(
                    serial,
                    KeyView { revoked: true, links: Seq::empty(), ..old(self).keys()[serial] },
                )
                &&& final(self).quotas@ == old(self).quotas@
            },
            r is Err ==> final(self).keys() == old(self).keys() && final(self).quotas@ == old(
                self,
            ).quotas@,
            final(self).limits == old(self).limits,
    {
        let is_keyring = match self.entries.get(&serial) {
            None => return Err(SyscallError::NoKey),
            Some(e) => e.is_keyring,
        };
        if !is_keyring {
            let e = self.take_entry_or_empty(serial);
            self.release_key_quota(&e);
            self.remove_key_from_all_keyrings(serial);
            return Ok(());
        }
        let mut e = self.take_entry_or_empty(serial);
        e.revoked = true;
        e.links = Vec::new();
        self.put_entry(serial, e);
        assert(self.keys() =~= old(self).keys().insert(
            serial,
            KeyView { revoked: true, links: Seq::empty(), ..old(self).keys()[serial] },
        ));
        Ok(())
    }

    /// Removes a key from the registry, from every keyring and from its owner's quota.
    pub fn invalidate_key(&mut self, serial: i32) -> (r: Result<(), SyscallError>)
        ensures
            r == if old(self).keys().contains_key(serial) {
                Ok::<(), SyscallError>(())
            } else {
                Err(SyscallError::NoKey)
            },
            r is Ok ==> {
                &&& final(self).keys() == keys_without_link(old(self).keys().remove(serial), serial)
                &&& final(self).quotas@ == quotas_after_release(
                    old(self).quotas@,
                    old(self).keys()[serial].uid,
                    old(self).keys()[serial].quota_bytes,
                )
            },
            r is Err ==> final(self).keys() == old(self).keys() && final(self).quotas@ == old(
                self,
            ).quotas@,
            final(self).limits == old(self).limits,
    {
        let e = match self.take_entry(serial) {
            Some(e) => e,
            None => return Err(SyscallError::NoKey),
        };
        self.release_key_quota(&e);
        self.remove_key_from_all_keyrings(serial);
        Ok(())
    }

    /// Drops `source` from the links of keyring `target`.
    pub fn unlink_key_from_keyring(&mut self, source: i32, target: i32) -> (r: Result<
        (),
        SyscallError,
    >)
        ensures
            r == if !old(self).keys().contains_key(source) || !old(self).keys().contains_key(
                target,
            ) {
                Err::<(), SyscallError>(SyscallError::NoKey)
            } else if !old(self).keys()[target].is_keyring {
                Err(SyscallError::InvalidArguments)
            } else {
                Ok(())
            },
            final(self).keys() == if r is Ok {
                old(self).keys().insert(target, without_link(old(self).keys()[target], source))
            } else {
                old(self).keys()
            },
            final(self).quotas@ == old(self).quotas@,
            final(self).limits == old(self).limits,
    {
        if !self.entries.contains_key(&source) {
            return Err(SyscallError::NoKey);
        }
        match self.entries.get(&target) {
            None => return Err(SyscallError::NoKey),
            Some(e) => {
                if !e.is_keyring {
                    return Err(SyscallError::InvalidArguments);
                }
            },
        }
        let mut e = self.take_entry_or_empty(target);
        let kept = links_without(e.links.as_slice(), source);
        e.links = kept;
        self.put_entry(target, e);
        assert(self.keys() =~= old(self).keys().insert(
            target,
            without_link(old(self).keys()[target], source),
        ));
        Ok(())
    }
}


/// Keys that a new key of `key_type` and `description` replaces when linked: plain keys of
/// the same type and description.
pub open spec fn replaceable_by(m: Map<i32, KeyView>, key_type: Seq<u8>, description: Seq<u8>) -> spec_fn(
    i32,
) -> bool {
    |s: i32|
        m.contains_key(s) && m[s].key_type == key_type && m[s].description == description
            && !m[s].is_keyring
}

/// Why `source` cannot be linked into `target`, if it cannot.
pub open spec fn link_check(m: Map<i32, KeyView>, source: i32, target: i32) -> Result<
    (),
    SyscallError,
> {
    if !m.contains_key(source) {
        Err(SyscallError::NoKey)
    } else if m[source].revoked {
        Err(SyscallError::KeyRevoked)
    } else if !m.contains_key(target) || !m[target].is_keyring || m[target].revoked {
        Err(SyscallError::NoKey)
    } else {
        Ok(())
    }
}

/// The key that linking `source` into `target` pushes out: the first link of `target`
/// with the same type and description, unless that is `source` itself.
pub open spec fn replaced_key(m: Map<i32, KeyView>, source: i32, target: i32) -> Option<i32> {
    match first_link(m[target].links, replaceable_by(m, m[source].key_type, m[source].description)) {
        Some(o) => if o != source {
            Some(o)
        } else {
            None
        },
        None => None,
    }
}

/// The registry after a successful link: the replaced key gone from it and from every
/// keyring, and `source` appended to `target` unless already there.
pub open spec fn keys_after_link(m: Map<i32, KeyView>, source: i32, target: i32) -> Map<
    i32,
    KeyView,
> {
    let m2 = match replaced_key(m, source, target) {
        Some(o) => keys_without_link(m.remove(o), o),
        None => m,
    };
    m2.insert(
        target,
        KeyView {
            links: if m2[target].links.contains(source) {
                m2[target].links
            } else {
                m2[target].links.push(source)
            },
            ..m2[target]
        },
    )
}

/// The quotas after a successful link: the replaced key's charge given back.
pub open spec fn quotas_after_link(
    m: Map<i32, KeyView>,
    q: Map<u32, KeyUserQuota>,
    source: i32,
    target: i32,
) -> Map<u32, KeyUserQuota> {
    match replaced_key(m, source, target) {
        Some(o) => quotas_after_release(q, m[o].uid, m[o].quota_bytes),
        None => q,
    }
}

/// Keys that a search for `key_type`/`description` may return.
pub open spec fn live_named(m: Map<i32, KeyView>, key_type: Seq<u8>, description: Seq<u8>) -> spec_fn(
    i32,
) -> bool {
    |s: i32|
        m.contains_key(s) && !m[s].revoked && !m[s].invalidated && !m[s].negative
            && m[s].key_type == key_type && m[s].description == description
}

/// Keys of the given type and description, usable or not.
pub open spec fn named(m: Map<i32, KeyView>, key_type: Seq<u8>, description: Seq<u8>) -> spec_fn(
    i32,
) -> bool {
    |s: i32| m.contains_key(s) && m[s].key_type == key_type && m[s].description == description
}

/// What searching `keyring` for `key_type`/`description` at `now_sec` gives: the first
/// usable match in link order, or the reason the first unusable match fails.
pub open spec fn search_result(
    m: Map<i32, KeyView>,
    keyring: i32,
    key_type: Seq<u8>,
    description: Seq<u8>,
    now_sec: u64,
) -> Result<i32, SyscallError> {
    if !m.contains_key(keyring) {
        Err(SyscallError::NoKey)
    } else if !m[keyring].is_keyring {
        Err(SyscallError::InvalidArguments)
    } else if m[keyring].revoked {
        Err(SyscallError::KeyRevoked)
    } else if key_expired(m[keyring], now_sec) {
        Err(SyscallError::KeyExpired)
    } else {
        match first_link(m[keyring].links, live_named(m, key_type, description)) {
            Some(s) => Ok(s),
            None => match first_link(m[keyring].links, named(m, key_type, description)) {
                Some(s) => if m[s].revoked {
                    Err(SyscallError::KeyRevoked)
                } else if key_expired(m[s], now_sec) {
                    Err(SyscallError::KeyExpired)
                } else {
                    Err(SyscallError::NoKey)
                },
                None => Err(SyscallError::NoKey),
            },
        }
    }
}

/// Whether `serials` holds `serial`.
pub fn contains_serial(serials: &[i32], serial: i32) -> (r: bool)
    ensures
        r == serials@.contains(serial),
{
    let mut i: usize = 0;
    while i < serials.len()
        invariant
            i <= serials.len(),
            forall|j: int| 0 <= j < i ==> serials@[j] != serial,
        decreases serials.len() - i,
    {
        if serials[i] == serial {
            assert(serials@[i as int] == serial);
            return true;
        }
        i += 1;
    }
    false
}

impl KeyRegistry {
    /// Whether `s` is a plain key of the given type and description.
    fn is_replaceable(&self, s: i32, key_type: &[u8], description: &[u8]) -> (r: bool)
        ensures
            r == replaceable_by(self.keys(), key_type@, description@)(s),
    {
        match self.entries.get(&s) {
            Some(e) => bytes_equal(e.key_type.as_slice(), key_type) && bytes_equal(
                e.description.as_slice(),
                description,
            ) && !e.is_keyring,
            None => false,
        }
    }

    /// The first link of `links` that is a plain key of the given type and description.
    fn find_replaceable(&self, links: &[i32], key_type: &[u8], description: &[u8]) -> (r: Option<
        i32,
    >)
        ensures
            r == first_link(links@, replaceable_by(self.keys(), key_type@, description@)),
    {
        let ghost p = replaceable_by(self.keys(), key_type@, description@);
        let mut i: usize = 0;
        assert(links@.skip(0) =~= links@);
        while i < links.len()
            invariant
                i <= links.len(),
                first_link(links@, p) == first_link(links@.skip(i as int), p),
                p == replaceable_by(self.keys(), key_type@, description@),
            decreases links.len() - i,
        {
            if self.is_replaceable(links[i], key_type, description) {
                assert(links@.skip(i as int)[0] == links@[i as int]);
                return Some(links[i]);
            }
            proof {
                lemma_first_link_step(links@, p, i as int);
            }
            i += 1;
        }
        None
    }

    /// Links `source` into keyring `target`. A plain key of the same type and description
    /// already linked there is pushed out of the registry first, and `source` is appended
    /// unless `target` holds it already.
    pub fn link_key_into_keyring(&mut self, source: i32, target: i32) -> (r: Result<
        (),
        SyscallError,
    >)
        ensures
            r == link_check(old(self).keys(), source, target),
            final(self).keys() == if r is Ok {
                keys_after_link(old(self).keys(), source, target)
            } else {
                old(self).keys()
            },
            final(self).quotas@ == if r is Ok {
                quotas_after_link(old(self).keys(), old(self).quotas@, source, target)
            } else {
                old(self).quotas@
            },
            final(self).limits == old(self).limits,
    {
        let ghost m = self.keys();
        let (src_type, src_description) = match self.entries.get(&source) {
            None => return Err(SyscallError::NoKey),
            Some(e) => {
                if e.revoked {
                    return Err(SyscallError::KeyRevoked);
                }
                (copy_bytes(e.key_type.as_slice()), copy_bytes(e.description.as_slice()))
            },
        };
        let target_links = match self.entries.get(&target) {
            None => return Err(SyscallError::NoKey),
            Some(t) => {
                if !t.is_keyring || t.revoked {
                    return Err(SyscallError::NoKey);
                }
                copy_serials(t.links.as_slice())
            },
        };
        let old_serial = self.find_replaceable(
            target_links.as_slice(),
            src_type.as_slice(),
            src_description.as_slice(),
        );
        let ghost p = replaceable_by(m, m[source].key_type, m[source].description);
        proof {
            lemma_first_link(m[target].links, p);
        }
        match old_serial {
            Some(o) => {
                if o != source {
                    assert(o != target);
                    let e = self.take_entry_or_empty(o);
                    self.release_key_quota(&e);
                    self.remove_key_from_all_keyrings(o);
                }
            },
            None => {},
        }
        let ghost m2 = self.keys();
        assert(m2 == match replaced_key(m, source, target) {
            Some(o) => keys_without_link(m.remove(o), o),
            None => m,
        });
        assert(m2.contains_key(target));
        let mut t = self.take_entry_or_empty(target);
        if !contains_serial(t.links.as_slice(), source) {
            t.links.push(source);
        }
        self.put_entry(target, t);
        assert(self.keys() =~= keys_after_link(m, source, target));
        Ok(())
    }

    /// Whether `s` is a usable key of the given type and description.
    fn is_live_named(&self, s: i32, key_type: &[u8], description: &[u8]) -> (r: bool)
        ensures
            r == live_named(self.keys(), key_type@, description@)(s),
    {
        match self.entries.get(&s) {
            Some(e) => !e.revoked && !e.invalidated && !e.negative && bytes_equal(
                e.key_type.as_slice(),
                key_type,
            ) && bytes_equal(e.description.as_slice(), description),
            None => false,
        }
    }

    /// Searches the links of `keyring` for a key of `key_type` and `description`.
    pub fn search_keyring(&self, keyring: i32, key_type: &[u8], description: &[u8], now_sec: u64) -> (r:
        Result<i32, SyscallError>)
        ensures
            r == search_result(self.keys(), keyring, key_type@, description@, now_sec),
    {
        let ghost m = self.keys();
        let links = match self.entries.get(&keyring) {
            None => return Err(SyscallError::NoKey),
            Some(e) => {
                if !e.is_keyring {
                    return Err(SyscallError::InvalidArguments);
                }
                if e.revoked {
                    return Err(SyscallError::KeyRevoked);
                }
                if e.expires_at_sec != 0 && now_sec >= e.expires_at_sec {
                    return Err(SyscallError::KeyExpired);
                }
                copy_serials(e.links.as_slice())
            },
        };
        let ghost live = live_named(m, key_type@, description@);
        let ghost any = named(m, key_type@, description@);
        let mut i: usize = 0;
        assert(links@.skip(0) =~= links@);
        while i < links.len()
            invariant
                i <= links.len(),
                first_link(links@, live) == first_link(links@.skip(i as int), live),
                live == live_named(self.keys(), key_type@, description@),
                self.keys().contains_key(keyring),
                self.keys()[keyring].is_keyring,
                !self.keys()[keyring].revoked,
                !key_expired(self.keys()[keyring], now_sec),
                links@ == self.keys()[keyring].links,
            decreases links.len() - i,
        {
            if self.is_live_named(links[i], key_type, description) {
                assert(links@.skip(i as int)[0] == links@[i as int]);
                return Ok(links[i]);
            }
            proof {
                lemma_first_link_step(links@, live, i as int);
            }
            i += 1;
        }
        proof {
            lemma_first_link(links@, live);
        }
        let mut i: usize = 0;
        while i < links.len()
            invariant
                i <= links.len(),
                first_link(links@, any) == first_link(links@.skip(i as int), any),
                forall|j: int| 0 <= j < links@.len() ==> !live(#[trigger] links@[j]),
                live == live_named(self.keys(), key_type@, description@),
                any == named(self.keys(), key_type@, description@),
                first_link(links@, live) is None,
                self.keys().contains_key(keyring),
                self.keys()[keyring].is_keyring,
                !self.keys()[keyring].revoked,
                !key_expired(self.keys()[keyring], now_sec),
                links@ == self.keys()[keyring].links,
            decreases links.len() - i,
        {
            let s = links[i];
            let matches = match self.entries.get(&s) {
                Some(e) => bytes_equal(e.key_type.as_slice(), key_type) && bytes_equal(
                    e.description.as_slice(),
                    description,
                ),
                None => false,
            };
            if matches {
                assert(any(s));
                assert(!live(links@[i as int]));
                assert(links@.skip(i as int)[0] == links@[i as int]);
                let e = match self.entries.get(&s) {
                    Some(e) => e,
                    None => return Err(SyscallError::NoKey),
                };
                if e.revoked {
                    return Err(SyscallError::KeyRevoked);
                }
                if e.expires_at_sec != 0 && now_sec >= e.expires_at_sec {
                    return Err(SyscallError::KeyExpired);
                }
                if e.invalidated {
                    return Err(SyscallError::NoKey);
                }
                if e.negative {
                    return Err(SyscallError::NoKey);
                }
            }
            proof {
                lemma_first_link_step(links@, any, i as int);
            }
            i += 1;
        }
        proof {
            lemma_first_link(links@, any);
        }
        Err(SyscallError::NoKey)
    }

    /// Replaces the payload of a plain key. A `user` key re-charges its owner's quota for the
    /// new size (and takes back the old charge where the new one does not fit).
    pub fn update_key_payload(&mut self, serial: i32, next_payload: Vec<u8>) -> (r: Result<
        (),
        SyscallError,
    >)
        requires
            old(self).wf(),
        ensures
            final(self).wf(),
            ({
                let m = old(self).keys();
                let q = old(self).quotas@;
                let cur = m[serial];
                let plen = next_payload@.len() as usize;
                let is_user = cur.key_type == user_key_type();
                let released = quotas_after_release(q, cur.uid, cur.quota_bytes);
                let charge = payload_charge(cur.description.len() as usize, plen);
                let fits = quota_fits(released, old(self).limits, cur.uid, charge);
                &&& r == if !m.contains_key(serial) {
                    Err::<(), SyscallError>(SyscallError::NoKey)
                } else if cur.revoked {
                    Err(SyscallError::KeyRevoked)
                } else if cur.is_keyring {
                    Err(SyscallError::InvalidArguments)
                } else if is_user && plen > KEY_USER_MAX_PAYLOAD {
                    Err(SyscallError::InvalidArguments)
                } else if is_user && !fits {
                    Err(SyscallError::QuotaExceeded)
                } else {
                    Ok(())
                }
                &&& final(self).keys() == if r is Ok {
                    m.insert(
                        serial,
                        KeyView { quota_bytes: charge, payload: next_payload@, ..cur },
                    )
                } else {
                    m
                }
                &&& final(self).quotas@ == if m.contains_key(serial) && !cur.revoked
                    && !cur.is_keyring && is_user && plen <= KEY_USER_MAX_PAYLOAD {
                    if fits {
                        quotas_after_reserve(released, old(self).limits, cur.uid, charge)
                    } else {
                        quotas_after_reserve(
                            released,
                            old(self).limits,
                            cur.uid,
                            payload_charge(
                                cur.description.len() as usize,
                                cur.payload.len() as usize,
                            ),
                        )
                    }
                } else {
                    q
                }
            }),
            final(self).limits == old(self).limits,
    {
        let plen = next_payload.len();
        let current = match self.entries.get(&serial) {
            None => return Err(SyscallError::NoKey),
            Some(e) => e.duplicate(),
        };
        if current.revoked {
            return Err(SyscallError::KeyRevoked);
        }
        if current.is_keyring {
            return Err(SyscallError::InvalidArguments);
        }
        let user: [u8; 4] = [0x75, 0x73, 0x65, 0x72];
        assert(user@ =~= user_key_type());
        if bytes_equal(current.key_type.as_slice(), &user) {
            if plen > KEY_USER_MAX_PAYLOAD {
                return Err(SyscallError::InvalidArguments);
            }
            self.release_key_quota(&current);
            match self.reserve_user_key_quota(current.uid, current.description.as_slice(), plen) {
                Ok(()) => {},
                Err(err) => {
                    let _ = self.reserve_user_key_quota(
                        current.uid,
                        current.description.as_slice(),
                        current.payload.len(),
                    );
                    return Err(err);
                },
            }
        }
        let mut e = self.take_entry_or_empty(serial);
        e.quota_bytes = key_user_payload_bytes(e.description.as_slice(), plen);
        e.payload = next_payload;
        self.put_entry(serial, e);
        Ok(())
    }
}


/// `n + 1`, wrapping from `i32::MAX` to `i32::MIN`.
pub open spec fn wrapping_next(n: i32) -> i32 {
    if n == i32::MAX {
        i32::MIN
    } else {
        (n + 1) as i32
    }
}

/// The counters that hand out keyring ids and key serials.
#[derive(Clone, Copy, Debug, PartialEq, Eq, Structural)]
pub struct KeySerials {
    pub next_keyring_id: i32,
    pub next_key_serial: i32,
}

impl KeySerials {
    pub fn new() -> (r: KeySerials)
        ensures
            r == (KeySerials { next_keyring_id: FIRST_KEYRING_ID, next_key_serial: FIRST_KEY_SERIAL }),
    {
        KeySerials { next_keyring_id: FIRST_KEYRING_ID, next_key_serial: FIRST_KEY_SERIAL }
    }

    /// Hands out the next keyring id.
    pub fn next_keyring_id(&mut self) -> (r: i32)
        ensures
            r == old(self).next_keyring_id,
            *final(self) == (KeySerials {
                next_keyring_id: wrapping_next(old(self).next_keyring_id),
                ..*old(self)
            }),
    {
        let r = self.next_keyring_id;
        self.next_keyring_id = if r == i32::MAX {
            i32::MIN
        } else {
            r + 1
        };
        r
    }

    /// Hands out the next key serial.
    pub fn next_key_serial(&mut self) -> (r: i32)
        ensures
            r == old(self).next_key_serial,
            *final(self) == (KeySerials {
                next_key_serial: wrapping_next(old(self).next_key_serial),
                ..*old(self)
            }),
    {
        let r = self.next_key_serial;
        self.next_key_serial = if r == i32::MAX {
            i32::MIN
        } else {
            r + 1
        };
        r
    }
}

/// The two per-user keyrings.
#[derive(Clone, Copy, Debug, PartialEq, Eq, Structural)]
pub enum UserKeyringKind {
    User,
    UserSession,
}

/// The number under which a user keyring kind is filed.
pub open spec fn kind_index(kind: UserKeyringKind) -> u8 {
    match kind {
        UserKeyringKind::User => 0,
        UserKeyringKind::UserSession => 1,
    }
}

/// The description of a user keyring: `_uid.<uid>` or `_uid_ses.<uid>`.
pub open spec fn user_keyring_description(kind: UserKeyringKind, uid: u32) -> Seq<u8> {
    let prefix = match kind {
        UserKeyringKind::User => seq![0x5fu8, 0x75u8, 0x69u8, 0x64u8, 0x2eu8],
        UserKeyringKind::UserSession => seq![
            0x5fu8,
            0x75u8,
            0x69u8,
            0x64u8,
            0x5fu8,
            0x73u8,
            0x65u8,
            0x73u8,
            0x2eu8,
        ],
    };
    prefix + decimal(uid as nat)
}

/// The keyrings a process holds (zero: none yet) and the owner its new keys get.
#[derive(Clone, Copy, Debug, PartialEq, Eq, Structural)]
pub struct ProcessKeyrings {
    pub thread_keyring: i32,
    pub process_keyring: i32,
    pub session_keyring: i32,
    pub effective_uid: u32,
    pub effective_gid: u32,
}

/// Every piece of key state of the system: the registry, the counters and the user keyrings
/// by `(uid, kind)`.
pub struct KeyringState {
    pub registry: KeyRegistry,
    pub serials: KeySerials,
    pub user_keyrings: BTreeMap<(u32, u8), i32>,
}

impl KeyringState {
    pub open spec fn wf(&self) -> bool {
        self.registry.wf()
    }

    pub fn new() -> (r: KeyringState)
        ensures
            r.wf(),
            r.registry.keys() == Map::<i32, KeyView>::empty(),
            r.registry.quotas@ == Map::<u32, KeyUserQuota>::empty(),
            r.serials == (KeySerials { next_keyring_id: FIRST_KEYRING_ID, next_key_serial: FIRST_KEY_SERIAL }),
            r.user_keyrings@ == Map::<(u32, u8), i32>::empty(),
    {
        KeyringState {
            registry: KeyRegistry::new(),
            serials: KeySerials::new(),
            user_keyrings: BTreeMap::new(),
        }
    }
}

/// What looking up a process keyring slot does: an existing keyring is returned; an empty
/// slot is `NoData` unless `create`, which files a fresh keyring owned by `uid`/`gid` there.
pub open spec fn slot_keyring_post(
    old_slot: i32,
    new_slot: i32,
    old_ids: KeySerials,
    new_ids: KeySerials,
    old_keys: Map<i32, KeyView>,
    new_keys: Map<i32, KeyView>,
    uid: u32,
    gid: u32,
    create: bool,
    r: Result<i32, SyscallError>,
) -> bool {
    if old_slot != 0 || !create {
        &&& r == if old_slot != 0 {
            Ok::<i32, SyscallError>(old_slot)
        } else {
            Err(SyscallError::NoData)
        }
        &&& new_slot == old_slot
        &&& new_ids == old_ids
        &&& new_keys == old_keys
    } else {
        let serial = old_ids.next_keyring_id;
        &&& r == Ok::<i32, SyscallError>(serial)
        &&& new_slot == serial
        &&& new_ids == KeySerials { next_keyring_id: wrapping_next(serial), ..old_ids }
        &&& new_keys == old_keys.insert(
            serial,
            ensured_keyring(key_or_empty(old_keys, serial), Seq::empty(), uid, gid),
        )
    }
}

/// What looking up a user keyring does: the one filed for `(uid, kind)` is returned; where
/// none is, `NoData` unless `create`, which files a fresh keyring described after the user.
pub open spec fn user_keyring_post(
    old_users: Map<(u32, u8), i32>,
    new_users: Map<(u32, u8), i32>,
    old_ids: KeySerials,
    new_ids: KeySerials,
    old_keys: Map<i32, KeyView>,
    new_keys: Map<i32, KeyView>,
    uid: u32,
    gid: u32,
    kind: UserKeyringKind,
    create: bool,
    r: Result<i32, SyscallError>,
) -> bool {
    let k = (uid, kind_index(kind));
    if old_users.contains_key(k) || !create {
        &&& r == if old_users.contains_key(k) {
            Ok::<i32, SyscallError>(old_users[k])
        } else {
            Err(SyscallError::NoData)
        }
        &&& new_users == old_users
        &&& new_ids == old_ids
        &&& new_keys == old_keys
    } else {
        let serial = old_ids.next_keyring_id;
        &&& r == Ok::<i32, SyscallError>(serial)
        &&& new_users == old_users.insert(k, serial)
        &&& new_ids == KeySerials { next_keyring_id: wrapping_next(serial), ..old_ids }
        &&& new_keys == old_keys.insert(
            serial,
            ensured_keyring(
                key_or_empty(old_keys, serial),
                user_keyring_description(kind, uid),
                uid,
                gid,
            ),
        )
    }
}

/// The keyring a process slot names, creating it where asked.
fn keyring_in_slot(state: &mut KeyringState, slot: &mut i32, uid: u32, gid: u32, create: bool) -> (r:
    Result<i32, SyscallError>)
    ensures
        slot_keyring_post(
            *old(slot),
            *final(slot),
            old(state).serials,
            final(state).serials,
            old(state).registry.keys(),
            final(state).registry.keys(),
            uid,
            gid,
            create,
            r,
        ),
        final(state).registry.quotas@ == old(state).registry.quotas@,
        final(state).registry.limits == old(state).registry.limits,
        final(state).user_keyrings@ == old(state).user_keyrings@,
{
    if *slot != 0 {
        return Ok(*slot);
    }
    if !create {
        return Err(SyscallError::NoData);
    }
    let serial = state.serials.next_keyring_id();
    *slot = serial;
    let empty: [u8; 0] = [];
    assert(empty@ =~= Seq::<u8>::empty());
    state.registry.ensure_keyring_entry_with_owner(serial, &empty, uid, gid);
    Ok(serial)
}

/// The calling thread's keyring.
pub fn current_thread_keyring(state: &mut KeyringState, process: &mut ProcessKeyrings, create: bool) -> (r:
    Result<i32, SyscallError>)
    ensures
        slot_keyring_post(
            old(process).thread_keyring,
            final(process).thread_keyring,
            old(state).serials,
            final(state).serials,
            old(state).registry.keys(),
            final(state).registry.keys(),
            old(process).effective_uid,
            old(process).effective_gid,
            create,
            r,
        ),
        *final(process) == (ProcessKeyrings { thread_keyring: final(process).thread_keyring, ..*old(process) }),
        final(state).registry.quotas@ == old(state).registry.quotas@,
        final(state).registry.limits == old(state).registry.limits,
        final(state).user_keyrings@ == old(state).user_keyrings@,
{
    let uid = process.effective_uid;
    let gid = process.effective_gid;
    keyring_in_slot(state, &mut process.thread_keyring, uid, gid, create)
}

/// The calling process's keyring.
pub fn current_process_keyring(state: &mut KeyringState, process: &mut ProcessKeyrings, create: bool) -> (r:
    Result<i32, SyscallError>)
    ensures
        slot_keyring_post(
            old(process).process_keyring,
            final(process).process_keyring,
            old(state).serials,
            final(state).serials,
            old(state).registry.keys(),
            final(state).registry.keys(),
            old(process).effective_uid,
            old(process).effective_gid,
            create,
            r,
        ),
        *final(process) == (ProcessKeyrings { process_keyring: final(process).process_keyring, ..*old(process) }),
        final(state).registry.quotas@ == old(state).registry.quotas@,
        final(state).registry.limits == old(state).registry.limits,
        final(state).user_keyrings@ == old(state).user_keyrings@,
{
    let uid = process.effective_uid;
    let gid = process.effective_gid;
    keyring_in_slot(state, &mut process.process_keyring, uid, gid, create)
}

/// The calling process's session keyring.
pub fn current_session_keyring(state: &mut KeyringState, process: &mut ProcessKeyrings, create: bool) -> (r:
    Result<i32, SyscallError>)
    ensures
        slot_keyring_post(
            old(process).session_keyring,
            final(process).session_keyring,
            old(state).serials,
            final(state).serials,
            old(state).registry.keys(),
            final(state).registry.keys(),
            old(process).effective_uid,
            old(process).effective_gid,
            create,
            r,
        ),
        *final(process) == (ProcessKeyrings { session_keyring: final(process).session_keyring, ..*old(process) }),
        final(state).registry.quotas@ == old(state).registry.quotas@,
        final(state).registry.limits == old(state).registry.limits,
        final(state).user_keyrings@ == old(state).user_keyrings@,
{
    let uid = process.effective_uid;
    let gid = process.effective_gid;
    keyring_in_slot(state, &mut process.session_keyring, uid, gid, create)
}

/// The user or user-session keyring of `uid`.
pub fn current_user_keyring(
    state: &mut KeyringState,
    uid: u32,
    gid: u32,
    kind: UserKeyringKind,
    create: bool,
) -> (r: Result<i32, SyscallError>)
    ensures
        user_keyring_post(
            old(state).user_keyrings@,
            final(state).user_keyrings@,
            old(state).serials,
            final(state).serials,
            old(state).registry.keys(),
            final(state).registry.keys(),
            uid,
            gid,
            kind,
            create,
            r,
        ),
        final(state).registry.quotas@ == old(state).registry.quotas@,
        final(state).registry.limits == old(state).registry.limits,
{
    let index: u8 = match kind {
        UserKeyringKind::User => 0,
        UserKeyringKind::UserSession => 1,
    };
    match state.user_keyrings.get(&(uid, index)) {
        Some(serial) => return Ok(*serial),
        None => {},
    }
    if !create {
        return Err(SyscallError::NoData);
    }
    let serial = state.serials.next_keyring_id();
    let mut description: Vec<u8> = match kind {
        UserKeyringKind::User => vec![0x5f, 0x75, 0x69, 0x64, 0x2e],
        UserKeyringKind::UserSession => vec![0x5f, 0x75, 0x69, 0x64, 0x5f, 0x73, 0x65, 0x73, 0x2e],
    };
    push_decimal(&mut description, uid as u64);
    assert(description@ =~= user_keyring_description(kind, uid));
    state.registry.ensure_keyring_entry_with_owner(serial, description.as_slice(), uid, gid);
    state.user_keyrings.insert((uid, index), serial);
    Ok(serial)
}


/// All key state as mathematical values.
pub struct KeyringStateView {
    pub keys: Map<i32, KeyView>,
    pub quotas: Map<u32, KeyUserQuota>,
    pub limits: KeyQuotaLimits,
    pub serials: KeySerials,
    pub users: Map<(u32, u8), i32>,
}

impl View for KeyringState {
    type V = KeyringStateView;

    open spec fn view(&self) -> KeyringStateView {
        KeyringStateView {
            keys: self.registry.keys(),
            quotas: self.registry.quotas@,
            limits: self.registry.limits,
            serials: self.serials,
            users: self.user_keyrings@,
        }
    }
}

/// Whether `spec` is one of the special keyring ids.
pub open spec fn is_special_keyring(spec: i32) -> bool {
    KEY_SPEC_USER_SESSION_KEYRING <= spec <= KEY_SPEC_THREAD_KEYRING
}

/// Whether `serial` is a keyring that was not revoked.
pub open spec fn keyring_live(m: Map<i32, KeyView>, serial: i32) -> bool {
    m.contains_key(serial) && m[serial].is_keyring && !m[serial].revoked
}

/// What `resolve_keyring` does: the special ids go to the process and user keyrings (the
/// user-session keyring is always created), a positive serial names a keyring (filed with
/// the caller as owner when `create`, else it must exist), anything else is `NoKey`.
pub open spec fn resolve_keyring_post(
    s0: KeyringStateView,
    s1: KeyringStateView,
    p0: ProcessKeyrings,
    p1: ProcessKeyrings,
    spec: i32,
    create: bool,
    r: Result<i32, SyscallError>,
) -> bool {
    let uid = p0.effective_uid;
    let gid = p0.effective_gid;
    &&& s1.quotas == s0.quotas
    &&& s1.limits == s0.limits
    &&& if spec == KEY_SPEC_THREAD_KEYRING {
        &&& slot_keyring_post(p0.thread_keyring, p1.thread_keyring, s0.serials, s1.serials, s0.keys, s1.keys, uid, gid, create, r)
        &&& p1 == ProcessKeyrings { thread_keyring: p1.thread_keyring, ..p0 }
        &&& s1.users == s0.users
    } else if spec == KEY_SPEC_PROCESS_KEYRING {
        &&& slot_keyring_post(p0.process_keyring, p1.process_keyring, s0.serials, s1.serials, s0.keys, s1.keys, uid, gid, create, r)
        &&& p1 == ProcessKeyrings { process_keyring: p1.process_keyring, ..p0 }
        &&& s1.users == s0.users
    } else if spec == KEY_SPEC_SESSION_KEYRING {
        &&& slot_keyring_post(p0.session_keyring, p1.session_keyring, s0.serials, s1.serials, s0.keys, s1.keys, uid, gid, create, r)
        &&& p1 == ProcessKeyrings { session_keyring: p1.session_keyring, ..p0 }
        &&& s1.users == s0.users
    } else if spec == KEY_SPEC_USER_KEYRING {
        &&& user_keyring_post(s0.users, s1.users, s0.serials, s1.serials, s0.keys, s1.keys, uid, gid, UserKeyringKind::User, create, r)
        &&& p1 == p0
    } else if spec == KEY_SPEC_USER_SESSION_KEYRING {
        &&& user_keyring_post(s0.users, s1.users, s0.serials, s1.serials, s0.keys, s1.keys, uid, gid, UserKeyringKind::UserSession, true, r)
        &&& p1 == p0
    } else if spec > 0 {
        &&& p1 == p0
        &&& s1.users == s0.users
        &&& s1.serials == s0.serials
        &&& r == if create || keyring_live(s0.keys, spec) {
            Ok::<i32, SyscallError>(spec)
        } else {
            Err(SyscallError::NoKey)
        }
        &&& s1.keys == if create {
            s0.keys.insert(spec, ensured_keyring(key_or_empty(s0.keys, spec), Seq::empty(), uid, gid))
        } else {
            s0.keys
        }
    } else {
        &&& r == Err::<i32, SyscallError>(SyscallError::NoKey)
        &&& s1 == s0
        &&& p1 == p0
    }
}

/// The keyring a `keyctl` or `add_key` keyring argument names.
pub fn resolve_keyring(state: &mut KeyringState, process: &mut ProcessKeyrings, spec: i32, create: bool) -> (r:
    Result<i32, SyscallError>)
    ensures
        resolve_keyring_post(old(state)@, final(state)@, *old(process), *final(process), spec, create, r),
{
    if spec == KEY_SPEC_THREAD_KEYRING {
        current_thread_keyring(state, process, create)
    } else if spec == KEY_SPEC_PROCESS_KEYRING {
        current_process_keyring(state, process, create)
    } else if spec == KEY_SPEC_SESSION_KEYRING {
        current_session_keyring(state, process, create)
    } else if spec == KEY_SPEC_USER_KEYRING {
        current_user_keyring(state, process.effective_uid, process.effective_gid, UserKeyringKind::User, create)
    } else if spec == KEY_SPEC_USER_SESSION_KEYRING {
        current_user_keyring(
            state,
            process.effective_uid,
            process.effective_gid,
            UserKeyringKind::UserSession,
            true,
        )
    } else if spec > 0 {
        if create {
            let empty: [u8; 0] = [];
            assert(empty@ =~= Seq::<u8>::empty());
            state.registry.ensure_keyring_entry_with_owner(
                spec,
                &empty,
                process.effective_uid,
                process.effective_gid,
            );
            Ok(spec)
        } else if state.registry.keyring_exists(spec) {
            Ok(spec)
        } else {
            Err(SyscallError::NoKey)
        }
    } else {
        Err(SyscallError::NoKey)
    }
}

/// The key a `keyctl` key argument names: special ids are resolved (and created), a
/// positive serial is taken as it is.
pub fn resolve_key_serial(state: &mut KeyringState, process: &mut ProcessKeyrings, spec: i32) -> (r:
    Result<i32, SyscallError>)
    ensures
        is_special_keyring(spec) ==> resolve_keyring_post(old(state)@, final(state)@, *old(process), *final(process), spec, true, r),
        !is_special_keyring(spec) ==> {
            &&& r == if spec > 0 {
                Ok::<i32, SyscallError>(spec)
            } else {
                Err(SyscallError::NoKey)
            }
            &&& final(state)@ == old(state)@
            &&& *final(process) == *old(process)
        },
{
    if KEY_SPEC_USER_SESSION_KEYRING <= spec && spec <= KEY_SPEC_THREAD_KEYRING {
        resolve_keyring(state, process, spec, true)
    } else if spec > 0 {
        Ok(spec)
    } else {
        Err(SyscallError::NoKey)
    }
}

/// A keyring that must already exist: special ids are looked up without creating, a
/// positive serial must name a keyring.
pub fn resolve_existing_keyring(state: &mut KeyringState, process: &mut ProcessKeyrings, spec: i32) -> (r:
    Result<i32, SyscallError>)
    ensures
        is_special_keyring(spec) ==> resolve_keyring_post(old(state)@, final(state)@, *old(process), *final(process), spec, false, r),
        !is_special_keyring(spec) ==> {
            &&& r == if spec <= 0 || !old(state)@.keys.contains_key(spec) {
                Err::<i32, SyscallError>(SyscallError::NoKey)
            } else if old(state)@.keys[spec].is_keyring {
                Ok(spec)
            } else {
                Err(SyscallError::InvalidArguments)
            }
            &&& final(state)@ == old(state)@
            &&& *final(process) == *old(process)
        },
{
    if KEY_SPEC_USER_SESSION_KEYRING <= spec && spec <= KEY_SPEC_THREAD_KEYRING {
        resolve_keyring(state, process, spec, false)
    } else if spec > 0 {
        match state.registry.entries.get(&spec) {
            None => Err(SyscallError::NoKey),
            Some(e) => if e.is_keyring {
                Ok(spec)
            } else {
                Err(SyscallError::InvalidArguments)
            },
        }
    } else {
        Err(SyscallError::NoKey)
    }
}

/// A `keyctl` key argument, taken as a 32-bit id.
pub fn keyctl_key_serial(state: &mut KeyringState, process: &mut ProcessKeyrings, spec: u64) -> (r:
    Result<i32, SyscallError>)
    ensures
        is_special_keyring(spec as i32) ==> resolve_keyring_post(old(state)@, final(state)@, *old(process), *final(process), spec as i32, true, r),
        !is_special_keyring(spec as i32) ==> {
            &&& r == if spec as i32 > 0 {
                Ok::<i32, SyscallError>(spec as i32)
            } else {
                Err(SyscallError::NoKey)
            }
            &&& final(state)@ == old(state)@
            &&& *final(process) == *old(process)
        },
{
    resolve_key_serial(state, process, spec as i32)
}

/// A `keyctl` keyring argument: created where `create`, else it must exist.
pub fn keyctl_keyring_serial(
    state: &mut KeyringState,
    process: &mut ProcessKeyrings,
    spec: u64,
    create: bool,
) -> (r: Result<i32, SyscallError>)
    ensures
        create ==> resolve_keyring_post(old(state)@, final(state)@, *old(process), *final(process), spec as i32, true, r),
        !create && is_special_keyring(spec as i32) ==> resolve_keyring_post(old(state)@, final(state)@, *old(process), *final(process), spec as i32, false, r),
        !create && !is_special_keyring(spec as i32) ==> {
            &&& r == if spec as i32 <= 0 || !old(state)@.keys.contains_key(spec as i32) {
                Err::<i32, SyscallError>(SyscallError::NoKey)
            } else if old(state)@.keys[spec as i32].is_keyring {
                Ok(spec as i32)
            } else {
                Err(SyscallError::InvalidArguments)
            }
            &&& final(state)@ == old(state)@
            &&& *final(process) == *old(process)
        },
{
    if create {
        resolve_keyring(state, process, spec as i32, true)
    } else {
        resolve_existing_keyring(state, process, spec as i32)
    }
}

/// The key an unlink or move takes: special ids are looked up without creating, a positive
/// serial is taken as it is.
pub fn keyctl_unlink_target(state: &mut KeyringState, process: &mut ProcessKeyrings, spec: u64) -> (r:
    Result<i32, SyscallError>)
    ensures
        is_special_keyring(spec as i32) ==> resolve_keyring_post(old(state)@, final(state)@, *old(process), *final(process), spec as i32, false, r),
        !is_special_keyring(spec as i32) ==> {
            &&& r == if spec as i32 > 0 {
                Ok::<i32, SyscallError>(spec as i32)
            } else {
                Err(SyscallError::NoKey)
            }
            &&& final(state)@ == old(state)@
            &&& *final(process) == *old(process)
        },
{
    let serial = spec as i32;
    if KEY_SPEC_USER_SESSION_KEYRING <= serial && serial <= KEY_SPEC_THREAD_KEYRING {
        resolve_keyring(state, process, serial, false)
    } else if serial > 0 {
        Ok(serial)
    } else {
        Err(SyscallError::NoKey)
    }
}


/// What `KEYCTL_DESCRIBE` shows of a key: `type;uid;gid;perm;description`, the
/// permissions as eight hexadecimal digits.
pub open spec fn describe_text(e: KeyView) -> Seq<u8> {
    e.key_type + seq![0x3bu8] + decimal(e.uid as nat) + seq![0x3bu8] + decimal(e.gid as nat)
        + seq![0x3bu8] + hex8(e.permissions) + seq![0x3bu8] + e.description
}

/// The four bytes of `x`, least significant first.
pub open spec fn le_bytes(x: i32) -> Seq<u8> {
    let u = x as u32;
    seq![(u & 0xff) as u8, ((u >> 8) & 0xff) as u8, ((u >> 16) & 0xff) as u8, ((u >> 24) & 0xff) as u8]
}

/// The serials of a keyring as bytes, four per serial, in link order.
pub open spec fn serials_bytes(links: Seq<i32>) -> Seq<u8>
    decreases links.len(),
{
    if links.len() == 0 {
        Seq::empty()
    } else {
        serials_bytes(links.drop_last()) + le_bytes(links.last())
    }
}

/// What `KEYCTL_READ` gives of a key: a keyring's serials, or a key's payload.
pub open spec fn read_text(e: KeyView) -> Seq<u8> {
    if e.is_keyring {
        serials_bytes(e.links)
    } else {
        e.payload
    }
}

/// The serials of a keyring as bytes, four per serial, in link order.
pub fn serial_list_bytes(links: &[i32]) -> (r: Vec<u8>)
    ensures
        r@ == serials_bytes(links@),
{
    let mut out: Vec<u8> = Vec::new();
    let mut i: usize = 0;
    while i < links.len()
        invariant
            i <= links.len(),
            out@ == serials_bytes(links@.take(i as int)),
        decreases links.len() - i,
    {
        let u = links[i] as u32;
        out.push((u & 0xff) as u8);
        out.push(((u >> 8) & 0xff) as u8);
        out.push(((u >> 16) & 0xff) as u8);
        out.push(((u >> 24) & 0xff) as u8);
        assert(links@.take(i + 1).drop_last() =~= links@.take(i as int));
        i += 1;
        assert(out@ =~= serials_bytes(links@.take(i as int)));
    }
    assert(links@.take(links@.len() as int) =~= links@);
    out
}

impl KeyRegistry {
    /// `KEYCTL_DESCRIBE` of a live key.
    pub fn describe_key(&self, serial: i32, now_sec: u64) -> (r: Result<Vec<u8>, SyscallError>)
        ensures
            match live_key_check(self.keys(), serial, now_sec) {
                Err(err) => r == Err::<Vec<u8>, SyscallError>(err),
                Ok(()) => r is Ok && r->Ok_0@ == describe_text(self.keys()[serial]),
            },
    {
        let e = self.get_live_key(serial, now_sec)?;
        let mut out = copy_bytes(e.key_type.as_slice());
        out.push(0x3b);
        push_decimal(&mut out, e.uid as u64);
        out.push(0x3b);
        push_decimal(&mut out, e.gid as u64);
        out.push(0x3b);
        push_hex8(&mut out, e.permissions);
        out.push(0x3b);
        push_all(&mut out, e.description.as_slice());
        assert(out@ =~= describe_text(self.keys()[serial]));
        Ok(out)
    }

    /// `KEYCTL_READ` of a live key.
    pub fn read_key(&self, serial: i32, now_sec: u64) -> (r: Result<Vec<u8>, SyscallError>)
        ensures
            match live_key_check(self.keys(), serial, now_sec) {
                Err(err) => r == Err::<Vec<u8>, SyscallError>(err),
                Ok(()) => r is Ok && r->Ok_0@ == read_text(self.keys()[serial]),
            },
    {
        let e = self.get_live_key(serial, now_sec)?;
        if e.is_keyring {
            Ok(serial_list_bytes(e.links.as_slice()))
        } else {
            Ok(e.payload)
        }
    }
}

/// How much of a `keyctl` answer goes to the user buffer, and what the call returns.
#[derive(Clone, Copy, Debug, PartialEq, Eq, Structural)]
pub struct KeyctlCopy {
    pub copied: usize,
    pub returned: usize,
}

/// A `keyctl` answer of `len` bytes for a buffer of `buflen` bytes: a zero-length buffer only
/// asks for the size; otherwise the buffer must exist and gets as much as fits. The call
/// returns the full size either way.
pub fn copy_keyctl_bytes_to_user(len: usize, buffer_is_null: bool, buflen: usize) -> (r: Result<
    KeyctlCopy,
    SyscallError,
>)
    ensures
        r == if buflen == 0 {
            Ok::<KeyctlCopy, SyscallError>(KeyctlCopy { copied: 0, returned: len })
        } else if buffer_is_null {
            Err(SyscallError::BadAddress)
        } else {
            Ok(KeyctlCopy { copied: if buflen < len { buflen } else { len }, returned: len })
        },
{
    if buflen == 0 {
        return Ok(KeyctlCopy { copied: 0, returned: len });
    }
    if buffer_is_null {
        return Err(SyscallError::BadAddress);
    }
    let copied = if buflen < len {
        buflen
    } else {
        len
    };
    Ok(KeyctlCopy { copied, returned: len })
}

/// The most iovecs `KEYCTL_INSTANTIATE_IOV` takes.
pub const KEYCTL_IOV_MAX: u32 = 1024;

/// One user buffer of an iovec array.
#[derive(Clone, Copy, Debug, PartialEq, Eq, Structural)]
pub struct KeyctlIovec {
    pub iov_base: u64,
    pub iov_len: usize,
}

/// The total length of an iovec array.
pub open spec fn iov_total(iovs: Seq<KeyctlIovec>) -> nat
    decreases iovs.len(),
{
    if iovs.len() == 0 {
        0
    } else {
        iov_total(iovs.drop_last()) + iovs.last().iov_len as nat
    }
}

/// The buffers that hold bytes, in order.
pub open spec fn nonempty_iovecs(iovs: Seq<KeyctlIovec>) -> Seq<KeyctlIovec> {
    iovs.filter(|v: KeyctlIovec| v.iov_len != 0)
}

proof fn lemma_iov_total_monotone(iovs: Seq<KeyctlIovec>, i: int)
    requires
        0 <= i <= iovs.len(),
    ensures
        iov_total(iovs.take(i)) <= iov_total(iovs),
    decreases iovs.len() - i,
{
    if i < iovs.len() {
        lemma_iov_total_monotone(iovs, i + 1);
        assert(iovs.take(i + 1).drop_last() =~= iovs.take(i));
    } else {
        assert(iovs.take(i) =~= iovs);
    }
}

/// The checks on a `KEYCTL_INSTANTIATE_IOV` iovec array and the buffers whose bytes make up
/// the payload.
pub open spec fn iovec_payload_plan(
    iov_is_null: bool,
    ioc: u32,
    iovs: Result<Vec<KeyctlIovec>, SyscallError>,
) -> Result<Seq<KeyctlIovec>, SyscallError> {
    if ioc > KEYCTL_IOV_MAX {
        Err(SyscallError::InvalidArguments)
    } else if ioc > 0 && iov_is_null {
        Err(SyscallError::BadAddress)
    } else {
        match iovs {
            Err(e) => Err(e),
            Ok(v) => if iov_total(v@) > isize::MAX {
                Err(SyscallError::InvalidArguments)
            } else if iov_total(v@) == 0 {
                Ok(Seq::empty())
            } else if exists|i: int|
                0 <= i < v@.len() && (#[trigger] v@[i]).iov_len != 0 && v@[i].iov_base == 0 {
                Err(SyscallError::BadAddress)
            } else {
                Ok(nonempty_iovecs(v@))
            },
        }
    }
}

/// The user buffers that make up a `KEYCTL_INSTANTIATE_IOV` payload, given the count, whether
/// the array pointer is null and what reading the array gave: at most `KEYCTL_IOV_MAX`
/// entries, a total below `isize::MAX`, and an address for every buffer that holds bytes.
#[verifier::loop_isolation(false)]
pub fn read_keyctl_iovec_payload(
    iov_is_null: bool,
    ioc: u32,
    iovs: Result<Vec<KeyctlIovec>, SyscallError>,
) -> (r: Result<Vec<KeyctlIovec>, SyscallError>)
    ensures
        match r {
            Ok(v) => iovec_payload_plan(iov_is_null, ioc, iovs) == Ok::<Seq<KeyctlIovec>, SyscallError>(v@),
            Err(e) => iovec_payload_plan(iov_is_null, ioc, iovs) == Err::<Seq<KeyctlIovec>, SyscallError>(e),
        },
{
    if ioc > KEYCTL_IOV_MAX {
        return Err(SyscallError::InvalidArguments);
    }
    if ioc > 0 && iov_is_null {
        return Err(SyscallError::BadAddress);
    }
    let list = iovs?;
    let mut total: usize = 0;
    let mut i: usize = 0;
    while i < list.len()
        invariant
            i <= list.len(),
            total == iov_total(list@.take(i as int)),
            total <= isize::MAX,
        decreases list.len() - i,
    {
        assert(list@.take(i + 1).drop_last() =~= list@.take(i as int));
        let next = match total.checked_add(list[i].iov_len) {
            Some(n) => n,
            None => {
                proof {
                    lemma_iov_total_monotone(list@, i + 1);
                }
                return Err(SyscallError::InvalidArguments);
            },
        };
        if next > isize::MAX as usize {
            proof {
                lemma_iov_total_monotone(list@, i + 1);
            }
            return Err(SyscallError::InvalidArguments);
        }
        total = next;
        i += 1;
    }
    assert(list@.take(list@.len() as int) =~= list@);
    if total == 0 {
        return Ok(Vec::new());
    }
    let mut out: Vec<KeyctlIovec> = Vec::new();
    let mut i: usize = 0;
    while i < list.len()
        invariant
            i <= list.len(),
            out@ == list@.take(i as int).filter(|v: KeyctlIovec| v.iov_len != 0),
            forall|j: int| 0 <= j < i && (#[trigger] list@[j]).iov_len != 0 ==> list@[j].iov_base != 0,
        decreases list.len() - i,
    {
        proof {
            assert(list@.take(i + 1) =~= list@.take(i as int).push(list@[i as int]));
            list@.take(i as int).lemma_filter_push(list@[i as int], |v: KeyctlIovec| v.iov_len != 0);
        }
        if list[i].iov_len != 0 {
            if list[i].iov_base == 0 {
                return Err(SyscallError::BadAddress);
            }
            out.push(list[i]);
        }
        i += 1;
    }
    assert(list@.take(list@.len() as int) =~= list@);
    Ok(out)
}


proof fn lemma_first_link_push(links: Seq<i32>, x: i32, p: spec_fn(i32) -> bool)
    requires
        forall|i: int| 0 <= i < links.len() ==> !p(#[trigger] links[i]),
        p(x),
    ensures
        first_link(links.push(x), p) == Some(x),
    decreases links.len(),
{
    if links.len() > 0 {
        assert(links.push(x).drop_first() =~= links.drop_first().push(x));
        assert forall|i: int| 0 <= i < links.drop_first().len() implies !p(
            #[trigger] links.drop_first()[i],
        ) by {
            assert(links.drop_first()[i] == links[i + 1]);
        }
        lemma_first_link_push(links.drop_first(), x, p);
    }
}

/// A link that is filtered out of nothing comes from the unfiltered list.
proof fn lemma_filtered_link(links: Seq<i32>, serial: i32, x: i32)
    requires
        links.filter(not_serial(serial)).contains(x),
    ensures
        links.contains(x),
        x != serial,
{
    broadcast use vstd::seq_lib::group_filter_ensures;

    links.lemma_filter_contains_rev(not_serial(serial), x);
    let j = choose|j: int|
        0 <= j < links.filter(not_serial(serial)).len() && links.filter(not_serial(serial))[j] == x;
    assert(not_serial(serial)(links.filter(not_serial(serial))[j]));
}

/// Linking a key into a keyring makes the keyring hold it.
pub proof fn lemma_link_holds_source(m: Map<i32, KeyView>, source: i32, target: i32)
    requires
        link_check(m, source, target) is Ok,
    ensures
        keys_after_link(m, source, target).contains_key(target),
        keys_after_link(m, source, target)[target].links.contains(source),
        keys_after_link(m, source, target)[target].is_keyring,
        !keys_after_link(m, source, target)[target].revoked,
{
    let p = replaceable_by(m, m[source].key_type, m[source].description);
    lemma_first_link(m[target].links, p);
    let m2 = match replaced_key(m, source, target) {
        Some(o) => keys_without_link(m.remove(o), o),
        None => m,
    };
    assert(m2.contains_key(target));
    let l2 = m2[target].links;
    if !l2.contains(source) {
        assert(l2.push(source)[l2.len() as int] == source);
    }
}

/// Unlinking a key from a keyring leaves the keyring without it.
pub proof fn lemma_unlink_drops_source(e: KeyView, source: i32)
    requires
        e.is_keyring,
    ensures
        !without_link(e, source).links.contains(source),
{
    if without_link(e, source).links.contains(source) {
        lemma_filtered_link(e.links, source, source);
    }
}

/// After a key is invalidated (or a plain key revoked), the registry no longer has it and no
/// keyring links to it.
pub proof fn lemma_removed_key_forgotten(m: Map<i32, KeyView>, serial: i32)
    ensures
        !keys_without_link(m.remove(serial), serial).contains_key(serial),
        forall|k: i32| #[trigger] keys_without_link(m.remove(serial), serial).contains_key(k)
            && keys_without_link(m.remove(serial), serial)[k].is_keyring
            ==> !keys_without_link(m.remove(serial), serial)[k].links.contains(serial),
{
    assert forall|k: i32| #[trigger] keys_without_link(m.remove(serial), serial).contains_key(k)
        && keys_without_link(m.remove(serial), serial)[k].is_keyring
        implies !keys_without_link(m.remove(serial), serial)[k].links.contains(serial) by {
        lemma_unlink_drops_source(m.remove(serial)[k], serial);
    }
}

/// A reservation never takes a user past its limits.
pub proof fn lemma_reserve_within_limits(
    q: Map<u32, KeyUserQuota>,
    limits: KeyQuotaLimits,
    uid: u32,
    bytes: usize,
)
    requires
        quota_fits(q, limits, uid, bytes),
        limits.wf(),
    ensures
        quotas_after_reserve(q, limits, uid, bytes)[uid].keys <= limits.limits_for(uid).0,
        quotas_after_reserve(q, limits, uid, bytes)[uid].bytes <= limits.limits_for(uid).1,
{
}

/// Releasing a key's charge undoes reserving it: the user's quota is what it was.
pub proof fn lemma_release_undoes_reserve(
    q: Map<u32, KeyUserQuota>,
    limits: KeyQuotaLimits,
    uid: u32,
    bytes: usize,
)
    requires
        quota_fits(q, limits, uid, bytes),
        bytes > 0,
        limits.wf(),
    ensures
        quotas_after_release(quotas_after_reserve(q, limits, uid, bytes), uid, bytes) == q.insert(
            uid,
            quota_of(q, uid),
        ),
{
    assert(quotas_after_release(quotas_after_reserve(q, limits, uid, bytes), uid, bytes) =~= q.insert(
        uid,
        quota_of(q, uid),
    ));
}

/// A search that succeeds returns a usable key of the asked type and description that the
/// keyring links to.
pub proof fn lemma_search_finds_linked(
    m: Map<i32, KeyView>,
    keyring: i32,
    key_type: Seq<u8>,
    description: Seq<u8>,
    now_sec: u64,
)
    requires
        search_result(m, keyring, key_type, description, now_sec) is Ok,
    ensures
        ({
            let s = search_result(m, keyring, key_type, description, now_sec)->Ok_0;
            &&& m[keyring].links.contains(s)
            &&& m.contains_key(s)
            &&& m[s].key_type == key_type
            &&& m[s].description == description
            &&& !m[s].revoked && !m[s].invalidated && !m[s].negative
        }),
{
    lemma_first_link(m[keyring].links, live_named(m, key_type, description));
}

/// A key linked into a keyring that held no usable key of its type and description is what
/// a search of that keyring for them then finds.
pub proof fn lemma_search_after_link(m: Map<i32, KeyView>, source: i32, target: i32, now_sec: u64)
    requires
        link_check(m, source, target) is Ok,
        !m[source].invalidated && !m[source].negative,
        !key_expired(m[target], now_sec),
        first_link(m[target].links, live_named(m, m[source].key_type, m[source].description)) is None,
    ensures
        search_result(
            keys_after_link(m, source, target),
            target,
            m[source].key_type,
            m[source].description,
            now_sec,
        ) == Ok::<i32, SyscallError>(source),
{
    let ty = m[source].key_type;
    let d = m[source].description;
    let p = replaceable_by(m, ty, d);
    lemma_first_link(m[target].links, p);
    lemma_first_link(m[target].links, live_named(m, ty, d));
    let m2 = match replaced_key(m, source, target) {
        Some(o) => keys_without_link(m.remove(o), o),
        None => m,
    };
    let m3 = keys_after_link(m, source, target);
    let l1 = m[target].links;
    let l2 = m2[target].links;
    let live3 = live_named(m3, ty, d);
    // every key of m3 other than the target agrees with m on what a search looks at
    assert forall|x: i32| #[trigger] m3.contains_key(x) implies m.contains_key(x) && m3[x].key_type
        == m[x].key_type && m3[x].description == m[x].description && m3[x].revoked == m[x].revoked
        && m3[x].invalidated == m[x].invalidated && m3[x].negative == m[x].negative by {}
    // the links kept from before hold no usable match
    assert forall|i: int| 0 <= i < l2.len() implies !live3(#[trigger] l2[i]) by {
        let x = l2[i];
        assert(l2.contains(x));
        match replaced_key(m, source, target) {
            Some(o) => {
                lemma_filtered_link(l1, o, x);
            },
            None => {},
        }
        assert(l1.contains(x));
        let j = choose|j: int| 0 <= j < l1.len() && l1[j] == x;
        assert(!live_named(m, ty, d)(l1[j]));
    }
    assert(live_named(m, ty, d)(source));
    if l2.contains(source) {
        let j = choose|j: int| 0 <= j < l2.len() && l2[j] == source;
        assert(!live3(l2[j]));
        assert(live3(source));
    }
    assert(m3[target].links == l2.push(source));
    lemma_first_link_push(l2, source, live3);
}


/// One line of `/proc/key-users`: uid, usage count, keys, keys against the key limit and
/// bytes against the byte limit.
pub open spec fn key_users_line(uid: u32, q: KeyUserQuota, limits: (usize, usize)) -> Seq<u8> {
    pad_left(decimal(uid as nat), 5) + seq![0x3au8, 0x20u8] + pad_left(decimal(0), 5) + seq![0x20u8]
        + decimal(q.keys as nat) + seq![0x2fu8] + decimal(q.keys as nat) + seq![0x20u8] + decimal(
        q.keys as nat,
    ) + seq![0x2fu8] + decimal(limits.0 as nat) + seq![0x20u8] + decimal(q.bytes as nat) + seq![
        0x2fu8,
    ] + decimal(limits.1 as nat) + seq![0x0au8]
}

/// The lines of `/proc/key-users` for `uids`, in that order.
pub open spec fn key_users_text(
    uids: Seq<u32>,
    q: Map<u32, KeyUserQuota>,
    limits: KeyQuotaLimits,
) -> Seq<u8>
    decreases uids.len(),
{
    if uids.len() == 0 {
        Seq::empty()
    } else {
        key_users_text(uids.drop_last(), q, limits) + key_users_line(
            uids.last(),
            q[uids.last()],
            limits.limits_for(uids.last()),
        )
    }
}

/// The users that hold a quota, each once, in ascending order.
fn quota_users(m: &BTreeMap<u32, KeyUserQuota>) -> (r: Vec<u32>)
    ensures
        r@.to_set() == m@.dom(),
        r@.no_duplicates(),
        forall|i: int, j: int| 0 <= i < j < r@.len() ==> r@[i] < r@[j],
{
    let ghost ks = vstd::std_specs::btree::spec_keys_iter(m).remaining();
    let mut out: Vec<u32> = Vec::new();
    for k in it: m.keys()
        invariant
            it.seq() == ks,
            out@ == ks.take(it.index()).unref(),
    {
        assert(ks.take(it.index() + 1) =~= ks.take(it.index()).push(k));
        out.push(*k);
        assert(out@ =~= ks.take(it.index() + 1).unref());
    }
    assert(ks.take(ks.len() as int) =~= ks);
    proof {
        lemma_quota_users_ascending(m, out@);
    }
    out
}

/// The keys of a quota map come out in ascending order.
proof fn lemma_quota_users_ascending(m: &BTreeMap<u32, KeyUserQuota>, uids: Seq<u32>)
    requires
        uids == vstd::std_specs::btree::spec_keys_iter(m).remaining().unref(),
    ensures
        forall|i: int, j: int| 0 <= i < j < uids.len() ==> uids[i] < uids[j],
{
    let ks = vstd::std_specs::btree::spec_keys_iter(m).remaining();
    assert(ks.unref().to_set() == m@.dom());
    assert(vstd::std_specs::btree::increasing_seq(ks));
    assert(vstd::laws_cmp::obeys_cmp::<u32>());
    assert(vstd::laws_cmp::obeys_cmp::<&u32>());
    assert forall|i: int, j: int| 0 <= i < j < uids.len() implies uids[i] < uids[j] by {
        assert(OrdSpec::cmp_spec(&ks[i], &ks[j]) is Less);
    }
}

/// Appends one line of `/proc/key-users`.
fn push_key_users_line(out: &mut Vec<u8>, uid: u32, q: KeyUserQuota, limits: (usize, usize))
    ensures
        final(out)@ == old(out)@ + key_users_line(uid, q, limits),
{
    let uid_digits = decimal_bytes(uid as u64);
    push_padded(out, uid_digits.as_slice(), 5);
    out.push(0x3a);
    out.push(0x20);
    let zero = decimal_bytes(0);
    push_padded(out, zero.as_slice(), 5);
    out.push(0x20);
    push_decimal(out, q.keys as u64);
    out.push(0x2f);
    push_decimal(out, q.keys as u64);
    out.push(0x20);
    push_decimal(out, q.keys as u64);
    out.push(0x2f);
    push_decimal(out, limits.0 as u64);
    out.push(0x20);
    push_decimal(out, q.bytes as u64);
    out.push(0x2f);
    push_decimal(out, limits.1 as u64);
    out.push(0x0a);
    assert(final(out)@ =~= old(out)@ + key_users_line(uid, q, limits));
}

impl KeyRegistry {
    /// The text of `/proc/key-users`: one line per user with a quota, by ascending uid.
    pub fn proc_key_users_bytes(&self) -> (r: Vec<u8>)
        ensures
            exists|uids: Seq<u32>|
                {
                    &&& uids.to_set() == self.quotas@.dom()
                    &&& uids.no_duplicates()
                    &&& forall|i: int, j: int| 0 <= i < j < uids.len() ==> uids[i] < uids[j]
                    &&& r@ == key_users_text(uids, self.quotas@, self.limits)
                },
    {
        let uids = quota_users(&self.quotas);
        let mut out: Vec<u8> = Vec::new();
        let mut i: usize = 0;
        while i < uids.len()
            invariant
                i <= uids.len(),
                uids@.to_set() == self.quotas@.dom(),
                out@ == key_users_text(uids@.take(i as int), self.quotas@, self.limits),
            decreases uids.len() - i,
        {
            let uid = uids[i];
            assert(uids@.to_set().contains(uid));
            let q = match self.quotas.get(&uid) {
                Some(q) => *q,
                None => KeyUserQuota { keys: 0, bytes: 0 },
            };
            let limits = self.limits.limits(uid);
            push_key_users_line(&mut out, uid, q, limits);
            assert(uids@.take(i + 1).drop_last() =~= uids@.take(i as int));
            i += 1;
            assert(out@ =~= key_users_text(uids@.take(i as int), self.quotas@, self.limits));
        }
        assert(uids@.take(uids@.len() as int) =~= uids@);
        out
    }
}


impl ProcessKeyrings {
    /// The owner that keys the process creates get.
    pub fn current_key_owner(&self) -> (r: (u32, u32))
        ensures
            r == (self.effective_uid, self.effective_gid),
    {
        (self.effective_uid, self.effective_gid)
    }
}

/// Makes `serial` a keyring owned by the calling process's effective ids.
pub fn ensure_keyring_entry(
    registry: &mut KeyRegistry,
    process: &ProcessKeyrings,
    serial: i32,
    description: &[u8],
)
    ensures
        final(registry).keys() == old(registry).keys().insert(
            serial,
            ensured_keyring(
                key_or_empty(old(registry).keys(), serial),
                description@,
                process.effective_uid,
                process.effective_gid,
            ),
        ),
        final(registry).quotas@ == old(registry).quotas@,
        final(registry).limits == old(registry).limits,
{
    let (uid, gid) = process.current_key_owner();
    registry.ensure_keyring_entry_with_owner(serial, description, uid, gid);
}

} // verus!
