use crate::bytes::copy_bytes;
use vstd::prelude::*;
use vstd::string::*;

verus! {

/// A client-chosen 128-bit session identifier.
pub type SessionId = u128;

/// Length in bytes of every final session key and of an X25519 shared secret.
pub const KEY_LEN: usize = 32;

/// Key material held for one session. The keys are plain byte vectors: they
/// are not overwritten when a session is dropped.
#[derive(Debug)]
pub enum KeyMaterial {
    /// Final AEAD key of a P-256 session.
    LegacyP256(Vec<u8>),
    /// First half of a hybrid session, waiting for the client's KEM ciphertext.
    PqxdhPending { x25519_shared: Vec<u8>, kyber_secret: Vec<u8> },
    /// Final AEAD key of a hybrid session.
    PqxdhComplete(Vec<u8>),
}

/// Mathematical value of a [`KeyMaterial`].
pub enum MaterialView {
    LegacyP256(Seq<u8>),
    PqxdhPending { x25519_shared: Seq<u8>, kyber_secret: Seq<u8> },
    PqxdhComplete(Seq<u8>),
}

impl MaterialView {
    /// Final keys and X25519 secrets are exactly 32 bytes long.
    pub open spec fn wf(self) -> bool {
        match self {
            MaterialView::LegacyP256(k) => k.len() == KEY_LEN,
            MaterialView::PqxdhPending { x25519_shared, .. } => x25519_shared.len() == KEY_LEN,
            MaterialView::PqxdhComplete(k) => k.len() == KEY_LEN,
        }
    }

    /// A session is complete once it holds a final key.
    pub open spec fn is_complete(self) -> bool {
        !(self is PqxdhPending)
    }

    /// The final key of a complete session.
    pub open spec fn session_key(self) -> Option<Seq<u8>> {
        match self {
            MaterialView::LegacyP256(k) => Some(k),
            MaterialView::PqxdhPending { .. } => None,
            MaterialView::PqxdhComplete(k) => Some(k),
        }
    }
}

impl View for KeyMaterial {
    type V = MaterialView;

    open spec fn view(&self) -> MaterialView {
        match self {
            KeyMaterial::LegacyP256(k) => MaterialView::LegacyP256(k@),
            KeyMaterial::PqxdhPending { x25519_shared, kyber_secret } => MaterialView::PqxdhPending {
                x25519_shared: x25519_shared@,
                kyber_secret: kyber_secret@,
            },
            KeyMaterial::PqxdhComplete(k) => MaterialView::PqxdhComplete(k@),
        }
    }
}

impl KeyMaterial {
    pub open spec fn wf(&self) -> bool {
        self@.wf()
    }

    /// Whether the material has the lengths that the store asks for.
    pub fn is_well_formed(&self) -> (b: bool)
        ensures
            b == self.wf(),
    {
        match self {
            KeyMaterial::LegacyP256(k) => k.len() == KEY_LEN,
            KeyMaterial::PqxdhPending { x25519_shared, .. } => x25519_shared.len() == KEY_LEN,
            KeyMaterial::PqxdhComplete(k) => k.len() == KEY_LEN,
        }
    }

    /// A copy with the same value.
    pub fn duplicate(&self) -> (r: KeyMaterial)
        ensures
            r@ == self@,
    {
        match self {
            KeyMaterial::LegacyP256(k) => KeyMaterial::LegacyP256(copy_bytes(k)),
            KeyMaterial::PqxdhPending { x25519_shared, kyber_secret } => KeyMaterial::PqxdhPending {
                x25519_shared: copy_bytes(x25519_shared),
                kyber_secret: copy_bytes(kyber_secret),
            },
            KeyMaterial::PqxdhComplete(k) => KeyMaterial::PqxdhComplete(copy_bytes(k)),
        }
    }

    /// A complete session has a final key; a pending one has none.
    pub fn is_complete(&self) -> (b: bool)
        ensures
            b == self@.is_complete(),
    {
        match self {
            KeyMaterial::PqxdhPending { .. } => false,
            _ => true,
        }
    }
}

/// One stored session as a mathematical value.
pub struct SessionView {
    pub id: SessionId,
    pub material: MaterialView,
}

/// The store as a mathematical value: its capacity, and its sessions from the
/// least recently used (index 0) to the most recently used (last).
pub struct StoreView {
    pub capacity: nat,
    pub sessions: Seq<SessionView>,
}

impl StoreView {
    /// No identifier occurs twice, the capacity is respected, every material is well formed.
    pub open spec fn wf(self) -> bool {
        &&& self.sessions.len() <= self.capacity
        &&& forall|i: int, j: int|
            0 <= i < self.sessions.len() && 0 <= j < self.sessions.len()
                && self.sessions[i].id == self.sessions[j].id ==> i == j
        &&& forall|i: int| 0 <= i < self.sessions.len() ==> (#[trigger] self.sessions[i]).material.wf()
    }

    /// Whether a session is stored under `id`.
    pub open spec fn holds(self, id: SessionId) -> bool {
        exists|i: int| 0 <= i < self.sessions.len() && self.sessions[i].id == id
    }

    /// The place of the session stored under `id`.
    pub open spec fn slot(self, id: SessionId) -> int {
        choose|i: int| 0 <= i < self.sessions.len() && self.sessions[i].id == id
    }

    /// The material stored under `id`.
    pub open spec fn material(self, id: SessionId) -> MaterialView
        recommends
            self.holds(id),
    {
        self.sessions[self.slot(id)].material
    }

    /// The material stored under `id`, if any.
    pub open spec fn lookup(self, id: SessionId) -> Option<MaterialView> {
        if self.holds(id) {
            Some(self.material(id))
        } else {
            None
        }
    }

    /// How many sessions are stored under `id`.
    pub open spec fn occurrences(self, id: SessionId) -> nat
        decreases self.sessions.len(),
    {
        if self.sessions.len() == 0 {
            0
        } else {
            let rest = StoreView { capacity: self.capacity, sessions: self.sessions.drop_last() };
            rest.occurrences(id) + if self.sessions.last().id == id {
                1nat
            } else {
                0nat
            }
        }
    }

    /// The store after a successful operation matched `id`: that session becomes
    /// the most recently used; nothing changes when `id` is absent.
    pub open spec fn touched(self, id: SessionId) -> StoreView {
        if self.holds(id) {
            StoreView {
                capacity: self.capacity,
                sessions: self.sessions.remove(self.slot(id)).push(self.sessions[self.slot(id)]),
            }
        } else {
            self
        }
    }

    /// The store without the session under `id`.
    pub open spec fn without(self, id: SessionId) -> StoreView {
        if self.holds(id) {
            StoreView { capacity: self.capacity, sessions: self.sessions.remove(self.slot(id)) }
        } else {
            self
        }
    }

    /// The store after `id` (absent before) is inserted as most recently used:
    /// when that exceeds the capacity, the least recently used session leaves.
    pub open spec fn with_new(self, id: SessionId, material: MaterialView) -> StoreView {
        let grown = self.sessions.push(SessionView { id, material });
        StoreView {
            capacity: self.capacity,
            sessions: if grown.len() > self.capacity {
                grown.drop_first()
            } else {
                grown
            },
        }
    }

    /// The store after the material under `id` is replaced and the session touched;
    /// nothing changes when `id` is absent.
    pub open spec fn replaced(self, id: SessionId, material: MaterialView) -> StoreView {
        if self.holds(id) {
            StoreView {
                capacity: self.capacity,
                sessions: self.sessions.remove(self.slot(id)).push(SessionView { id, material }),
            }
        } else {
            self
        }
    }
}

/// One stored session.
struct Session {
    id: SessionId,
    material: KeyMaterial,
}

impl View for Session {
    type V = SessionView;

    closed spec fn view(&self) -> SessionView {
        SessionView { id: self.id, material: self.material@ }
    }
}

/// Bounded map from session identifier to key material with
/// least-recently-used eviction.
pub struct LruStore {
    capacity: usize,
    entries: Vec<Session>,
}

impl View for LruStore {
    type V = StoreView;

    closed spec fn view(&self) -> StoreView {
        StoreView {
            capacity: self.capacity as nat,
            sessions: Seq::new(self.entries@.len(), |i: int| self.entries@[i]@),
        }
    }
}

impl LruStore {
    /// The invariant that every operation keeps.
    pub open spec fn wf(&self) -> bool {
        self@.wf()
    }

    /// An empty store that keeps at most `capacity` sessions.
    pub fn new(capacity: usize) -> (s: LruStore)
        ensures
            s.wf(),
            s@.capacity == capacity,
            s@.sessions == Seq::<SessionView>::empty(),
    {
        let s = LruStore { capacity, entries: Vec::new() };
        assert(s@.sessions =~= Seq::<SessionView>::empty());
        s
    }

    /// The most sessions the store keeps.
    pub fn capacity(&self) -> (c: usize)
        ensures
            c == self@.capacity,
    {
        self.capacity
    }

    /// How many sessions are stored.
    pub fn len(&self) -> (n: usize)
        ensures
            n == self@.sessions.len(),
    {
        self.entries.len()
    }

    fn position(&self, id: SessionId) -> (r: Option<usize>)
        requires
            self.wf(),
        ensures
            r is Some <==> self@.holds(id),
            r matches Some(i) ==> i < self@.sessions.len() && i == self@.slot(id)
                && self@.sessions[i as int].id == id,
    {
        let mut i: usize = 0;
        while i < self.entries.len()
            invariant
                self.wf(),
                i <= self.entries.len(),
                forall|j: int| 0 <= j < i ==> self@.sessions[j].id != id,
            decreases self.entries.len() - i,
        {
            if self.entries[i].id == id {
                assert(self@.sessions[i as int].id == id);
                return Some(i);
            }
            i = i + 1;
        }
        None
    }

    /// Whether a session is stored under `id`. Asking changes nothing, not even
    /// which session was used last.
    pub fn contains(&self, id: &SessionId) -> (b: bool)
        requires
            self.wf(),
        ensures
            b == self@.holds(*id),
    {
        self.position(*id).is_some()
    }

    /// Stores `material` under `id` as the most recently used session, unless a
    /// session under `id` exists, which is then left as it was. In a store with
    /// room for at least one session, `id` is held afterwards either way, and a
    /// new session is found with the material given.
    pub fn insert_new_agreement(&mut self, id: SessionId, material: KeyMaterial) -> (r: Result<
        (),
        String,
    >)
        requires
            old(self).wf(),
            material.wf(),
        ensures
            final(self).wf(),
            r is Err <==> old(self)@.holds(id),
            r matches Err(e) ==> e@ == "UUID already exists"@ && final(self)@ == old(self)@,
            r is Ok ==> final(self)@ == old(self)@.with_new(id, material@),
            old(self)@.capacity > 0 ==> final(self)@.holds(id),
            r is Ok && old(self)@.capacity > 0 ==> final(self)@.lookup(id) == Some(material@),
    {
        proof {
            lemma_lookup_after_change(self@, id, id, material@);
        }
        match self.position(id) {
            Some(_) => Err(String::from_str("UUID already exists")),
            None => {
                let ghost before = self@;
                self.entries.push(Session { id, material });
                assert(self@.sessions =~= before.sessions.push(SessionView { id, material: material@ }));
                if self.entries.len() > self.capacity {
                    self.entries.remove(0);
                    assert(self@.sessions =~= before.sessions.push(
                        SessionView { id, material: material@ },
                    ).drop_first());
                }
                Ok(())
            },
        }
    }

    /// A copy of the material under `id`; a hit makes the session the most recently used.
    pub fn get_key_material(&mut self, id: &SessionId) -> (r: Option<KeyMaterial>)
        requires
            old(self).wf(),
        ensures
            final(self).wf(),
            final(self)@ == old(self)@.touched(*id),
            r is Some <==> old(self)@.holds(*id),
            r matches Some(m) ==> m@ == old(self)@.material(*id) && m.wf(),
    {
        match self.position(*id) {
            Some(i) => {
                let ghost before = self@;
                let session = self.entries.remove(i);
                let material = session.material.duplicate();
                self.entries.push(session);
                assert(self@.sessions =~= before.sessions.remove(i as int).push(
                    before.sessions[i as int],
                ));
                Some(material)
            },
            None => None,
        }
    }

    /// Replaces the material under `id` and makes the session the most recently
    /// used; fails, changing nothing, when `id` is absent.
    pub fn update_key_material(&mut self, id: &SessionId, material: KeyMaterial) -> (r: Result<
        (),
        String,
    >)
        requires
            old(self).wf(),
            material.wf(),
        ensures
            final(self).wf(),
            r is Ok <==> old(self)@.holds(*id),
            r matches Err(e) ==> e@ == "UUID not found"@,
            final(self)@ == old(self)@.replaced(*id, material@),
    {
        match self.position(*id) {
            Some(i) => {
                let ghost before = self@;
                self.entries.remove(i);
                self.entries.push(Session { id: *id, material });
                assert(self@.sessions =~= before.sessions.remove(i as int).push(
                    SessionView { id: *id, material: material@ },
                ));
                Ok(())
            },
            None => Err(String::from_str("UUID not found")),
        }
    }

    /// The final key of the session under `id`: none while the session is
    /// pending or when `id` is absent. A hit on `id` makes the session the most
    /// recently used, pending or not.
    pub fn get_shared_secret(&mut self, id: &SessionId) -> (r: Option<Vec<u8>>)
        requires
            old(self).wf(),
        ensures
            final(self).wf(),
            final(self)@ == old(self)@.touched(*id),
            r is Some <==> old(self)@.holds(*id) && old(self)@.material(*id).is_complete(),
            r matches Some(k) ==> Some(k@) == old(self)@.material(*id).session_key() && k@.len()
                == KEY_LEN,
    {
        match self.get_key_material(id) {
            Some(KeyMaterial::LegacyP256(k)) => Some(k),
            Some(KeyMaterial::PqxdhComplete(k)) => Some(k),
            Some(KeyMaterial::PqxdhPending { .. }) => None,
            None => None,
        }
    }

    /// Deletes the session under `id`, if there is one.
    pub fn remove_agreement(&mut self, id: &SessionId)
        requires
            old(self).wf(),
        ensures
            final(self).wf(),
            final(self)@ == old(self)@.without(*id),
            !final(self)@.holds(*id),
    {
        match self.position(*id) {
            Some(i) => {
                let ghost before = self@;
                self.entries.remove(i);
                assert(self@.sessions =~= before.sessions.remove(i as int));
                assert forall|j: int| 0 <= j < self@.sessions.len() implies self@.sessions[j].id
                    != *id by {
                    if j < i {
                        assert(self@.sessions[j] == before.sessions[j]);
                    } else {
                        assert(self@.sessions[j] == before.sessions[j + 1]);
                    }
                }
            },
            None => {},
        }
    }
}

/// A well-formed store never holds two sessions under one identifier: the number
/// of sessions under `id` is one when `id` is held and zero when it is not.
pub proof fn lemma_at_most_one_session(s: StoreView, id: SessionId)
    requires
        s.wf(),
    ensures
        s.occurrences(id) <= 1,
        s.occurrences(id) == 1 <==> s.holds(id),
    decreases s.sessions.len(),
{
    if s.sessions.len() > 0 {
        let rest = StoreView { capacity: s.capacity, sessions: s.sessions.drop_last() };
        let last = s.sessions.len() - 1;
        assert forall|i: int| 0 <= i < rest.sessions.len() implies rest.sessions[i]
            == s.sessions[i] by {}
        lemma_at_most_one_session(rest, id);
        if s.sessions.last().id == id {
            assert(s.sessions[last].id == id);
            if rest.holds(id) {
                let i = rest.slot(id);
                assert(s.sessions[i].id == s.sessions[last].id);
            }
        } else if s.holds(id) {
            let i = s.slot(id);
            assert(rest.sessions[i].id == id);
        } else if rest.holds(id) {
            let i = rest.slot(id);
            assert(s.sessions[i].id == id);
        }
    }
}

/// Every operation of the store keeps it well formed.
pub proof fn lemma_operations_keep_wf(s: StoreView, id: SessionId, material: MaterialView)
    requires
        s.wf(),
        material.wf(),
    ensures
        s.touched(id).wf(),
        s.without(id).wf(),
        s.replaced(id, material).wf(),
        !s.holds(id) ==> s.with_new(id, material).wf(),
{
    if s.holds(id) {
        let k = s.slot(id);
        let cut = s.sessions.remove(k);
        assert forall|i: int| 0 <= i < cut.len() implies cut[i] == s.sessions[if i < k {
            i
        } else {
            i + 1
        }] by {}
        assert(s.without(id).wf());
        assert(s.touched(id).wf());
        assert(s.replaced(id, material).wf());
    } else {
        let grown = s.sessions.push(SessionView { id, material });
        assert forall|i: int| 0 <= i < s.sessions.len() implies s.sessions[i].id != id by {}
        assert(s.with_new(id, material).wf());
    }
}

/// After its removal a session is absent, and no operation on the store brings
/// it back except an insertion under the same identifier.
pub proof fn lemma_removed_stays_absent(
    s: StoreView,
    id: SessionId,
    other: SessionId,
    material: MaterialView,
)
    requires
        s.wf(),
    ensures
        s.without(id).lookup(id) is None,
        !s.holds(id) ==> {
            &&& !s.touched(other).holds(id)
            &&& !s.without(other).holds(id)
            &&& !s.replaced(other, material).holds(id)
            &&& other != id ==> !s.with_new(other, material).holds(id)
        },
{
    if s.holds(id) {
        let k = s.slot(id);
        let cut = s.sessions.remove(k);
        assert forall|i: int| 0 <= i < cut.len() implies cut[i].id != id by {
            assert(cut[i] == s.sessions[if i < k {
                i
            } else {
                i + 1
            }]);
        }
    } else {
        assert forall|i: int| 0 <= i < s.sessions.len() implies s.sessions[i].id != id by {}
        if s.holds(other) {
            let k = s.slot(other);
            let cut = s.sessions.remove(k);
            assert forall|i: int| 0 <= i < cut.len() implies cut[i].id != id by {
                assert(cut[i] == s.sessions[if i < k {
                    i
                } else {
                    i + 1
                }]);
            }
        }
    }
}

/// Inserting into a full store evicts exactly the least recently used session:
/// it is gone, the new session is the most recently used, and every other
/// session stays, in its order.
pub proof fn lemma_full_store_evicts_least_recent(
    s: StoreView,
    id: SessionId,
    material: MaterialView,
)
    requires
        s.wf(),
        !s.holds(id),
        s.sessions.len() == s.capacity,
        s.capacity > 0,
    ensures
        s.with_new(id, material).sessions == s.sessions.drop_first().push(
            SessionView { id, material },
        ),
        !s.with_new(id, material).holds(s.sessions[0].id),
        forall|other: SessionId|
            s.holds(other) && other != s.sessions[0].id ==> s.with_new(id, material).lookup(other)
                == s.lookup(other),
        s.with_new(id, material).lookup(id) == Some(material),
{
    let after = s.with_new(id, material);
    let entry = SessionView { id, material };
    assert(after.sessions =~= s.sessions.drop_first().push(entry));
    assert(s.sessions[0].id != id);
    assert forall|i: int| 0 <= i < after.sessions.len() implies after.sessions[i].id
        != s.sessions[0].id by {
        if i < after.sessions.len() - 1 {
            assert(after.sessions[i] == s.sessions[i + 1]);
        }
    }
    assert forall|other: SessionId| s.holds(other) && other != s.sessions[0].id implies after.lookup(
        other,
    ) == s.lookup(other) by {
        let k = s.slot(other);
        assert(after.sessions[k - 1] == s.sessions[k]);
        assert(after.holds(other));
        let j = after.slot(other);
        if j < after.sessions.len() - 1 {
            assert(after.sessions[j] == s.sessions[j + 1]);
        }
    }
    assert(after.sessions[after.sessions.len() - 1] == entry);
    assert(after.holds(id));
    let j = after.slot(id);
    if j < after.sessions.len() - 1 {
        assert(after.sessions[j] == s.sessions[j + 1]);
    }
}

/// Touching a session changes the order of the store and nothing else: every
/// identifier is held as before with the same material, and a removal or a
/// replacement of the touched session ends in the same store as without the
/// touch.
pub proof fn lemma_touch_keeps_contents(
    s: StoreView,
    id: SessionId,
    other: SessionId,
    material: MaterialView,
)
    requires
        s.wf(),
    ensures
        s.touched(id).lookup(other) == s.lookup(other),
        s.touched(id).without(id) == s.without(id),
        s.touched(id).replaced(id, material) == s.replaced(id, material),
{
    if s.holds(id) {
        let k = s.slot(id);
        let t = s.touched(id);
        let n = s.sessions.len();
        assert forall|i: int| 0 <= i < n implies t.sessions[i] == s.sessions[if i == n - 1 {
            k
        } else if i < k {
            i
        } else {
            i + 1
        }] by {}
        assert(t.sessions[n - 1].id == id);
        assert(t.holds(id));
        assert(t.slot(id) == n - 1) by {
            let j = t.slot(id);
            if j < n - 1 {
                let src = if j < k {
                    j
                } else {
                    j + 1
                };
                assert(s.sessions[src].id == s.sessions[k].id);
            }
        }
        assert(t.sessions.remove(n - 1) =~= s.sessions.remove(k));
        if s.holds(other) {
            let m = s.slot(other);
            let dst = if m == k {
                n - 1
            } else if m < k {
                m
            } else {
                m - 1
            };
            assert(t.sessions[dst] == s.sessions[m]);
            assert(t.holds(other));
            let j = t.slot(other);
            let src = if j == n - 1 {
                k
            } else if j < k {
                j
            } else {
                j + 1
            };
            assert(t.sessions[j] == s.sessions[src]);
            assert(src == m);
        } else if t.holds(other) {
            let j = t.slot(other);
            let src = if j == n - 1 {
                k
            } else if j < k {
                j
            } else {
                j + 1
            };
            assert(s.sessions[src].id == other);
        }
    }
}

/// What is stored last is what is found: a replacement is found under its
/// identifier, and so is a new session unless the store has no room at all;
/// neither a replacement nor a removal changes what is found under another
/// identifier.
pub proof fn lemma_lookup_after_change(
    s: StoreView,
    id: SessionId,
    other: SessionId,
    material: MaterialView,
)
    requires
        s.wf(),
    ensures
        s.holds(id) ==> s.replaced(id, material).lookup(id) == Some(material),
        !s.holds(id) && s.capacity > 0 ==> s.with_new(id, material).lookup(id) == Some(material),
        other != id ==> s.replaced(id, material).lookup(other) == s.lookup(other),
        other != id ==> s.without(id).lookup(other) == s.lookup(other),
{
    let entry = SessionView { id, material };
    if s.holds(id) {
        let k = s.slot(id);
        let r = s.replaced(id, material);
        let w = s.without(id);
        if other != id {
            if s.holds(other) {
                let m = s.slot(other);
                let dst = if m < k {
                    m
                } else {
                    m - 1
                };
                assert(w.sessions[dst] == s.sessions[m]);
                assert(w.holds(other));
                let q = w.slot(other);
                let src = if q < k {
                    q
                } else {
                    q + 1
                };
                assert(w.sessions[q] == s.sessions[src]);
                assert(src == m);
            } else if w.holds(other) {
                let q = w.slot(other);
                let src = if q < k {
                    q
                } else {
                    q + 1
                };
                assert(s.sessions[src].id == other);
            }
        }
        let n = s.sessions.len();
        assert forall|i: int| 0 <= i < n - 1 implies r.sessions[i] == s.sessions[if i < k {
            i
        } else {
            i + 1
        }] by {}
        assert(r.sessions[n - 1] == entry);
        assert(r.holds(id));
        let j = r.slot(id);
        if j < n - 1 {
            assert(s.sessions[if j < k {
                j
            } else {
                j + 1
            }].id == s.sessions[k].id);
        }
        if other != id {
            if s.holds(other) {
                let m = s.slot(other);
                let dst = if m < k {
                    m
                } else {
                    m - 1
                };
                assert(r.sessions[dst] == s.sessions[m]);
                assert(r.holds(other));
                let q = r.slot(other);
                let src = if q < k {
                    q
                } else {
                    q + 1
                };
                assert(r.sessions[q] == s.sessions[src]);
                assert(src == m);
            } else if r.holds(other) {
                let q = r.slot(other);
                let src = if q < k {
                    q
                } else {
                    q + 1
                };
                assert(s.sessions[src].id == other);
            }
        }
    } else if s.capacity > 0 {
        let w = s.with_new(id, material);
        assert(w.sessions.len() > 0);
        assert(w.sessions[w.sessions.len() - 1] == entry);
        assert(w.holds(id));
        let j = w.slot(id);
        if j < w.sessions.len() - 1 {
            let src = if s.sessions.len() + 1 > s.capacity {
                j + 1
            } else {
                j
            };
            assert(w.sessions[j] == s.sessions[src]);
        }
    }
}

/// After an insertion under `id`, accepted or refused, a store with room for
/// at least one session holds exactly one session under `id` and at most one
/// under every other identifier.
pub proof fn lemma_exactly_one_after_insert(
    s: StoreView,
    id: SessionId,
    material: MaterialView,
    other: SessionId,
)
    requires
        s.wf(),
        material.wf(),
        s.capacity > 0,
    ensures
        ({
            let after = if s.holds(id) {
                s
            } else {
                s.with_new(id, material)
            };
            &&& after.wf()
            &&& after.occurrences(id) == 1
            &&& after.occurrences(other) <= 1
        }),
{
    let after = if s.holds(id) {
        s
    } else {
        s.with_new(id, material)
    };
    lemma_operations_keep_wf(s, id, material);
    lemma_lookup_after_change(s, id, id, material);
    lemma_at_most_one_session(after, id);
    lemma_at_most_one_session(after, other);
}

} // verus!
