use vstd::prelude::*;

verus! {

/// An opaque wrapper to protect direct access
/// to the underlying key material.
///
/// The raw bytes are visible only to the storage backend and to the
/// operation engine; the wrapper deliberately carries no `Debug` output.
pub struct KeyMaterial(pub(crate) Vec<u8>);

impl View for KeyMaterial {
    type V = Seq<u8>;

    closed spec fn view(&self) -> Seq<u8> {
        self.0@
    }
}

impl KeyMaterial {
    /// Wrap raw key bytes.
    pub fn new(bytes: Vec<u8>) -> (r: KeyMaterial)
        ensures
            r@ == bytes@,
    {
        KeyMaterial(bytes)
    }

    /// Read access for the storage backend and the engine.
    pub(crate) fn bytes(&self) -> (r: &Vec<u8>)
        ensures
            r@ == self@,
    {
        &self.0
    }

    /// How many bytes the material holds. The length is metadata; the
    /// bytes themselves stay behind the wrapper.
    pub fn len(&self) -> (n: usize)
        ensures
            n == self@.len(),
    {
        self.0.len()
    }
}

impl PartialEq<Vec<u8>> for KeyMaterial {
    fn eq(&self, other: &Vec<u8>) -> (r: bool) {
        if self.0.len() != other.len() {
            return false;
        }
        let n = self.0.len();
        let mut i: usize = 0;
        while i < n
            invariant
                n == self.0.len(),
                n == other.len(),
                0 <= i <= n,
                forall|j: int| 0 <= j < i ==> self.0@[j] == other@[j],
            decreases n - i,
        {
            if self.0[i] != other[i] {
                return false;
            }
            i += 1;
        }
        proof {
            assert(self@ =~= other@);
        }
        true
    }
}

impl vstd::std_specs::cmp::PartialEqSpecImpl<Vec<u8>> for KeyMaterial {
    open spec fn obeys_eq_spec() -> bool {
        true
    }

    open spec fn eq_spec(&self, other: &Vec<u8>) -> bool {
        self@ == other@
    }
}

/// A `KeyStorage` implementation is responsible for providing a way to
/// store and retrieve actual key material in a storage.
///
/// The contract speaks of the abstract contents of the store: a map from
/// handles to the stored bytes. `store` inserts the material under a fresh
/// handle and never loses what was already stored; `get` is a read-only
/// lookup that answers exactly for the handles the store holds.
pub trait KeyStorage: Sized {
    /// The type of the handle to represent a stored key.
    type Handle: Copy;

    /// The material the storage currently holds, by handle.
    spec fn contents(&self) -> Map<Self::Handle, Seq<u8>>;

    /// Store the given key in the storage.
    /// Returns a handle that can be used to retrieve the key later.
    fn store(&mut self, key: KeyMaterial) -> (h: Self::Handle)
        ensures
            !old(self).contents().dom().contains(h),
            final(self).contents() == old(self).contents().insert(h, key@),
    ;

    /// Retrieve the key with the given handle.
    fn get(&self, handle: Self::Handle) -> (r: Option<&KeyMaterial>)
        ensures
            r is Some <==> self.contents().dom().contains(handle),
            r matches Some(m) ==> m@ == self.contents()[handle],
    ;
}

/// Round-trip law for storage: a handle fresh from `store` reads back to
/// exactly the bytes stored. If storing material `m` took the contents
/// `c0` to `c1` under handle `h` (what `store` ensures), then `c1` holds
/// `m` at `h` — so `get` on that state answers `Some` of exactly `m`, and
/// every record `c0` held is still in place.
pub proof fn lemma_store_get_round_trip<H>(
    c0: Map<H, Seq<u8>>,
    c1: Map<H, Seq<u8>>,
    h: H,
    m: Seq<u8>,
)
    requires
        !c0.dom().contains(h),
        c1 == c0.insert(h, m),
    ensures
        c1.dom().contains(h),
        c1[h] == m,
        forall|k: H| #[trigger] c0.dom().contains(k) ==> c1.dom().contains(k) && c1[k] == c0[k],
{
}

/// An in-memory storage backend: an append-only vector of materials,
/// indexed by position.
pub struct InMemoryVault(Vec<KeyMaterial>);

impl InMemoryVault {
    /// An empty vault.
    pub fn new() -> (r: InMemoryVault)
        ensures
            r.contents() == Map::<usize, Seq<u8>>::empty(),
    {
        let r = InMemoryVault(Vec::new());
        proof {
            assert(r.contents() =~= Map::<usize, Seq<u8>>::empty());
        }
        r
    }
}

impl KeyStorage for InMemoryVault {
    type Handle = usize;

    closed spec fn contents(&self) -> Map<usize, Seq<u8>> {
        Map::new(|i: usize| i < self.0.len(), |i: usize| self.0@[i as int]@)
    }

    fn store(&mut self, key: KeyMaterial) -> (h: usize)
        ensures
            !old(self).contents().dom().contains(h),
            final(self).contents() == old(self).contents().insert(h, key@),
    {
        let h = self.0.len();
        self.0.push(key);
        proof {
            assert(self.contents() =~= old(self).contents().insert(h, key@));
        }
        h
    }

    fn get(&self, handle: usize) -> (r: Option<&KeyMaterial>)
        ensures
            r is Some <==> self.contents().dom().contains(handle),
            r matches Some(m) ==> m@ == self.contents()[handle],
    {
        if handle < self.0.len() {
            Some(&self.0[handle])
        } else {
            None
        }
    }
}

} // verus!
