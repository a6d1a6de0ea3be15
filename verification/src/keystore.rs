use vstd::prelude::*;

verus! {

/// Longest master key the store accepts. The encryption key is derived from
/// the master key by SHA-256, which is defined only on inputs of at most
/// 2^61 - 1 bytes; a longer key could not be hashed.
pub const MAX_MASTER_KEY_LEN: u64 = 0x1FFF_FFFF_FFFF_FFFF;

/// Holds the current master key for the lifetime of the process. A store
/// starts out with the empty key; [`setup`] replaces the key, last writer
/// wins; every sealing and unsealing operation reads the key that is current
/// when it runs. Callers that share one store across threads guard it with a
/// lock of their own; the store itself has no hidden state.
pub struct KeyStore {
    key: Vec<u8>,
}

impl View for KeyStore {
    type V = Seq<u8>;

    closed spec fn view(&self) -> Seq<u8> {
        self.key@
    }
}

impl KeyStore {
    #[verifier::type_invariant]
    spec fn inv(self) -> bool {
        self.key@.len() <= MAX_MASTER_KEY_LEN
    }

    /// A store holding the empty master key, the state at process start.
    pub fn new() -> (s: Self)
        ensures
            s@ == Seq::<u8>::empty(),
    {
        KeyStore { key: Vec::new() }
    }

    /// A guarded view of the current key for the duration of one
    /// cryptographic operation; never exposed outside the crate.
    pub(crate) fn current(&self) -> (r: &Vec<u8>)
        ensures
            r@ == self@,
            r@.len() <= MAX_MASTER_KEY_LEN,
    {
        proof {
            use_type_invariant(self);
        }
        &self.key
    }
}

/// Replaces the store's master key. May be called any number of times; the
/// last writer wins, and later operations read the new key.
pub fn setup(store: &mut KeyStore, master_key: Vec<u8>)
    requires
        master_key@.len() <= MAX_MASTER_KEY_LEN,
    ensures
        final(store)@ == master_key@,
{
    store.key = master_key;
}

} // verus!
