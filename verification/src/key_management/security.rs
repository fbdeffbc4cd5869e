//! The boundary behind which key material is made, kept and used.
use crate::key_management::models::KeyAlgorithm;
use vstd::prelude::*;
use vstd::slice::slice_to_vec;

verus! {

/// What a security module answered when asked for key material, as plain
/// values.
pub open spec fn material_view(r: Result<Vec<u8>, String>) -> Result<Seq<u8>, Seq<char>> {
    match r {
        Ok(key_data) => Ok(key_data@),
        Err(e) => Err(e@),
    }
}

/// What a security module answered when asked to keep key material, as
/// plain values.
pub open spec fn kept_view(r: Result<(), String>) -> Result<(), Seq<char>> {
    match r {
        Ok(_) => Ok(()),
        Err(e) => Err(e@),
    }
}

/// A security module: the only place that ever sees key material. An
/// implementation may fail on any call, unless it declares itself
/// `dependable`.
pub trait SecurityModuleInterface {
    /// Whether no operation of this module ever fails. A module makes no
    /// such promise unless it says so.
    open spec fn dependable(&self) -> bool {
        false
    }

    /// Whether `answer` is one that this module can give when it is asked
    /// to make key material for `algorithm`. A module that says nothing of
    /// its answers admits every one.
    open spec fn can_generate(&self, algorithm: KeyAlgorithm, answer: Result<Seq<u8>, Seq<char>>) -> bool {
        true
    }

    /// Whether `answer` is one that this module can give when it is asked
    /// to keep `key_data` under `key_id`. A module that says nothing of its
    /// answers admits every one.
    open spec fn can_store(
        &self,
        key_id: Seq<char>,
        key_data: Seq<u8>,
        answer: Result<(), Seq<char>>,
    ) -> bool {
        true
    }

    /// Makes key material for `algorithm`.
    fn generate_key(&self, algorithm: KeyAlgorithm) -> (r: Result<Vec<u8>, String>)
        ensures
            self.dependable() ==> r.is_ok(),
            self.can_generate(algorithm, material_view(r)),
    ;

    /// Keeps `key_data` under `key_id`, in place of what was kept there.
    fn store_key(&self, key_id: &str, key_data: &[u8]) -> (r: Result<(), String>)
        ensures
            self.dependable() ==> r.is_ok(),
            self.can_store(key_id@, key_data@, kept_view(r)),
    ;

    /// The key material kept under `key_id`.
    fn retrieve_key(&self, key_id: &str) -> (r: Result<Vec<u8>, String>)
        ensures
            self.dependable() ==> r.is_ok(),
    ;

    /// Forgets the key material kept under `key_id`.
    fn delete_key(&self, key_id: &str) -> (r: Result<(), String>)
        ensures
            self.dependable() ==> r.is_ok(),
    ;

    /// A signature of `data` under the key `key_id`.
    fn sign_data(&self, key_id: &str, data: &[u8]) -> (r: Result<Vec<u8>, String>)
        ensures
            self.dependable() ==> r.is_ok(),
    ;

    /// Whether `signature` is a signature of `data` under the key `key_id`.
    fn verify_signature(&self, key_id: &str, data: &[u8], signature: &[u8]) -> (r: Result<bool, String>)
        ensures
            self.dependable() ==> r.is_ok(),
    ;

    /// `data` encrypted under the key `key_id`.
    fn encrypt_data(&self, key_id: &str, data: &[u8]) -> (r: Result<Vec<u8>, String>)
        ensures
            self.dependable() ==> r.is_ok(),
    ;

    /// `encrypted_data` decrypted under the key `key_id`.
    fn decrypt_data(&self, key_id: &str, encrypted_data: &[u8]) -> (r: Result<Vec<u8>, String>)
        ensures
            self.dependable() ==> r.is_ok(),
    ;
}

/// Whether `outcome` is what asking `module` for key material for
/// `algorithm`, and then to keep that material under `key_id`, can come to:
/// the module's failure to make the material, or else, for some material
/// that it made, its answer to keeping it.
pub open spec fn provisioning<S: SecurityModuleInterface>(
    module: S,
    key_id: Seq<char>,
    algorithm: KeyAlgorithm,
    outcome: Result<(), Seq<char>>,
) -> bool {
    ||| outcome is Err && module.can_generate(algorithm, Err::<Seq<u8>, Seq<char>>(outcome->Err_0))
    ||| exists|key_data: Seq<u8>| #[trigger]
        module.can_generate(algorithm, Ok::<Seq<u8>, Seq<char>>(key_data)) && module.can_store(
            key_id,
            key_data,
            outcome,
        )
}

/// `n` zero bytes.
pub open spec fn zeros(n: nat) -> Seq<u8> {
    Seq::new(n, |i: int| 0u8)
}

/// A vector of `n` zero bytes.
fn zero_bytes(n: usize) -> (r: Vec<u8>)
    ensures
        r@ == zeros(n as nat),
{
    let mut v: Vec<u8> = Vec::new();
    let mut i: usize = 0;
    while i < n
        invariant
            i <= n,
            v@ == zeros(i as nat),
        decreases n - i,
    {
        v.push(0u8);
        assert(v@ =~= zeros((i + 1) as nat));
        i += 1;
    }
    v
}

/// A stand-in for a hardware security module: it keeps nothing and
/// computes nothing. Keys are 32 zero bytes, signatures 64; every signature
/// is accepted; encryption and decryption hand the data back.
#[derive(Clone, Copy, Debug)]
pub struct MockHSM;

impl SecurityModuleInterface for MockHSM {
    open spec fn dependable(&self) -> bool {
        true
    }

    fn generate_key(&self, algorithm: KeyAlgorithm) -> (r: Result<Vec<u8>, String>)
        ensures
            r.is_ok() && r.unwrap()@ == zeros(32),
    {
        Ok(zero_bytes(32))
    }

    fn store_key(&self, key_id: &str, key_data: &[u8]) -> (r: Result<(), String>)
        ensures
            r.is_ok(),
    {
        Ok(())
    }

    fn retrieve_key(&self, key_id: &str) -> (r: Result<Vec<u8>, String>)
        ensures
            r.is_ok() && r.unwrap()@ == zeros(32),
    {
        Ok(zero_bytes(32))
    }

    fn delete_key(&self, key_id: &str) -> (r: Result<(), String>)
        ensures
            r.is_ok(),
    {
        Ok(())
    }

    fn sign_data(&self, key_id: &str, data: &[u8]) -> (r: Result<Vec<u8>, String>)
        ensures
            r.is_ok() && r.unwrap()@ == zeros(64),
    {
        Ok(zero_bytes(64))
    }

    fn verify_signature(&self, key_id: &str, data: &[u8], signature: &[u8]) -> (r: Result<bool, String>)
        ensures
            r == Ok::<bool, String>(true),
    {
        Ok(true)
    }

    fn encrypt_data(&self, key_id: &str, data: &[u8]) -> (r: Result<Vec<u8>, String>)
        ensures
            r.is_ok() && r.unwrap()@ == data@,
    {
        Ok(slice_to_vec(data))
    }

    fn decrypt_data(&self, key_id: &str, encrypted_data: &[u8]) -> (r: Result<Vec<u8>, String>)
        ensures
            r.is_ok() && r.unwrap()@ == encrypted_data@,
    {
        Ok(slice_to_vec(encrypted_data))
    }
}

} // verus!
