//! The part of the transport's event handler that decides: which signature
//! hash a server's host key calls for, whether the key is trusted, and what
//! the handler's end removes from the connection registry.

use vstd::prelude::*;

use crate::manager::{Connection, SessionManager};

verus! {

/// The hash with which an RSA key signs.
#[derive(Clone, Copy, Debug, PartialEq, Eq, Structural)]
pub enum SignatureHash {
    Sha2_256,
    Sha2_512,
    Sha1,
}

/// The type of a server's public key.
#[derive(Clone, Copy, Debug, PartialEq, Eq, Structural)]
pub enum HostKeyType {
    Ed25519,
    Rsa,
}

/// The handler bound to one connection.
#[derive(Debug, PartialEq, Eq)]
pub struct ClientHandler {
    /// The identifier of the connection.
    pub id: u128,
    /// The key under which the connection is filed.
    pub key: String,
    /// The signature hash noted for the server's key, if it calls for one.
    pub hash_alg: Option<SignatureHash>,
}

/// The hash that goes with an RSA host-key algorithm name: SHA-256 and
/// SHA-512 for their `rsa-sha2-` names, SHA-1 for every other name.
pub open spec fn rsa_hash(algorithm: Seq<char>) -> SignatureHash {
    if algorithm == "rsa-sha2-256"@ {
        SignatureHash::Sha2_256
    } else if algorithm == "rsa-sha2-512"@ {
        SignatureHash::Sha2_512
    } else {
        SignatureHash::Sha1
    }
}

/// The hash to note for a server key of the given type and algorithm name:
/// none for Ed25519, the one its algorithm name calls for with RSA.
pub open spec fn hash_hint(key_type: HostKeyType, algorithm: Seq<char>) -> Option<SignatureHash> {
    match key_type {
        HostKeyType::Ed25519 => None,
        HostKeyType::Rsa => Some(rsa_hash(algorithm)),
    }
}

/// `russh_keys::key::SignatureHash::from_rsa_hostkey_algo` on the bytes of
/// the name. It compares the name with `rsa-sha2-256` and `rsa-sha2-512`
/// and falls back to SHA-1; it never returns `None`.
#[verifier::external_body]
fn hash_from_rsa_hostkey_algo(algorithm: &str) -> (hash: Option<SignatureHash>)
    ensures
        hash == Some(rsa_hash(algorithm@)),
{
    match russh_keys::key::SignatureHash::from_rsa_hostkey_algo(algorithm.as_bytes()) {
        Some(russh_keys::key::SignatureHash::SHA2_256) => Some(SignatureHash::Sha2_256),
        Some(russh_keys::key::SignatureHash::SHA2_512) => Some(SignatureHash::Sha2_512),
        Some(russh_keys::key::SignatureHash::SHA1) => Some(SignatureHash::Sha1),
        None => None,
    }
}

impl Default for ClientHandler {
    /// A handler for the nil identifier and the empty key, with no hash
    /// noted.
    fn default() -> (handler: ClientHandler)
        ensures
            handler.id == 0,
            handler.key@ == Seq::<char>::empty(),
            handler.hash_alg is None,
    {
        ClientHandler { id: 0, key: String::new(), hash_alg: None }
    }
}

impl ClientHandler {
    /// A handler for the connection with the given identifier and registry
    /// key, with no hash noted.
    pub fn new(id: u128, key: String) -> (handler: ClientHandler)
        ensures
            handler.id == id,
            handler.key == key,
            handler.hash_alg is None,
    {
        ClientHandler { id, key, hash_alg: None }
    }

    /// Looks at the server's key: notes the signature hash it calls for, and
    /// decides whether to trust it. Every key is accepted.
    pub fn check_server_key(&mut self, key_type: HostKeyType, algorithm: &str) -> (accepted: bool)
        ensures
            accepted,
            final(self).hash_alg == hash_hint(key_type, algorithm@),
            final(self).id == old(self).id,
            final(self).key == old(self).key,
    {
        let noted = match key_type {
            HostKeyType::Ed25519 => None,
            HostKeyType::Rsa => hash_from_rsa_hostkey_algo(algorithm),
        };
        self.hash_alg = noted;
        true
    }

    /// The handler's end of life: takes the connection filed under the
    /// handler's key out of the registry and hands it back, so that its
    /// identity can be logged. Where the connection was taken out before,
    /// nothing changes.
    pub fn teardown(&self, manager: &mut SessionManager) -> (removed: Option<Connection>)
        requires
            old(manager).wf(),
        ensures
            final(manager).wf(),
            final(manager).connections() == old(manager).connections().remove(self.key@),
            final(manager).shells() == old(manager).shells(),
            removed == if old(manager).connections().contains_key(self.key@) {
                Some(old(manager).connections()[self.key@])
            } else {
                None
            },
    {
        manager.disconnect(&self.key)
    }
}

} // verus!
