//! The durable node identity.
//!
//! A node authenticates itself with an asymmetric keypair persisted in a
//! single file. On startup the file, if present, is decoded — corruption is
//! fatal, the node cannot proceed without a valid identity — and if absent a
//! fresh keypair is generated and handed back for persisting. The peer
//! identifier, the fixed-length value by which the node is addressed on
//! every transport, is derived from the keypair and therefore from the
//! persisted bytes alone.

use crate::addr::clone_bytes;
use crate::addr::PeerId;
use vstd::prelude::*;

verus! {

/// Whether a byte string decodes as a persisted keypair.
pub uninterp spec fn identity_decodes(bytes: Seq<u8>) -> bool;

/// The peer identifier derived from a persisted keypair; a function of the
/// persisted bytes alone.
pub uninterp spec fn identity_peer_id(bytes: Seq<u8>) -> Seq<u8>;

#[verifier::external_type_specification]
#[verifier::external_body]
pub struct ExKeypair(libp2p::identity::Keypair);

/// Relies on libp2p's `Keypair::from_protobuf_encoding` and
/// `PeerId::from_public_key`: whether the bytes decode, and the identifier
/// of the decoded keypair, depend on the bytes alone.
#[verifier::external_body]
fn decode_keypair(bytes: &Vec<u8>) -> (r: Option<(libp2p::identity::Keypair, Vec<u8>)>)
    ensures
        r is Some <==> identity_decodes(bytes@),
        r matches Some(p) ==> p.1@ == identity_peer_id(bytes@),
{
    match libp2p::identity::Keypair::from_protobuf_encoding(bytes) {
        Ok(keypair) => {
            let id = keypair.public().to_peer_id().to_bytes();
            Some((keypair, id))
        }
        Err(_) => None,
    }
}

/// Relies on libp2p's `Keypair::generate_ed25519` and
/// `to_protobuf_encoding`: a fresh keypair's encoding decodes again, and to
/// the identifier reported here. Nothing is claimed about which keypair
/// comes back.
#[verifier::external_body]
fn generate_keypair() -> (r: Option<(libp2p::identity::Keypair, Vec<u8>, Vec<u8>)>)
    ensures
        r matches Some(p) ==> identity_decodes(p.1@) && identity_peer_id(p.1@) == p.2@,
{
    let keypair = libp2p::identity::Keypair::generate_ed25519();
    let bytes = match keypair.to_protobuf_encoding() {
        Ok(b) => b,
        Err(_) => {
            return None;
        }
    };
    let id = keypair.public().to_peer_id().to_bytes();
    Some((keypair, bytes, id))
}

/// The node's durable identity: the keypair, the bytes it is persisted as,
/// and the peer identifier derived from them.
pub struct Identity {
    pub keypair: libp2p::identity::Keypair,
    pub key_bytes: Vec<u8>,
    pub peer_id: PeerId,
}

impl Identity {
    /// The identity is exactly what its persisted bytes decode to.
    pub open spec fn wf(self) -> bool {
        &&& identity_decodes(self.key_bytes@)
        &&& self.peer_id@ == identity_peer_id(self.key_bytes@)
    }
}

/// Why the identity store failed. Both are fatal at startup.
#[derive(Clone, Copy, PartialEq, Eq, Structural, Debug)]
pub enum IdentityError {
    /// The persisted file did not decode as a keypair.
    Corrupt,
    /// A fresh identity could not be generated and serialized.
    GenerationFailed,
}

/// The identity store. `disk` holds the persisted file's bytes, or `None`
/// if no file exists. An existing file is decoded and never rewritten;
/// corruption is fatal, not retried. With no file, a fresh identity is
/// generated and the bytes to persist are handed back alongside it.
pub fn load_or_create(disk: Option<Vec<u8>>) -> (r: Result<
    (Identity, Option<Vec<u8>>),
    IdentityError,
>)
    ensures
        disk matches Some(bytes) ==> {
            &&& r is Ok <==> identity_decodes(bytes@)
            &&& !identity_decodes(bytes@) ==> (r matches Err(e) && e == IdentityError::Corrupt)
            &&& r matches Ok(p) ==> {
                &&& p.0.wf()
                &&& p.0.key_bytes@ == bytes@
                &&& p.0.peer_id@ == identity_peer_id(bytes@)
                &&& p.1 is None
            }
        },
        disk is None ==> {
            &&& r matches Ok(p) ==> {
                &&& p.0.wf()
                &&& p.1 matches Some(w) && w@ == p.0.key_bytes@
            }
            &&& r matches Err(e) ==> e == IdentityError::GenerationFailed
        },
{
    match disk {
        Some(bytes) => match decode_keypair(&bytes) {
            Some((keypair, id)) => Ok(
                (Identity { keypair, key_bytes: bytes, peer_id: PeerId { bytes: id } }, None),
            ),
            None => Err(IdentityError::Corrupt),
        },
        None => match generate_keypair() {
            Some((keypair, bytes, id)) => {
                let persist = clone_bytes(&bytes);
                Ok(
                    (
                        Identity { keypair, key_bytes: bytes, peer_id: PeerId { bytes: id } },
                        Some(persist),
                    ),
                )
            },
            None => Err(IdentityError::GenerationFailed),
        },
    }
}

/// Loading an existing identity file never rewrites it, so any two loads of
/// the same file report the same peer identifier.
pub proof fn lemma_load_idempotent(bytes: Seq<u8>, first: Seq<u8>, second: Seq<u8>)
    requires
        first == identity_peer_id(bytes),
        second == identity_peer_id(bytes),
    ensures
        first == second,
{
}

/// Creating an identity persists bytes that decode again, to the identifier
/// reported at creation: generate, persist, reload reproduces the
/// identifier.
pub proof fn lemma_create_reload_round_trip(written: Seq<u8>, created: Seq<u8>, reloaded: Seq<u8>)
    requires
        identity_decodes(written),
        created == identity_peer_id(written),
        reloaded == identity_peer_id(written),
    ensures
        created == reloaded,
{
}

} // verus!
