//! The data shapes of the node's HTTP surface and the pure parts of
//! its handlers: building a peer from a registration request, the
//! handlers' fixed response texts, and the broadcast persistence key.
//!
//! The routing itself, the JSON en- and decoding and the socket work
//! stay outside; they hand these functions plain values.

use vstd::prelude::*;
use vstd::string::StringExecFns;
use crate::node::Node;
use crate::validation::TransactionData;

verus! {

/// An inbound transaction payload: the persistence key, the opaque
/// proof and blinding material, and the typed transaction itself.
pub struct Data {
    pub secret: u64,
    pub proof_bytes: Vec<u8>,
    pub blinding: String,
    pub data: TransactionData,
}

/// A peer registration request: the peer's identity as it should enter
/// the registry.
pub struct RegisterNodeRequest {
    pub id: String,
    pub address: String,
    pub public_key: String,
}

impl Clone for RegisterNodeRequest {
    fn clone(&self) -> (r: Self)
        ensures
            r == *self,
    {
        RegisterNodeRequest {
            id: self.id.clone(),
            address: self.address.clone(),
            public_key: self.public_key.clone(),
        }
    }
}

/// The peer a registration request describes: its identity taken over
/// unchanged, its validation status starting out advisory-false.
pub fn node_from_request(req: &RegisterNodeRequest) -> (n: Node)
    ensures
        n@.id == req.id@,
        n@.address == req.address@,
        n@.public_key == req.public_key@,
        n@.validated == Some(false),
{
    Node {
        id: req.id.clone(),
        address: req.address.clone(),
        public_key: req.public_key.clone(),
        validated: Some(false),
    }
}

/// The registration request this node sends to the discovery service:
/// its own configured id and address, and its public key.
pub fn build_registration_request(node: &Node, uuid: String, address: String) -> (r:
    RegisterNodeRequest)
    ensures
        r.id == uuid,
        r.address == address,
        r.public_key == node.public_key,
{
    RegisterNodeRequest { id: uuid, address, public_key: node.public_key.clone() }
}

/// The confirmation text a successful registration answers with.
pub fn registration_response(id: &str) -> (r: String)
    ensures
        r@ == "Node "@ + id@ + " registered successfully"@,
{
    let mut r = String::from_str("Node ");
    r.append(id);
    r.append(" registered successfully");
    r
}

/// The fixed key a relayed transaction is persisted under.
pub fn broadcast_storage_key() -> (r: String)
    ensures
        r@ == "broadcasted_transaction"@,
{
    String::from_str("broadcasted_transaction")
}

/// The acknowledgement text the broadcast endpoint always answers
/// with.
pub fn broadcast_response() -> (r: String)
    ensures
        r@ == "Broadcast received successfully"@,
{
    String::from_str("Broadcast received successfully")
}

} // verus!
