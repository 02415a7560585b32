use vstd::prelude::*;

verus! {

/// One message held by a queue: an identifier chosen by the producer and an
/// opaque body. For JSON traffic the body holds the encoded text; the broker
/// never looks inside it. A message is immutable once constructed; ownership
/// moves to the queue on post and to the consumer on a successful get.
pub struct Message {
    pub id: String,
    pub body: String,
}

impl Message {
    /// Builds a message from its identifier and its body.
    pub fn new(id: String, body: String) -> (r: Message)
        ensures
            r.id == id,
            r.body == body,
    {
        Message { id, body }
    }
}

} // verus!
