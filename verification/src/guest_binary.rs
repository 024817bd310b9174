//! The guest image: the agent's binary as a buffer, handed to the sandbox
//! when it is made.

use vstd::prelude::*;

verus! {

/// A guest image. It is never empty.
#[derive(Debug)]
pub struct GuestBinary {
    bytes: Vec<u8>,
}

impl GuestBinary {
    #[verifier::type_invariant]
    spec fn holds_an_image(&self) -> bool {
        self.bytes@.len() > 0
    }

    /// The bytes of the image.
    pub closed spec fn bytes(&self) -> Seq<u8> {
        self.bytes@
    }

    /// The image that `bytes` hold, or `None` where they hold nothing.
    pub fn from_bytes(bytes: Vec<u8>) -> (image: Option<GuestBinary>)
        ensures
            bytes@.len() == 0 ==> image is None,
            bytes@.len() > 0 ==> image is Some && image->0.bytes() == bytes@,
    {
        if bytes.len() == 0 {
            None
        } else {
            Some(GuestBinary { bytes })
        }
    }

    /// The size of the image in bytes, which is positive.
    pub fn len(&self) -> (len: usize)
        ensures
            len == self.bytes().len(),
            len > 0,
    {
        proof {
            use_type_invariant(self);
        }
        self.bytes.len()
    }

    /// Whether the image holds no bytes, which is never so: an image holds
    /// at least one.
    pub fn is_empty(&self) -> (empty: bool)
        ensures
            empty == (self.bytes().len() == 0),
            !empty,
    {
        proof {
            use_type_invariant(self);
        }
        self.bytes.len() == 0
    }

    /// The image as a buffer.
    pub fn as_bytes(&self) -> (bytes: &[u8])
        ensures
            bytes@ == self.bytes(),
            bytes@.len() > 0,
    {
        proof {
            use_type_invariant(self);
        }
        self.bytes.as_slice()
    }
}

} // verus!
