//! The fixed-capacity message buffer of the binary codec.

use vstd::prelude::*;

verus! {

/// Why a message could not be encoded or decoded.
#[derive(Clone, Copy, Debug, PartialEq, Eq, Structural)]
pub enum EncodingError {
    /// The encoded message is longer than the buffer's capacity.
    TooLarge { size: usize, capacity: usize },
    /// The bytes do not hold a message.
    Malformed,
}

/// Places an encoded message into a buffer of fixed `capacity`: the bytes
/// are kept as they are when they fit, and nothing is handed out otherwise.
pub fn fit_to_buffer(encoded: Vec<u8>, capacity: usize) -> (r: Result<Vec<u8>, EncodingError>)
    ensures
        r is Ok <==> encoded@.len() <= capacity,
        r is Ok ==> r->Ok_0@ == encoded@,
        r is Err ==> r->Err_0 == (EncodingError::TooLarge { size: encoded@.len() as usize, capacity }),
{
    let size = encoded.len();
    if size > capacity {
        Err(EncodingError::TooLarge { size, capacity })
    } else {
        Ok(encoded)
    }
}

} // verus!
