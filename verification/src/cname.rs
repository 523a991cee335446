//! Names validated for the native layer.
//!
//! The native provider takes symbol names and paths as null-terminated
//! strings. A byte sequence with an embedded nul cannot be represented that
//! way, so such a name can never match an entry and such a path can never
//! name a file: the operations reject it locally, before any native call.

use vstd::prelude::*;
use vstd::slice::slice_to_vec;

verus! {

/// True when the byte sequence holds no nul byte, so it can stand in a
/// null-terminated native string.
pub open spec fn no_nul(bytes: Seq<u8>) -> bool {
    forall|i: int| 0 <= i < bytes.len() ==> bytes[i] != 0
}

/// A name validated for the native layer: bytes with no embedded nul.
///
/// Its view is the name's bytes, without a terminator; [`CName::terminated`]
/// appends the one nul the native call needs.
#[derive(Debug)]
pub struct CName {
    bytes: Vec<u8>,
}

impl View for CName {
    type V = Seq<u8>;

    closed spec fn view(&self) -> Seq<u8> {
        self.bytes@
    }
}

impl CName {
    #[verifier::type_invariant]
    spec fn inv(self) -> bool {
        no_nul(self.bytes@)
    }

    /// Validates a name: accepted exactly when it holds no nul byte.
    pub fn new(name: &[u8]) -> (r: Option<CName>)
        ensures
            (match r {
                Some(c) => c@ == name@ && no_nul(name@),
                None => !no_nul(name@),
            }),
    {
        let n = name.len();
        let mut i: usize = 0;
        while i < n
            invariant
                n == name@.len(),
                0 <= i <= n,
                forall|j: int| 0 <= j < i ==> name@[j] != 0,
            decreases n - i,
        {
            if name[i] == 0 {
                return None;
            }
            i = i + 1;
        }
        Some(CName { bytes: slice_to_vec(name) })
    }

    /// The validated bytes, without a terminator.
    pub fn as_bytes(&self) -> (bytes: &[u8])
        ensures
            bytes@ == self@,
    {
        self.bytes.as_slice()
    }

    /// The name with its nul terminator, ready for a native call.
    pub fn terminated(&self) -> (bytes: Vec<u8>)
        ensures
            bytes@ == self@.push(0u8),
    {
        let mut bytes = slice_to_vec(self.bytes.as_slice());
        bytes.push(0);
        bytes
    }
}

} // verus!
