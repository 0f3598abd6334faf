//! Text handed to the C API, which takes it as nul-terminated strings.
use vstd::prelude::*;

use crate::status::{FswError, FswResult, NulError};
use vstd::string::StringSliceAdditionalSpecFns;

verus! {

/// Whether none of the bytes is nul.
pub open spec fn no_nul(bytes: Seq<u8>) -> bool {
    forall|i: int| 0 <= i < bytes.len() ==> #[trigger] bytes[i] != 0
}

/// Whether `position` is where the first nul byte stands.
pub open spec fn is_first_nul(bytes: Seq<u8>, position: int) -> bool {
    &&& 0 <= position < bytes.len()
    &&& bytes[position] == 0
    &&& no_nul(bytes.take(position))
}

/// The bytes of a text as a C string holds them (without the terminating nul), or, where the text
/// holds a nul byte, the error that names the first one.
pub fn c_string_bytes(text: &str) -> (r: FswResult<Vec<u8>>)
    ensures
        r is Ok <==> no_nul(text.spec_bytes()),
        r matches Ok(b) ==> b@ == text.spec_bytes(),
        r matches Err(e) ==> (e matches FswError::NulError(n) && n.bytes@ == text.spec_bytes()
            && is_first_nul(n.bytes@, n.position as int)),
{
    let src = text.as_bytes();
    let n = src.len();
    let mut bytes: Vec<u8> = Vec::new();
    let mut first: Option<usize> = None;
    for i in 0..n
        invariant
            n == src@.len(),
            src@ == text.spec_bytes(),
            bytes@ == src@.take(i as int),
            match first {
                Some(p) => is_first_nul(src@, p as int) && p < i,
                None => no_nul(src@.take(i as int)),
            },
    {
        let b = src[i];
        if b == 0 && first.is_none() {
            first = Some(i);
        }
        bytes.push(b);
        assert(bytes@ =~= src@.take(i + 1));
        proof {
            if first is None {
                assert forall|j: int| 0 <= j < i + 1 implies #[trigger] src@.take(i + 1)[j]
                    != 0 by {
                    if j < i {
                        assert(src@.take(i as int)[j] == src@[j]);
                    }
                }
            }
        }
    }
    assert(bytes@ =~= src@);
    match first {
        Some(position) => {
            assert(bytes@.take(position as int) =~= src@.take(position as int));
            Err(FswError::NulError(NulError { position, bytes }))
        },
        None => Ok(bytes),
    }
}

/// The first nul byte is a nul byte with none before it, and there is only one such position.
pub proof fn lemma_first_nul_is_unique(bytes: Seq<u8>, p: int, q: int)
    ensures
        is_first_nul(bytes, p) ==> 0 <= p < bytes.len() && bytes[p] == 0 && forall|j: int|
            0 <= j < p ==> #[trigger] bytes[j] != 0,
        is_first_nul(bytes, p) && is_first_nul(bytes, q) ==> p == q,
        no_nul(bytes) <==> forall|j: int| 0 <= j < bytes.len() ==> #[trigger] bytes[j] != 0,
{
    if is_first_nul(bytes, p) {
        assert forall|j: int| 0 <= j < p implies #[trigger] bytes[j] != 0 by {
            assert(bytes.take(p)[j] == bytes[j]);
        }
        if is_first_nul(bytes, q) {
            if q < p {
                assert(bytes.take(p)[q] == bytes[q]);
            } else if p < q {
                assert(bytes.take(q)[p] == bytes[p]);
            }
        }
    }
}

} // verus!
