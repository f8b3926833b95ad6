//! A gateway library exposing a JSON method-call batch protocol backed by an
//! IMAP mail store.
//!
//! The crate covers the session-authenticated backend-connection bridge and
//! the protocol dispatch layer: decoding HTTP Basic credentials, caching one
//! authenticated backend connection per client session, and decoding,
//! dispatching and re-encoding batches of tagged method calls.

use vstd::prelude::*;

pub mod auth;
pub mod error;
pub mod jmap;
pub mod json;
pub mod state;
mod textenc;

use std::collections::hash_map::DefaultHasher;
use std::hash::Hasher;
use vstd::std_specs::hash::DefaultHasherAdditionalSpecFns;
use vstd::string::*;

verus! {

/// The hash the server stamps into a descriptor's state token: the standard
/// hasher run over the text's bytes, a pure function of the text.
pub fn calculate_hash(t: &String) -> (r: u64)
    ensures
        r == DefaultHasher::spec_finish(seq![vstd::utf8::encode_utf8(t@)]),
{
    let mut s = DefaultHasher::new();
    s.write(t.as_str().as_bytes());
    let r = s.finish();
    proof {
        assert(Seq::<Seq<u8>>::empty().push(vstd::utf8::encode_utf8(t@)) =~= seq![
            vstd::utf8::encode_utf8(t@),
        ]);
    }
    r
}

} // verus!
