use vstd::prelude::*;
use vstd::string::StringSliceAdditionalSpecFns;
use vstd::string::StrSliceExecFns;
use vstd::utf8::decode_utf8;
use vstd::utf8::encode_utf8;
use vstd::utf8::encode_utf8_decode_utf8;
use vstd::utf8::encode_utf8_valid_utf8;
use vstd::utf8::valid_utf8;

use crate::error::PairError;

verus! {

/// The human-readable (string) form of an account or contract address, used in
/// messages and queries.
#[derive(Debug, PartialEq, Eq, Hash)]
pub struct HumanAddr(pub String);

impl View for HumanAddr {
    type V = Seq<char>;

    open spec fn view(&self) -> Seq<char> {
        self.0@
    }
}

impl Clone for HumanAddr {
    fn clone(&self) -> (r: Self)
        ensures
            r == *self,
    {
        HumanAddr(self.0.clone())
    }
}

/// The canonical (binary) form of an address, the storage-efficient
/// representation kept in persisted records.
#[derive(Debug, PartialEq, Eq, Hash)]
pub struct CanonicalAddr(pub Vec<u8>);

impl View for CanonicalAddr {
    type V = Seq<u8>;

    open spec fn view(&self) -> Seq<u8> {
        self.0@
    }
}

impl CanonicalAddr {
    /// The underlying canonical bytes.
    pub fn as_slice(&self) -> (r: &[u8])
        ensures
            r@ == self@,
    {
        self.0.as_slice()
    }

    /// Byte-for-byte comparison of two canonical addresses.
    pub fn same_bytes(&self, other: &CanonicalAddr) -> (r: bool)
        ensures
            r == (self@ == other@),
    {
        if self.0.len() != other.0.len() {
            return false;
        }
        let n = self.0.len();
        let mut i: usize = 0;
        while i < n
            invariant
                i <= n,
                n == self@.len(),
                n == other@.len(),
                forall|j: int| 0 <= j < i ==> self@[j] == other@[j],
            decreases n - i,
        {
            if self.0[i] != other.0[i] {
                return false;
            }
            i += 1;
        }
        proof {
            assert(self@ =~= other@);
        }
        true
    }
}

impl Clone for CanonicalAddr {
    fn clone(&self) -> (r: Self)
        ensures
            r@ == self@,
    {
        let mut bytes: Vec<u8> = Vec::new();
        let n = self.0.len();
        let mut i: usize = 0;
        while i < n
            invariant
                i <= n,
                n == self@.len(),
                bytes@ == self@.subrange(0, i as int),
            decreases n - i,
        {
            bytes.push(self.0[i]);
            i += 1;
        }
        proof {
            assert(bytes@ =~= self@);
        }
        CanonicalAddr(bytes)
    }
}

/// The external address-canonicalization service: it turns human addresses
/// into canonical ones and back, and may reject an address as malformed.
///
/// The host environment supplies the implementation; [`Utf8Api`] is the
/// library's own.
pub trait AddressApi {
    /// Which human addresses the service accepts.
    spec fn canon_ok(&self, human: Seq<char>) -> bool;

    /// The canonical form of an accepted human address.
    spec fn canon_of(&self, human: Seq<char>) -> Seq<u8>;

    /// Which canonical byte strings the service accepts.
    spec fn human_ok(&self, canon: Seq<u8>) -> bool;

    /// The human form of an accepted canonical byte string.
    spec fn human_of(&self, canon: Seq<u8>) -> Seq<char>;

    /// Canonicalize a human address, or reject it as malformed.
    fn canonical_address(&self, human: &HumanAddr) -> (r: Result<CanonicalAddr, PairError>)
        ensures
            r is Ok <==> self.canon_ok(human@),
            r matches Ok(c) ==> c@ == self.canon_of(human@),
            r matches Err(e) ==> e == PairError::Address,
    ;

    /// Humanize a canonical address, or reject it as malformed.
    fn human_address(&self, canon: &CanonicalAddr) -> (r: Result<HumanAddr, PairError>)
        ensures
            r is Ok <==> self.human_ok(canon@),
            r matches Ok(h) ==> h@ == self.human_of(canon@),
            r matches Err(e) ==> e == PairError::Address,
    ;

    /// The reversibility every conforming service owes: the canonical form
    /// of an accepted address humanizes to an accepted address with the same
    /// canonical form. The service may normalize the human spelling, but the
    /// canonical form — what the contract persists — is stable across the
    /// round trip.
    proof fn canon_stable(&self, human: Seq<char>)
        requires
            self.canon_ok(human),
        ensures
            self.human_ok(self.canon_of(human)),
            self.canon_ok(self.human_of(self.canon_of(human))),
            self.canon_of(self.human_of(self.canon_of(human))) == self.canon_of(human),
    ;
}

/// The longest canonical address, in bytes, that [`Utf8Api`] accepts.
pub const MAX_ADDRESS_BYTES: usize = 90;

/// Relies on `String::from_utf8`: it succeeds exactly on valid UTF-8 input,
/// and then returns the string those bytes encode.
#[verifier::external_body]
fn string_from_utf8(bytes: &Vec<u8>) -> (r: Option<String>)
    ensures
        r is Some <==> valid_utf8(bytes@),
        r matches Some(s) ==> s@ == decode_utf8(bytes@),
{
    String::from_utf8(bytes.clone()).ok()
}

/// An address service whose canonical form is the UTF-8 encoding of the human
/// address, bounded by [`MAX_ADDRESS_BYTES`]. It rejects empty and over-long
/// addresses, and canonical bytes that are not valid UTF-8.
pub struct Utf8Api;

impl AddressApi for Utf8Api {
    open spec fn canon_ok(&self, human: Seq<char>) -> bool {
        1 <= encode_utf8(human).len() <= MAX_ADDRESS_BYTES
    }

    open spec fn canon_of(&self, human: Seq<char>) -> Seq<u8> {
        encode_utf8(human)
    }

    open spec fn human_ok(&self, canon: Seq<u8>) -> bool {
        1 <= canon.len() <= MAX_ADDRESS_BYTES && valid_utf8(canon)
    }

    open spec fn human_of(&self, canon: Seq<u8>) -> Seq<char> {
        decode_utf8(canon)
    }

    fn canonical_address(&self, human: &HumanAddr) -> (r: Result<CanonicalAddr, PairError>) {
        let bytes = human.0.as_str().as_bytes_vec();
        if bytes.len() == 0 || bytes.len() > MAX_ADDRESS_BYTES {
            Err(PairError::Address)
        } else {
            Ok(CanonicalAddr(bytes))
        }
    }

    fn human_address(&self, canon: &CanonicalAddr) -> (r: Result<HumanAddr, PairError>) {
        if canon.0.len() == 0 || canon.0.len() > MAX_ADDRESS_BYTES {
            return Err(PairError::Address);
        }
        match string_from_utf8(&canon.0) {
            Some(s) => Ok(HumanAddr(s)),
            None => Err(PairError::Address),
        }
    }

    proof fn canon_stable(&self, human: Seq<char>) {
        encode_utf8_valid_utf8(human);
        encode_utf8_decode_utf8(human);
    }
}

/// The library's codec round-trips: humanizing the canonical form of any
/// accepted human address yields that address back, unchanged.
pub proof fn lemma_utf8_api_round_trip(api: Utf8Api, human: Seq<char>)
    requires
        api.canon_ok(human),
    ensures
        api.human_ok(api.canon_of(human)),
        api.human_of(api.canon_of(human)) == human,
{
    encode_utf8_valid_utf8(human);
    encode_utf8_decode_utf8(human);
}

} // verus!
