//! The account session: the signing identity and its sequence number.

use vstd::prelude::*;

use crate::codec;
use crate::errors::RegistryError;

verus! {

/// The signing identity of one run: key material, the address derived from
/// it, and the last known sequence number of that address.
pub struct Identity {
    /// The raw signing key, exactly 32 bytes.
    pub key: Vec<u8>,
    /// The account address, as `0x`-prefixed hex text.
    pub address: String,
    /// Monotonic per-account transaction counter; authoritative only after a
    /// refresh from the network.
    pub sequence_number: u64,
}

/// The mathematical content of an [`Identity`].
pub struct IdentityModel {
    pub key: Seq<u8>,
    pub address: Seq<char>,
    pub sequence_number: nat,
}

impl View for Identity {
    type V = IdentityModel;

    open spec fn view(&self) -> IdentityModel {
        IdentityModel {
            key: self.key@,
            address: self.address@,
            sequence_number: self.sequence_number as nat,
        }
    }
}

impl IdentityModel {
    /// A well-formed identity holds a full-length signing key.
    pub open spec fn wf(self) -> bool {
        self.key.len() == 32
    }
}

impl Identity {
    /// Decodes the hex signing key and pairs it with the derived address;
    /// fails with [`RegistryError::KeyDecodeError`] exactly when the key text
    /// is not well-formed hex denoting 32 bytes. The sequence number starts
    /// at zero and is authoritative only after [`Identity::refresh_sequence_number`].
    pub fn load(private_key_hex: &str, address: String) -> (r: Result<Identity, RegistryError>)
        ensures
            r is Ok <==> codec::hex_ok(private_key_hex@) && codec::hex_decoded(
                private_key_hex@,
            ).len() == 32,
            r is Ok ==> r->Ok_0@ == (IdentityModel {
                key: codec::hex_decoded(private_key_hex@),
                address: address@,
                sequence_number: 0,
            }),
            r is Ok ==> r->Ok_0@.wf(),
            r is Err ==> r->Err_0 == RegistryError::KeyDecodeError,
    {
        match codec::decode_private_key(private_key_hex) {
            Ok(key) => Ok(Identity { key, address, sequence_number: 0 }),
            Err(e) => Err(e),
        }
    }

    /// Replaces the in-memory sequence number with the authoritative value
    /// fetched from the network; touches nothing else.
    pub fn refresh_sequence_number(&mut self, fetched: u64)
        ensures
            final(self)@ == (IdentityModel { sequence_number: fetched as nat, ..old(self)@ }),
    {
        self.sequence_number = fetched;
    }

    /// Advances the in-memory sequence number by one, as the caller must
    /// after each accepted submission; touches nothing else.
    pub fn advance_sequence_number(&mut self)
        requires
            old(self).sequence_number < u64::MAX,
        ensures
            final(self)@ == (IdentityModel {
                sequence_number: old(self)@.sequence_number + 1,
                ..old(self)@
            }),
    {
        self.sequence_number = self.sequence_number + 1;
    }
}

} // verus!
