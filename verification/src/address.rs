//! Identities and the addresses derived from them.

use solana_program::pubkey::Pubkey;
use vstd::prelude::*;

verus! {

/// The address of an account, a program or a signer: 32 bytes.
#[derive(Clone, Copy, Debug, PartialEq, Eq)]
pub struct Identity {
    pub bytes: [u8; 32],
}

impl View for Identity {
    type V = Seq<u8>;

    open spec fn view(&self) -> Seq<u8> {
        self.bytes@
    }
}

impl DeepView for Identity {
    type V = Seq<u8>;

    open spec fn deep_view(&self) -> Seq<u8> {
        self.bytes@
    }
}

impl Identity {
    /// The identity with the given bytes.
    pub fn new(bytes: [u8; 32]) -> (id: Identity)
        ensures
            id@ == bytes@,
    {
        Identity { bytes }
    }

    /// The identity held in `bytes`, if there are exactly 32 of them.
    pub fn from_slice(bytes: &[u8]) -> (id: Option<Identity>)
        ensures
            bytes@.len() == 32 <==> id is Some,
            id matches Some(i) ==> i@ == bytes@,
    {
        if bytes.len() != 32 {
            return None;
        }
        let mut out: [u8; 32] = [0u8; 32];
        let mut i: usize = 0;
        while i < 32
            invariant
                i <= 32,
                bytes@.len() == 32,
                forall|j: int| 0 <= j < i ==> out@[j] == bytes@[j],
            decreases 32 - i,
        {
            out[i] = bytes[i];
            i = i + 1;
        }
        assert(out@ =~= bytes@);
        Some(Identity { bytes: out })
    }

    /// The 32 bytes of this identity.
    pub fn to_vec(&self) -> (v: Vec<u8>)
        ensures
            v@ == self@,
    {
        let mut v: Vec<u8> = Vec::new();
        let mut i: usize = 0;
        while i < 32
            invariant
                i <= 32,
                v@.len() == i,
                forall|j: int| 0 <= j < i ==> v@[j] == self.bytes@[j],
            decreases 32 - i,
        {
            v.push(self.bytes[i]);
            i = i + 1;
        }
        assert(v@ =~= self@);
        v
    }

    /// Whether two identities hold the same bytes.
    pub fn same(&self, other: &Identity) -> (b: bool)
        ensures
            b == (self@ == other@),
    {
        let mut i: usize = 0;
        while i < 32
            invariant
                i <= 32,
                forall|j: int| 0 <= j < i ==> self.bytes@[j] == other.bytes@[j],
            decreases 32 - i,
        {
            if self.bytes[i] != other.bytes[i] {
                return false;
            }
            i = i + 1;
        }
        assert(self@ =~= other@);
        true
    }
}

/// The address and nonce that the ledger derives from `seeds` under the
/// program `program_id`, or `None` where it derives none.
pub uninterp spec fn program_address(seeds: Seq<Seq<u8>>, program_id: Seq<u8>) -> Option<
    (Seq<u8>, u8),
>;

/// Calls `solana_program::pubkey::Pubkey::try_find_program_address`.
///
/// Nothing is proved of it. The contract claims that what it returns is a
/// function of the seeds' bytes and the program's bytes alone, which this
/// crate calls `program_address`: the search hashes them with one nonce after
/// another, from 255 down, and keeps the first hash that is no curve point.
#[verifier::external_body]
fn find_program_address(seeds: &Vec<Vec<u8>>, program_id: &Identity) -> (found: Option<
    (Identity, u8),
>)
    ensures
        match found {
            Some((address, nonce)) => program_address(seeds.deep_view(), program_id@) == Some(
                (address@, nonce),
            ),
            None => program_address(seeds.deep_view(), program_id@) is None,
        },
{
    let parts: Vec<&[u8]> = seeds.iter().map(|seed| seed.as_slice()).collect();
    match Pubkey::try_find_program_address(&parts, &program_id.bytes.into()) {
        Some((address, nonce)) => Some((Identity { bytes: address.to_bytes() }, nonce)),
        None => None,
    }
}

/// An address that no private key stands behind: whoever presents its seeds
/// and nonce under the program `base` acts for it.
#[derive(Debug)]
pub struct DerivedAddress {
    pub base: Identity,
    pub seeds: Vec<Vec<u8>>,
    pub nonce: u8,
    pub address: Identity,
}

/// What a `DerivedAddress` holds, as plain sequences.
pub struct DerivedAddressView {
    pub base: Seq<u8>,
    pub seeds: Seq<Seq<u8>>,
    pub nonce: u8,
    pub address: Seq<u8>,
}

impl View for DerivedAddress {
    type V = DerivedAddressView;

    open spec fn view(&self) -> DerivedAddressView {
        DerivedAddressView {
            base: self.base@,
            seeds: self.seeds.deep_view(),
            nonce: self.nonce,
            address: self.address@,
        }
    }
}

impl DerivedAddressView {
    /// The seeds to present when acting for this address: its own seeds, then
    /// one more that holds the nonce.
    pub open spec fn signer_seeds(self) -> Seq<Seq<u8>> {
        self.seeds.push(seq![self.nonce])
    }
}

/// The derived address that a search result stands for.
pub open spec fn derived_from(
    seeds: Seq<Seq<u8>>,
    base: Seq<u8>,
    found: Option<(Seq<u8>, u8)>,
) -> Option<DerivedAddressView> {
    match found {
        Some((address, nonce)) => Some(DerivedAddressView { base, seeds, nonce, address }),
        None => None,
    }
}

/// The address derived from `seeds` under the program `base`.
pub open spec fn spec_derive(seeds: Seq<Seq<u8>>, base: Seq<u8>) -> Option<DerivedAddressView> {
    derived_from(seeds, base, program_address(seeds, base))
}

/// The view of an optional derived address.
pub open spec fn derived_view(address: Option<DerivedAddress>) -> Option<DerivedAddressView> {
    match address {
        Some(a) => Some(a@),
        None => None,
    }
}

impl DerivedAddress {
    /// Packs a search result with the seeds and the program it was made for.
    pub fn from_found(seeds: Vec<Vec<u8>>, base: &Identity, found: Option<(Identity, u8)>) -> (out:
        Option<DerivedAddress>)
        ensures
            derived_view(out) == derived_from(
                seeds.deep_view(),
                base@,
                match found {
                    Some((address, nonce)) => Some((address@, nonce)),
                    None => None,
                },
            ),
    {
        match found {
            Some((address, nonce)) => Some(DerivedAddress { base: *base, seeds, nonce, address }),
            None => None,
        }
    }

    /// Derives the address that belongs to `seeds` under the program `base`.
    /// The same seeds and program always give the same address and nonce.
    pub fn derive(seeds: Vec<Vec<u8>>, base: &Identity) -> (out: Option<DerivedAddress>)
        ensures
            derived_view(out) == spec_derive(seeds.deep_view(), base@),
    {
        let found = find_program_address(&seeds, base);
        DerivedAddress::from_found(seeds, base, found)
    }

    /// The seeds to present when acting for this address.
    pub fn signer_seeds(&self) -> (out: Vec<Vec<u8>>)
        ensures
            out.deep_view() == self@.signer_seeds(),
    {
        let mut out: Vec<Vec<u8>> = Vec::new();
        let n = self.seeds.len();
        let mut i: usize = 0;
        while i < n
            invariant
                i <= n,
                n == self.seeds@.len(),
                out@.len() == i,
                forall|j: int| 0 <= j < i ==> out@[j]@ == self.seeds@[j]@,
            decreases n - i,
        {
            let mut seed: Vec<u8> = Vec::new();
            crate::codec::append(&mut seed, self.seeds[i].as_slice());
            out.push(seed);
            i = i + 1;
        }
        let mut last: Vec<u8> = Vec::new();
        last.push(self.nonce);
        out.push(last);
        assert(out.deep_view() =~~= self@.signer_seeds());
        out
    }
}

} // verus!
