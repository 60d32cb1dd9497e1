//! Account addresses and the two computations on them that the chain's
//! own library performs: reading an address from text, and deriving the
//! address that a program owns under given seeds.

use crate::error::TradeError;
use solana_sdk::pubkey::Pubkey;
use std::str::FromStr;
use vstd::prelude::*;
use vstd::std_specs::cmp::PartialEqSpecImpl;

verus! {

/// The 32 bytes that name an account.
#[derive(Debug, Clone, Copy)]
pub struct Address {
    pub bytes: [u8; 32],
}

impl View for Address {
    type V = Seq<u8>;

    open spec fn view(&self) -> Seq<u8> {
        self.bytes@
    }
}

impl PartialEq for Address {
    fn eq(&self, other: &Address) -> (equal: bool) {
        let mut index: usize = 0;
        while index < 32
            invariant
                index <= 32,
                forall|i: int| 0 <= i < index ==> self.bytes@[i] == other.bytes@[i],
            decreases 32 - index,
        {
            if self.bytes[index] != other.bytes[index] {
                return false;
            }
            index += 1;
        }
        proof {
            assert(self.bytes@ =~= other.bytes@);
        }
        true
    }
}

impl PartialEqSpecImpl for Address {
    open spec fn obeys_eq_spec() -> bool {
        true
    }

    open spec fn eq_spec(&self, other: &Address) -> bool {
        self.bytes@ == other.bytes@
    }
}

impl Eq for Address {}

/// Two addresses with the same bytes are the same address.
pub proof fn lemma_address_by_view(a: Address, b: Address)
    ensures
        a@ == b@ <==> a == b,
        a@.len() == 32,
{
    if a@ == b@ {
        assert(a.bytes =~= b.bytes);
    }
}

/// The address spelled by 32 bytes.
pub open spec fn address_of(bytes: Seq<u8>) -> Address {
    Address {
        bytes: [
            bytes[0], bytes[1], bytes[2], bytes[3], bytes[4], bytes[5], bytes[6], bytes[7],
            bytes[8], bytes[9], bytes[10], bytes[11], bytes[12], bytes[13], bytes[14], bytes[15],
            bytes[16], bytes[17], bytes[18], bytes[19], bytes[20], bytes[21], bytes[22], bytes[23],
            bytes[24], bytes[25], bytes[26], bytes[27], bytes[28], bytes[29], bytes[30], bytes[31],
        ],
    }
}

/// An address is the address that its own bytes spell, and 32 bytes
/// spell an address with those bytes.
pub proof fn lemma_address_of(bytes: Seq<u8>, address: Address)
    ensures
        bytes.len() == 32 ==> address_of(bytes)@ == bytes,
        address_of(address@) == address,
{
    if bytes.len() == 32 {
        assert(address_of(bytes)@ =~= bytes);
    }
    assert(address_of(address@).bytes =~= address.bytes);
}

/// The address that `Pubkey::from_str` reads from a text, if it reads one.
pub uninterp spec fn parsed_address(text: Seq<char>) -> Option<Seq<u8>>;

/// The address that `Pubkey::try_find_program_address` derives for a
/// program from a list of seeds, if it finds one.
pub uninterp spec fn program_address(seeds: Seq<Seq<u8>>, program_id: Seq<u8>) -> Option<Seq<u8>>;

/// Calls `Pubkey::from_str`, which decodes base58 text of exactly 32
/// bytes. Trusted: the result is the text's decoding, the same for the
/// same text, and absent where the decoder reports a wrong size or an
/// invalid character.
#[verifier::external_body]
pub(crate) fn parse_address(text: &str) -> (address: Option<Address>)
    ensures
        address matches Some(a) ==> parsed_address(text@) == Some(a@),
        address is None ==> parsed_address(text@) is None,
{
    match Pubkey::from_str(text) {
        Ok(key) => Some(Address { bytes: key.to_bytes() }),
        Err(_) => None,
    }
}

/// Calls `Pubkey::try_find_program_address`, which hashes the seeds, a
/// bump byte and the program's address until the hash is off the curve.
/// Trusted: the result depends on the seeds and the program alone, and
/// is absent where no bump byte gives an address or a seed is refused.
#[verifier::external_body]
pub(crate) fn find_program_address(seeds: &Vec<Vec<u8>>, program_id: &Address) -> (address: Option<Address>)
    ensures
        address matches Some(a) ==> program_address(seeds.deep_view(), program_id@) == Some(a@),
        address is None ==> program_address(seeds.deep_view(), program_id@) is None,
{
    let slices: Vec<&[u8]> = seeds.iter().map(|seed| seed.as_slice()).collect();
    let program = Pubkey::new_from_array(program_id.bytes);
    match Pubkey::try_find_program_address(&slices, &program) {
        Some((key, _)) => Some(Address { bytes: key.to_bytes() }),
        None => None,
    }
}

/// The address that a text spells, if it spells one.
pub open spec fn parsed(text: Seq<char>) -> Option<Address> {
    match parsed_address(text) {
        Some(bytes) => Some(address_of(bytes)),
        None => None,
    }
}

/// The address that a program owns under a list of seeds, if there is
/// one.
pub open spec fn derived(seeds: Seq<Seq<u8>>, program_id: Seq<u8>) -> Option<Address> {
    match program_address(seeds, program_id) {
        Some(bytes) => Some(address_of(bytes)),
        None => None,
    }
}

impl Address {
    /// Reads a base58 address.
    pub fn parse(text: &str) -> (address: Result<Address, TradeError>)
        ensures
            address == match parsed(text@) {
                Some(a) => Ok::<Address, TradeError>(a),
                None => Err::<Address, TradeError>(TradeError::AddressFormatError),
            },
    {
        match parse_address(text) {
            Some(address) => {
                proof {
                    lemma_address_of(address@, address);
                }
                Ok(address)
            },
            None => Err(TradeError::AddressFormatError),
        }
    }

    /// The address that `program_id` owns under `seeds`.
    pub fn derive(seeds: &Vec<Vec<u8>>, program_id: &Address) -> (address: Option<Address>)
        ensures
            address == derived(seeds.deep_view(), program_id@),
    {
        let address = find_program_address(seeds, program_id);
        proof {
            if let Some(a) = address {
                lemma_address_of(a@, a);
            }
        }
        address
    }

    /// The bytes of the address, as a seed.
    pub fn to_vec(&self) -> (bytes: Vec<u8>)
        ensures
            bytes@ == self@,
    {
        let mut bytes: Vec<u8> = Vec::new();
        let mut index: usize = 0;
        while index < 32
            invariant
                index <= 32,
                bytes@.len() == index,
                forall|i: int| 0 <= i < index ==> bytes@[i] == self.bytes@[i],
            decreases 32 - index,
        {
            bytes.push(self.bytes[index]);
            index += 1;
        }
        assert(bytes@ =~= self@);
        bytes
    }
}

} // verus!

