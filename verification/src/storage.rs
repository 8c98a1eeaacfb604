//! Decisions the signer takes when it prepares its secure storage at
//! start-up.

use vstd::prelude::*;

verus! {

/// Lower-case hexadecimal digits, indexed by value.
pub const HEX_DIGITS_LOWER: [char; 16] = [
    '0', '1', '2', '3', '4', '5', '6', '7', '8', '9', 'a', 'b', 'c', 'd', 'e', 'f',
];

/// Lower-case hexadecimal text of `data`: two digits per byte, high nibble
/// first.
pub open spec fn hex_lower(data: Seq<u8>) -> Seq<char>
    decreases data.len(),
{
    if data.len() == 0 {
        Seq::empty()
    } else {
        seq![HEX_DIGITS_LOWER@[(data[0] / 16) as int], HEX_DIGITS_LOWER@[(data[0] % 16) as int]]
            + hex_lower(data.drop_first())
    }
}

/// Hexadecimal text of `data` (`hex::encode`): lower-case, two digits per
/// byte, high nibble first.
#[verifier::external_body]
fn hex_encode(data: &[u8]) -> (s: String)
    ensures
        s@ == hex_lower(data@),
{
    hex::encode(data)
}

/// Name of the storage entry holding the consensus key.
pub open spec fn consensus_key_name() -> Seq<char> {
    "consensus"@
}

/// The storage entry under which an additional consensus key, whose public
/// key has the bytes `public_key`, is installed: the consensus key's entry
/// name, an underscore and the public key in hexadecimal.
pub fn overriding_consensus_key_name(public_key: &[u8]) -> (s: String)
    ensures
        s@ == consensus_key_name() + "_"@ + hex_lower(public_key@),
{
    let mut s = String::from_str("consensus");
    s.append("_");
    let pk_hex = hex_encode(public_key);
    s.append(pk_hex.as_str());
    s
}

/// Why the signer cannot prepare its storage.
#[derive(Clone, Copy, Debug, PartialEq, Eq)]
pub enum StartupError {
    /// The identity blob has no account address.
    AccountAddressMissing,
    /// The identity blob has no consensus key.
    ConsensusKeyMissing,
    /// No initial configuration is given and the storage holds no identity.
    StorageNotInitialized,
}

impl StartupError {
    /// The text of the error.
    pub open spec fn text(self) -> Seq<char> {
        match self {
            StartupError::AccountAddressMissing => "AccountAddress needed for safety rules"@,
            StartupError::ConsensusKeyMissing => "Consensus key needed for safety rules"@,
            StartupError::StorageNotInitialized => "Safety rules storage is not initialized, provide an initial config"@,
        }
    }

    /// The text of the error.
    pub fn message(&self) -> (s: String)
        ensures
            s@ == self.text(),
    {
        match self {
            StartupError::AccountAddressMissing => String::from_str(
                "AccountAddress needed for safety rules",
            ),
            StartupError::ConsensusKeyMissing => String::from_str(
                "Consensus key needed for safety rules",
            ),
            StartupError::StorageNotInitialized => String::from_str(
                "Safety rules storage is not initialized, provide an initial config",
            ),
        }
    }
}

/// The account address and consensus key with which storage is initialised
/// from an identity blob; both are needed, the address being checked first.
pub fn require_identity<A, K>(account_address: Option<A>, consensus_key: Option<K>) -> (r: Result<
    (A, K),
    StartupError,
>)
    ensures
        match (account_address, consensus_key) {
            (Some(a), Some(k)) => r == Ok::<(A, K), StartupError>((a, k)),
            (None, _) => r == Err::<(A, K), StartupError>(StartupError::AccountAddressMissing),
            (Some(_), None) => r == Err::<(A, K), StartupError>(StartupError::ConsensusKeyMissing),
        },
{
    match account_address {
        None => Err(StartupError::AccountAddressMissing),
        Some(a) => match consensus_key {
            None => Err(StartupError::ConsensusKeyMissing),
            Some(k) => Ok((a, k)),
        },
    }
}

/// Whether storage that was not initialised from files may be used: only
/// when it already knows the validator (its author).
pub fn require_initialized(author_known: bool) -> (r: Result<(), StartupError>)
    ensures
        author_known ==> r is Ok,
        !author_known ==> r == Err::<(), StartupError>(StartupError::StorageNotInitialized),
{
    if !author_known {
        return Err(StartupError::StorageNotInitialized);
    }
    Ok(())
}

} // verus!
