//! Whether a database needs the genesis block written.

use crate::primitives::B256;
use vstd::prelude::*;

verus! {

/// What the database holds as the hash of block zero.
#[derive(Clone, Copy, Debug)]
pub enum StoredGenesis {
    /// No block zero is stored.
    Missing,
    /// The file that would hold the header of block zero does not exist.
    MissingStaticFileBlock,
    /// Block zero is stored with this hash.
    Stored(B256),
    /// Reading the database failed.
    ProviderFailed,
}

/// Why a database cannot be used with a chain.
#[derive(Clone, Copy, Debug)]
pub enum InitDatabaseError {
    /// The database holds another chain.
    GenesisHashMismatch { chainspec_hash: B256, database_hash: B256 },
    /// Reading the database failed.
    Provider,
}

/// Whether the genesis block has to be written: yes into a database without block
/// zero, no into one that holds the chain's genesis block. A database that holds
/// another genesis block, or cannot be read, is an error.
pub open spec fn genesis_needed(stored: StoredGenesis, chainspec_hash: B256) -> Result<
    bool,
    InitDatabaseError,
> {
    match stored {
        StoredGenesis::Missing | StoredGenesis::MissingStaticFileBlock => Ok(true),
        StoredGenesis::Stored(database_hash) => if database_hash == chainspec_hash {
            Ok(false)
        } else {
            Err(InitDatabaseError::GenesisHashMismatch { chainspec_hash, database_hash })
        },
        StoredGenesis::ProviderFailed => Err(InitDatabaseError::Provider),
    }
}

/// Whether the genesis block has to be written into the database.
pub fn ensure_genesis(stored: StoredGenesis, chainspec_hash: B256) -> (needed: Result<
    bool,
    InitDatabaseError,
>)
    ensures
        needed == genesis_needed(stored, chainspec_hash),
{
    match stored {
        StoredGenesis::Missing => Ok(true),
        StoredGenesis::MissingStaticFileBlock => Ok(true),
        StoredGenesis::Stored(database_hash) => {
            if database_hash == chainspec_hash {
                Ok(false)
            } else {
                Err(InitDatabaseError::GenesisHashMismatch { chainspec_hash, database_hash })
            }
        },
        StoredGenesis::ProviderFailed => Err(InitDatabaseError::Provider),
    }
}

/// Whether the header of the genesis block has to be appended to the header file:
/// yes where the file holds no block zero, no where it does. A file that cannot be read
/// is an error.
pub fn genesis_header_needed(stored: StoredGenesis) -> (needed: Result<bool, InitDatabaseError>)
    ensures
        needed == (match stored {
            StoredGenesis::Missing | StoredGenesis::MissingStaticFileBlock => Ok::<
                bool,
                InitDatabaseError,
            >(true),
            StoredGenesis::Stored(_) => Ok::<bool, InitDatabaseError>(false),
            StoredGenesis::ProviderFailed => Err::<bool, InitDatabaseError>(
                InitDatabaseError::Provider,
            ),
        }),
{
    match stored {
        StoredGenesis::Missing => Ok(true),
        StoredGenesis::MissingStaticFileBlock => Ok(true),
        StoredGenesis::Stored(_) => Ok(false),
        StoredGenesis::ProviderFailed => Err(InitDatabaseError::Provider),
    }
}

} // verus!
