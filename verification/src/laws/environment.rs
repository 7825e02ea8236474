//! What the virtual machine is set up with.

use crate::database::Database;
use crate::error::{RethError, RethResult};
use crate::primitives::{BlockEnv, BlockHashOrNumber, CfgEnv, Header};
use crate::provider::BlockchainProvider;
use crate::traits::EvmEnvProvider;
use vstd::prelude::*;

verus! {

/// The settings and the block that the virtual machine sees are filled in by one fresh read of the
/// database, for exactly the block that is asked for. If the read does not start, nothing is
/// touched and its error is the answer.
pub proof fn the_environment_at_a_block_is_filled_by_the_database<DB: Database, Tree>(
    provider: BlockchainProvider<DB, Tree>,
    cfg: &mut CfgEnv,
    block_env: &mut BlockEnv,
    at: BlockHashOrNumber,
    filled: RethResult<()>,
)
    ensures
        call_ensures(
            <BlockchainProvider<DB, Tree> as EvmEnvProvider>::fill_env_at,
            (&provider, cfg, block_env, at),
            filled,
        ) ==> exists|read: RethResult<DB::Provider>| #[trigger]
            call_ensures(DB::provider, (&provider.db(),), read) && match read {
                Ok(read) => exists|cfg_read: &mut CfgEnv, block_env_read: &mut BlockEnv|
                    {
                        &&& *cfg_read == *old(cfg)
                        &&& *final(cfg_read) == *final(cfg)
                        &&& *block_env_read == *old(block_env)
                        &&& *final(block_env_read) == *final(block_env)
                        &&& #[trigger] call_ensures(
                            DB::Provider::fill_env_at,
                            (&read, cfg_read, block_env_read, at),
                            filled,
                        )
                    },
                Err(error) => {
                    &&& filled == Err::<(), RethError>(error)
                    &&& *final(cfg) == *old(cfg)
                    &&& *final(block_env) == *old(block_env)
                },
            },
        call_ensures(
            <BlockchainProvider<DB, Tree> as EvmEnvProvider>::fill_block_env_at,
            (&provider, block_env, at),
            filled,
        ) ==> exists|read: RethResult<DB::Provider>| #[trigger]
            call_ensures(DB::provider, (&provider.db(),), read) && match read {
                Ok(read) => exists|block_env_read: &mut BlockEnv|
                    {
                        &&& *block_env_read == *old(block_env)
                        &&& *final(block_env_read) == *final(block_env)
                        &&& #[trigger] call_ensures(
                            DB::Provider::fill_block_env_at,
                            (&read, block_env_read, at),
                            filled,
                        )
                    },
                Err(error) => {
                    &&& filled == Err::<(), RethError>(error)
                    &&& *final(block_env) == *old(block_env)
                },
            },
        call_ensures(
            <BlockchainProvider<DB, Tree> as EvmEnvProvider>::fill_cfg_env_at,
            (&provider, cfg, at),
            filled,
        ) ==> exists|read: RethResult<DB::Provider>| #[trigger]
            call_ensures(DB::provider, (&provider.db(),), read) && match read {
                Ok(read) => exists|cfg_read: &mut CfgEnv|
                    {
                        &&& *cfg_read == *old(cfg)
                        &&& *final(cfg_read) == *final(cfg)
                        &&& #[trigger] call_ensures(
                            DB::Provider::fill_cfg_env_at,
                            (&read, cfg_read, at),
                            filled,
                        )
                    },
                Err(error) => {
                    &&& filled == Err::<(), RethError>(error)
                    &&& *final(cfg) == *old(cfg)
                },
            },
{
}

/// The settings and the block that the virtual machine sees are filled in by one fresh read of the
/// database, for exactly the header that is given. If the read does not start, nothing is touched
/// and its error is the answer.
pub proof fn the_environment_of_a_header_is_filled_by_the_database<DB: Database, Tree>(
    provider: BlockchainProvider<DB, Tree>,
    cfg: &mut CfgEnv,
    block_env: &mut BlockEnv,
    header: Header,
    filled: RethResult<()>,
)
    ensures
        call_ensures(
            <BlockchainProvider<DB, Tree> as EvmEnvProvider>::fill_env_with_header,
            (&provider, cfg, block_env, &header),
            filled,
        ) ==> exists|read: RethResult<DB::Provider>| #[trigger]
            call_ensures(DB::provider, (&provider.db(),), read) && match read {
                Ok(read) => exists|cfg_read: &mut CfgEnv, block_env_read: &mut BlockEnv|
                    {
                        &&& *cfg_read == *old(cfg)
                        &&& *final(cfg_read) == *final(cfg)
                        &&& *block_env_read == *old(block_env)
                        &&& *final(block_env_read) == *final(block_env)
                        &&& #[trigger] call_ensures(
                            DB::Provider::fill_env_with_header,
                            (&read, cfg_read, block_env_read, &header),
                            filled,
                        )
                    },
                Err(error) => {
                    &&& filled == Err::<(), RethError>(error)
                    &&& *final(cfg) == *old(cfg)
                    &&& *final(block_env) == *old(block_env)
                },
            },
        call_ensures(
            <BlockchainProvider<DB, Tree> as EvmEnvProvider>::fill_block_env_with_header,
            (&provider, block_env, &header),
            filled,
        ) ==> exists|read: RethResult<DB::Provider>| #[trigger]
            call_ensures(DB::provider, (&provider.db(),), read) && match read {
                Ok(read) => exists|block_env_read: &mut BlockEnv|
                    {
                        &&& *block_env_read == *old(block_env)
                        &&& *final(block_env_read) == *final(block_env)
                        &&& #[trigger] call_ensures(
                            DB::Provider::fill_block_env_with_header,
                            (&read, block_env_read, &header),
                            filled,
                        )
                    },
                Err(error) => {
                    &&& filled == Err::<(), RethError>(error)
                    &&& *final(block_env) == *old(block_env)
                },
            },
        call_ensures(
            <BlockchainProvider<DB, Tree> as EvmEnvProvider>::fill_cfg_env_with_header,
            (&provider, cfg, &header),
            filled,
        ) ==> exists|read: RethResult<DB::Provider>| #[trigger]
            call_ensures(DB::provider, (&provider.db(),), read) && match read {
                Ok(read) => exists|cfg_read: &mut CfgEnv|
                    {
                        &&& *cfg_read == *old(cfg)
                        &&& *final(cfg_read) == *final(cfg)
                        &&& #[trigger] call_ensures(
                            DB::Provider::fill_cfg_env_with_header,
                            (&read, cfg_read, &header),
                            filled,
                        )
                    },
                Err(error) => {
                    &&& filled == Err::<(), RethError>(error)
                    &&& *final(cfg) == *old(cfg)
                },
            },
{
}

} // verus!
