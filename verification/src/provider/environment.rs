//! What the virtual machine needs to run a block, from the database.

use crate::database::Database;
use crate::error::{RethError, RethResult};
use crate::primitives::{BlockEnv, BlockHashOrNumber, CfgEnv, Header};
use crate::provider::BlockchainProvider;
use crate::traits::EvmEnvProvider;
use vstd::prelude::*;

verus! {

/// `done` and `after` are what a fresh read of `db` may make of `before` by `change`. If the read
/// fails to start, everything stays as it is.
pub open spec fn changes<DB: Database, E>(
    db: DB,
    change: spec_fn(DB::Provider, E, E, RethResult<()>) -> bool,
    before: E,
    after: E,
    done: RethResult<()>,
) -> bool {
    exists|provider: RethResult<DB::Provider>| #[trigger]
        call_ensures(DB::provider, (&db,), provider) && match provider {
            Ok(provider) => change(provider, before, after, done),
            Err(error) => done == Err::<(), RethError>(error) && after == before,
        }
}

impl<DB: Database, Tree> EvmEnvProvider for BlockchainProvider<DB, Tree> {
    fn fill_env_at(
        &self,
        cfg: &mut CfgEnv,
        block_env: &mut BlockEnv,
        at: BlockHashOrNumber,
    ) -> (filled: RethResult<()>)
        ensures
            changes(
                self.db(),
                |
                    provider: DB::Provider,
                    before: (CfgEnv, BlockEnv),
                    after: (CfgEnv, BlockEnv),
                    filled: RethResult<()>,
                |
                    exists|cfg: &mut CfgEnv, block_env: &mut BlockEnv|
                        {
                            &&& (*cfg, *block_env) == before
                            &&& (*final(cfg), *final(block_env)) == after
                            &&& #[trigger] call_ensures(
                                DB::Provider::fill_env_at,
                                (&provider, cfg, block_env, at),
                                filled,
                            )
                        },
                (*old(cfg), *old(block_env)),
                (*final(cfg), *final(block_env)),
                filled,
            ),
    {
        self.provider()?.fill_env_at(cfg, block_env, at)
    }

    fn fill_env_with_header(
        &self,
        cfg: &mut CfgEnv,
        block_env: &mut BlockEnv,
        header: &Header,
    ) -> (filled: RethResult<()>)
        ensures
            changes(
                self.db(),
                |
                    provider: DB::Provider,
                    before: (CfgEnv, BlockEnv),
                    after: (CfgEnv, BlockEnv),
                    filled: RethResult<()>,
                |
                    exists|cfg: &mut CfgEnv, block_env: &mut BlockEnv|
                        {
                            &&& (*cfg, *block_env) == before
                            &&& (*final(cfg), *final(block_env)) == after
                            &&& #[trigger] call_ensures(
                                DB::Provider::fill_env_with_header,
                                (&provider, cfg, block_env, header),
                                filled,
                            )
                        },
                (*old(cfg), *old(block_env)),
                (*final(cfg), *final(block_env)),
                filled,
            ),
    {
        self.provider()?.fill_env_with_header(cfg, block_env, header)
    }

    fn fill_block_env_at(&self, block_env: &mut BlockEnv, at: BlockHashOrNumber) -> (filled:
        RethResult<()>)
        ensures
            changes(
                self.db(),
                |provider: DB::Provider, before: BlockEnv, after: BlockEnv, filled: RethResult<()>|
                    exists|block_env: &mut BlockEnv|
                        {
                            &&& *block_env == before
                            &&& *final(block_env) == after
                            &&& #[trigger] call_ensures(
                                DB::Provider::fill_block_env_at,
                                (&provider, block_env, at),
                                filled,
                            )
                        },
                *old(block_env),
                *final(block_env),
                filled,
            ),
    {
        self.provider()?.fill_block_env_at(block_env, at)
    }

    fn fill_block_env_with_header(&self, block_env: &mut BlockEnv, header: &Header) -> (filled:
        RethResult<()>)
        ensures
            changes(
                self.db(),
                |provider: DB::Provider, before: BlockEnv, after: BlockEnv, filled: RethResult<()>|
                    exists|block_env: &mut BlockEnv|
                        {
                            &&& *block_env == before
                            &&& *final(block_env) == after
                            &&& #[trigger] call_ensures(
                                DB::Provider::fill_block_env_with_header,
                                (&provider, block_env, header),
                                filled,
                            )
                        },
                *old(block_env),
                *final(block_env),
                filled,
            ),
    {
        self.provider()?.fill_block_env_with_header(block_env, header)
    }

    fn fill_cfg_env_at(&self, cfg: &mut CfgEnv, at: BlockHashOrNumber) -> (filled: RethResult<()>)
        ensures
            changes(
                self.db(),
                |provider: DB::Provider, before: CfgEnv, after: CfgEnv, filled: RethResult<()>|
                    exists|cfg: &mut CfgEnv|
                        {
                            &&& *cfg == before
                            &&& *final(cfg) == after
                            &&& #[trigger] call_ensures(
                                DB::Provider::fill_cfg_env_at,
                                (&provider, cfg, at),
                                filled,
                            )
                        },
                *old(cfg),
                *final(cfg),
                filled,
            ),
    {
        self.provider()?.fill_cfg_env_at(cfg, at)
    }

    fn fill_cfg_env_with_header(&self, cfg: &mut CfgEnv, header: &Header) -> (filled: RethResult<
        (),
    >)
        ensures
            changes(
                self.db(),
                |provider: DB::Provider, before: CfgEnv, after: CfgEnv, filled: RethResult<()>|
                    exists|cfg: &mut CfgEnv|
                        {
                            &&& *cfg == before
                            &&& *final(cfg) == after
                            &&& #[trigger] call_ensures(
                                DB::Provider::fill_cfg_env_with_header,
                                (&provider, cfg, header),
                                filled,
                            )
                        },
                *old(cfg),
                *final(cfg),
                filled,
            ),
    {
        self.provider()?.fill_cfg_env_with_header(cfg, header)
    }
}

} // verus!
