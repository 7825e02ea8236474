//! Views of the state.

use crate::error::RethResult;
use vstd::prelude::*;

verus! {

/// The state that the blocks of a side chain make of the state below them.
#[derive(Debug)]
pub struct BundleStateProvider<S, B> {
    /// The state that the side chain starts from.
    pub state_provider: S,
    /// What the side chain changes.
    pub post_state_data: B,
}

impl<S, B> BundleStateProvider<S, B> {
    /// Puts `post_state_data` on top of `state_provider`.
    pub fn new(state_provider: S, post_state_data: B) -> (provider: Self)
        ensures
            provider == (BundleStateProvider { state_provider, post_state_data }),
    {
        BundleStateProvider { state_provider, post_state_data }
    }
}

/// A view of the state after some block.
#[derive(Debug)]
pub enum StateProviderBox<S, B> {
    /// After a stored block.
    Stored(S),
    /// After a block of a side chain.
    Bundle(BundleStateProvider<S, B>),
}

/// A stored state, as a view.
pub open spec fn spec_stored_state<S, B>(state: RethResult<S>) -> RethResult<
    StateProviderBox<S, B>,
> {
    match state {
        Ok(state) => Ok(StateProviderBox::Stored(state)),
        Err(error) => Err(error),
    }
}

/// A stored state, as a view. An error stays as it is.
pub fn stored_state<S, B>(state: RethResult<S>) -> (view: RethResult<StateProviderBox<S, B>>)
    ensures
        view == spec_stored_state::<S, B>(state),
{
    match state {
        Ok(state) => Ok(StateProviderBox::Stored(state)),
        Err(error) => Err(error),
    }
}

/// What `data` makes of `base`, as a view.
pub open spec fn spec_bundle_state<S, B>(base: RethResult<S>, data: B) -> RethResult<
    StateProviderBox<S, B>,
> {
    match base {
        Ok(base) => Ok(
            StateProviderBox::Bundle(
                BundleStateProvider { state_provider: base, post_state_data: data },
            ),
        ),
        Err(error) => Err(error),
    }
}

/// What `data` makes of `base`, as a view. If there is no `base`, its error stays as it is.
pub fn bundle_state<S, B>(base: RethResult<S>, data: B) -> (view: RethResult<
    StateProviderBox<S, B>,
>)
    ensures
        view == spec_bundle_state(base, data),
{
    match base {
        Ok(base) => Ok(StateProviderBox::Bundle(BundleStateProvider::new(base, data))),
        Err(error) => Err(error),
    }
}

/// The stored state if there is one, else the pending one, else the error of the stored one.
pub open spec fn spec_stored_or_pending<V>(
    stored: RethResult<V>,
    pending: RethResult<Option<V>>,
) -> RethResult<V> {
    match (stored, pending) {
        (Err(_), Ok(Some(pending))) => Ok(pending),
        _ => stored,
    }
}

/// The stored state if there is one, else the pending one, else the error of the stored one. What
/// went wrong with the pending one is never reported.
pub fn stored_or_pending<V>(stored: RethResult<V>, pending: RethResult<Option<V>>) -> (state:
    RethResult<V>)
    ensures
        state == spec_stored_or_pending(stored, pending),
{
    match stored {
        Ok(state) => Ok(state),
        Err(error) => match pending {
            Ok(Some(pending)) => Ok(pending),
            _ => Err(error),
        },
    }
}

} // verus!
