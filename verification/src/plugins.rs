//! The decision algebra, the shared policy state, and the policy interface.
//!
//! For each incoming statement batch the hosting router invokes every
//! registered policy component's pre-hook in fixed registration order; the
//! first outcome other than `PluginOutput::Allow` wins and short-circuits
//! the remaining pre-hooks. When the batch was actually dispatched to a
//! backend, every component's post-hook then observes the backend's
//! per-statement responses, in the same order; a deny or an intercept skips
//! backend dispatch and with it all post-hooks for that batch.

use vstd::prelude::*;

use crate::query_cache::QueryCacheImpl;
use crate::statement::Statement;

verus! {

/// A fault inside a policy component itself. Unlike a deny, which is a
/// normal policy decision, this aborts processing of the batch and the
/// client is shown a generic failure.
#[derive(Clone, Copy, PartialEq, Eq, Structural, Debug)]
pub enum Error {
    /// The component malfunctioned in a way it cannot recover from.
    Internal,
}

/// The outcome a policy component produces for one statement batch; exactly
/// one variant per invocation.
pub enum PluginOutput {
    /// No opinion; processing proceeds unmodified.
    Allow,
    /// Abort: the batch is not sent to a backend, and the reason is shown to
    /// the client as a failed-command notice.
    Deny(String),
    /// Replace the batch before it reaches the backend.
    Overwrite(Vec<Statement>),
    /// Bypass the backend entirely: the buffer is a complete,
    /// protocol-correct response written directly to the client connection.
    Intercept(bytes::BytesMut),
}

/// The single, process-lifetime state shared by every connection the proxy
/// serves. The host serializes mutation across its concurrently handled
/// connection tasks with a mutual-exclusion guard around this value, held
/// only across straight-line hook code and never across a suspension point.
pub struct PluginState {
    /// Sub-state of the query result cache component.
    pub query_cache: QueryCacheImpl,
}

impl PluginState {
    /// Fresh shared state with an empty result cache.
    pub fn new() -> (s: Self)
        ensures
            s.query_cache@ == Map::<Seq<u8>, Seq<Seq<u8>>>::empty(),
    {
        PluginState { query_cache: QueryCacheImpl::new() }
    }
}

/// The capability contract every policy component implements.
///
/// Each implementation fixes what its hooks guarantee through the two spec
/// functions, so a caller holding a concrete component knows exactly how a
/// hook relates the shared state before and after the call to the outcome.
///
/// Components outside this crate implement the same interface; what the
/// router may assume of them: a table-access guard whose pre-hook denies a
/// statement referencing a restricted relation (system catalogs, explicitly
/// blocked tables) or a blocked statement class such as destructive DDL,
/// allows everything else, and retains no state between calls; a generic
/// interceptor whose pre-hook may answer matching statement patterns with an
/// arbitrary precomputed response, unrelated to the result cache; and a
/// cache prewarmer that issues its warm-up statements at connection
/// establishment, outside the per-query path — its hooks here are no-ops
/// that always allow.
pub trait Plugin: Sized {
    /// What this component's pre-hook guarantees, relating the component and
    /// the shared state before and after the call to the produced outcome.
    spec fn run_ens(
        pre: Self,
        post: Self,
        pre_state: PluginState,
        post_state: PluginState,
        ast: Seq<Statement>,
        r: Result<PluginOutput, Error>,
    ) -> bool;

    /// What this component's post-hook guarantees.
    spec fn run_post_ens(
        pre: Self,
        post: Self,
        pre_state: PluginState,
        post_state: PluginState,
        ast: Seq<Statement>,
        responses: Seq<Vec<bytes::BytesMut>>,
    ) -> bool;

    /// Pre-hook: runs before the batch is dispatched to a backend and
    /// produces this component's outcome for it. Free of external side
    /// effects except through `plugin_state`.
    fn run(&mut self, plugin_state: &mut PluginState, ast: &Vec<Statement>) -> (r: Result<
        PluginOutput,
        Error,
    >)
        ensures
            Self::run_ens(
                *old(self),
                *final(self),
                *old(plugin_state),
                *final(plugin_state),
                ast@,
                r,
            ),
    ;

    /// Post-hook: observes the backend's responses, positionally aligned
    /// with the batch. Used only to update `plugin_state`; it has no failure
    /// channel, so implementations swallow their own faults rather than
    /// fail the request.
    fn run_post(
        &mut self,
        plugin_state: &mut PluginState,
        ast: &Vec<Statement>,
        responses: &Vec<Vec<bytes::BytesMut>>,
    )
        ensures
            Self::run_post_ens(
                *old(self),
                *final(self),
                *old(plugin_state),
                *final(plugin_state),
                ast@,
                responses@,
            ),
    ;
}

} // verus!
