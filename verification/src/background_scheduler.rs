//! The launch settings the paired app pushes to the daemon, kept for the
//! daemon's background passes. The daemon invents no defaults and does not
//! persist them: it keeps the snapshot with the highest version it has seen.

use vstd::prelude::*;
use crate::protocol::{CoordinationPutLaunchSettingsParams, CoordinationPutLaunchSettingsResult};

verus! {

/// The snapshot kept after `incoming` is offered to a store holding
/// `current`: the incoming one, unless the kept one has a higher version.
pub open spec fn after_put(
    current: Option<CoordinationPutLaunchSettingsParams>,
    incoming: CoordinationPutLaunchSettingsParams,
) -> Option<CoordinationPutLaunchSettingsParams> {
    match current {
        Some(c) => if c.version > incoming.version {
            current
        } else {
            Some(incoming)
        },
        None => Some(incoming),
    }
}

/// The answer to offering `incoming` to a store holding `current`: whether
/// it was taken, and the version now kept.
pub open spec fn put_answer(
    current: Option<CoordinationPutLaunchSettingsParams>,
    incoming: CoordinationPutLaunchSettingsParams,
) -> CoordinationPutLaunchSettingsResult {
    match current {
        Some(c) => if c.version > incoming.version {
            CoordinationPutLaunchSettingsResult { accepted: false, version: c.version }
        } else {
            CoordinationPutLaunchSettingsResult { accepted: true, version: incoming.version }
        },
        None => CoordinationPutLaunchSettingsResult { accepted: true, version: incoming.version },
    }
}

/// Process-local launch settings pushed by the paired app.
pub struct LaunchSettingsStore {
    current: Option<CoordinationPutLaunchSettingsParams>,
}

impl View for LaunchSettingsStore {
    type V = Option<CoordinationPutLaunchSettingsParams>;

    closed spec fn view(&self) -> Option<CoordinationPutLaunchSettingsParams> {
        self.current
    }
}

impl Default for LaunchSettingsStore {
    /// A store that has been pushed nothing.
    fn default() -> (r: Self)
        ensures
            r@ is None,
    {
        LaunchSettingsStore { current: None }
    }
}

/// A copy of a launch-settings snapshot.
pub fn copy_launch_settings(p: &CoordinationPutLaunchSettingsParams) -> (r: CoordinationPutLaunchSettingsParams)
    ensures
        r == *p,
{
    CoordinationPutLaunchSettingsParams {
        version: p.version,
        cli_commands: p.cli_commands.copy(),
        tmux_layout: p.tmux_layout.clone(),
    }
}

impl LaunchSettingsStore {
    /// Offer a snapshot: it is kept unless the kept one has a higher version
    /// (an equal version replaces it). The answer says whether it was kept
    /// and which version the store now holds.
    pub fn put(&mut self, incoming: CoordinationPutLaunchSettingsParams) -> (r: CoordinationPutLaunchSettingsResult)
        ensures
            final(self)@ == after_put(old(self)@, incoming),
            r == put_answer(old(self)@, incoming),
    {
        let stale = match &self.current {
            Some(snapshot) => snapshot.version > incoming.version,
            None => false,
        };
        if stale {
            let version = match &self.current {
                Some(snapshot) => snapshot.version,
                None => 0,
            };
            return CoordinationPutLaunchSettingsResult { accepted: false, version };
        }
        let version = incoming.version;
        self.current = Some(incoming);
        CoordinationPutLaunchSettingsResult { accepted: true, version }
    }

    /// The snapshot kept, if any.
    pub fn get(&self) -> (r: Option<CoordinationPutLaunchSettingsParams>)
        ensures
            r == self@,
    {
        match &self.current {
            Some(snapshot) => Some(copy_launch_settings(snapshot)),
            None => None,
        }
    }
}

/// Highest version wins: after a put the store keeps a snapshot whose
/// version is the higher of the kept and the offered ones, the offered one
/// when it is not lower, and answers with that version.
pub proof fn lemma_highest_version_wins(
    current: Option<CoordinationPutLaunchSettingsParams>,
    incoming: CoordinationPutLaunchSettingsParams,
)
    ensures
        after_put(current, incoming) is Some,
        ({
            let kept = after_put(current, incoming)->Some_0;
            let stale = current is Some && current->Some_0.version > incoming.version;
            &&& kept.version >= incoming.version
            &&& current is Some ==> kept.version >= current->Some_0.version
            &&& stale ==> (kept == current->Some_0 && !put_answer(current, incoming).accepted)
            &&& !stale ==> (kept == incoming && put_answer(current, incoming).accepted)
            &&& put_answer(current, incoming).version == kept.version
        }),
{
}

/// A stale snapshot changes nothing, however many are offered after the
/// newest one.
pub proof fn lemma_stale_put_is_ignored(
    kept: CoordinationPutLaunchSettingsParams,
    stale: CoordinationPutLaunchSettingsParams,
)
    requires
        stale.version < kept.version,
    ensures
        after_put(Some(kept), stale) == Some(kept),
        put_answer(Some(kept), stale) == (CoordinationPutLaunchSettingsResult { accepted: false, version: kept.version }),
{
}

} // verus!
