//! Connection configuration and the reconnect policy state.
//!
//! [`ReconnectConfig`] is the policy object of the reconnect controller: it
//! records whether a dropped connection is being retried and holds the handle
//! of the pending scheduled retry so an explicit close can cancel it.
//! [`WsFactory`] collects what the lifecycle core is built from.

use vstd::prelude::*;

verus! {

/// Reconnect policy state: `Idle` until a dropped connection schedules a
/// retry (`Retrying`), and back to `Idle` once a connection opens again.
pub struct ReconnectConfig {
    is_reconnecting: bool,
    retry_task: Option<u64>,
}

impl ReconnectConfig {
    /// Whether a dropped connection is currently being retried.
    pub closed spec fn spec_is_reconnecting(&self) -> bool {
        self.is_reconnecting
    }

    /// The handle of the scheduled retry task, while one is pending.
    pub closed spec fn pending_retry(&self) -> Option<u64> {
        self.retry_task
    }

    pub fn new() -> (r: Self)
        ensures
            !r.spec_is_reconnecting(),
            r.pending_retry() is None,
    {
        ReconnectConfig { is_reconnecting: false, retry_task: None }
    }

    pub fn is_reconnecting(&self) -> (r: bool)
        ensures
            r == self.spec_is_reconnecting(),
    {
        self.is_reconnecting
    }

    /// Returns the policy to `Idle`; called exactly once per successful
    /// open. Any pending retry handle is forgotten: the task that led here
    /// has already fired.
    pub fn reset(&mut self)
        ensures
            !final(self).spec_is_reconnecting(),
            final(self).pending_retry() is None,
    {
        self.is_reconnecting = false;
        self.retry_task = None;
    }

    /// Records the handle of a retry task the host has just scheduled; the
    /// policy is now `Retrying`.
    pub fn set_retry_cb(&mut self, cb: u64)
        ensures
            final(self).spec_is_reconnecting(),
            final(self).pending_retry() == Some(cb),
    {
        self.is_reconnecting = true;
        self.retry_task = Some(cb);
    }

    /// Takes the pending retry handle, if any, so the caller can cancel the
    /// task; the reconnecting flag is untouched.
    pub fn take_retry_cb(&mut self) -> (r: Option<u64>)
        ensures
            r == old(self).pending_retry(),
            final(self).pending_retry() is None,
            final(self).spec_is_reconnecting() == old(self).spec_is_reconnecting(),
    {
        let task = self.retry_task;
        self.retry_task = None;
        task
    }
}

impl Default for ReconnectConfig {
    fn default() -> (r: Self)
        ensures
            !r.spec_is_reconnecting(),
            r.pending_retry() is None,
    {
        ReconnectConfig::new()
    }
}

/// What a connection is built from: the target address and the reconnect
/// policy, if reconnection is enabled. A fresh factory enables reconnection,
/// as a long-lived background client wants.
pub struct WsFactory {
    pub url: String,
    pub reconnect: Option<ReconnectConfig>,
}

impl WsFactory {
    pub fn new(url: String) -> (r: Self)
        ensures
            r.url@ == url@,
            (r.reconnect matches Some(c) && !c.spec_is_reconnecting() && c.pending_retry()
                is None),
    {
        WsFactory { url, reconnect: Some(ReconnectConfig::new()) }
    }

    /// Replaces the reconnect policy.
    pub fn reconnect(self, cfg: ReconnectConfig) -> (r: Self)
        ensures
            r.url@ == self.url@,
            r.reconnect == Some(cfg),
    {
        WsFactory { url: self.url, reconnect: Some(cfg) }
    }

    /// Disables reconnection: a dropped connection stays dropped.
    pub fn no_reconnect(self) -> (r: Self)
        ensures
            r.url@ == self.url@,
            r.reconnect is None,
    {
        WsFactory { url: self.url, reconnect: None }
    }
}

} // verus!
