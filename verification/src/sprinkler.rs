//! Sprinkler surface types.
//!
//! A sprinkler is one watchdog instance: immutable configuration (id,
//! target hostname, master address, heartbeat period) plus a cancellation
//! flag. A builder hands out monotonically increasing ids starting at
//! zero. The container-OOM sprinkler defined here owns the remediation
//! logic; activation (subscribing to the runtime event stream, serving the
//! master side) is asynchronous I/O and lives outside this library.

use vstd::prelude::*;

verus! {

/// Immutable configuration of one sprinkler.
#[derive(Clone, Debug)]
pub struct SprinklerOptions {
    /// This sprinkler's id, unique per process.
    pub id: usize,
    /// Hostname of the monitored target.
    pub hostname: String,
    /// Address the master listens on.
    pub master_addr: String,
    /// Heartbeat period, in seconds.
    pub heartbeat: u64,
}

/// Builds sprinklers, assigning monotonically increasing ids starting at
/// zero and stamping each with the shared master address and heartbeat.
pub struct SprinklerBuilder {
    /// Template configuration; its `id` and `hostname` are replaced per
    /// build.
    pub options: SprinklerOptions,
    /// The id the next build receives.
    pub counter: usize,
}

impl SprinklerBuilder {
    /// A builder whose first sprinkler gets id zero.
    pub fn new(options: SprinklerOptions) -> (b: SprinklerBuilder)
        ensures
            b.options == options,
            b.counter == 0,
    {
        SprinklerBuilder { options, counter: 0 }
    }

    /// Build the next sprinkler for `hostname`: it receives the current
    /// counter as id, and the counter advances by one.
    pub fn build(&mut self, hostname: String) -> (s: DockerOOM)
        requires
            old(self).counter < usize::MAX,
        ensures
            final(self).counter == old(self).counter + 1,
            final(self).options == old(self).options,
            s.options.id == old(self).counter,
            s.options.hostname == hostname,
            s.options.master_addr == old(self).options.master_addr,
            s.options.heartbeat == old(self).options.heartbeat,
            !s.deactivated,
    {
        let id = self.counter;
        self.counter = self.counter + 1;
        DockerOOM::build(
            SprinklerOptions {
                id,
                hostname,
                master_addr: self.options.master_addr.clone(),
                heartbeat: self.options.heartbeat,
            },
        )
    }
}

/// The container-OOM watchdog: configuration plus a cancellation flag. As
/// an agent it meters runtime events and remediates; as a master it logs
/// the notifications it receives.
#[derive(Clone, Debug)]
pub struct DockerOOM {
    /// Immutable configuration.
    pub options: SprinklerOptions,
    /// Set once by `deactivate`; the owning task exits at its next
    /// cooperative yield.
    pub deactivated: bool,
}

impl DockerOOM {
    /// A fresh, active sprinkler with the given configuration.
    pub fn build(options: SprinklerOptions) -> (s: DockerOOM)
        ensures
            s.options == options,
            !s.deactivated,
    {
        DockerOOM { options, deactivated: false }
    }

    /// This sprinkler's id.
    pub fn id(&self) -> (r: usize)
        ensures
            r == self.options.id,
    {
        self.options.id
    }

    /// The monitored target's hostname.
    pub fn hostname(&self) -> (r: &str)
        ensures
            r@ == self.options.hostname@,
    {
        self.options.hostname.as_str()
    }

    /// Request cancellation: the flag is set and stays set.
    pub fn deactivate(&mut self)
        ensures
            final(self).deactivated,
            final(self).options == old(self).options,
    {
        self.deactivated = true;
    }

    /// Whether cancellation has been requested.
    pub fn is_deactivated(&self) -> (b: bool)
        ensures
            b == self.deactivated,
    {
        self.deactivated
    }
}

} // verus!
