use vstd::prelude::*;

verus! {

/// Configuration for a [`crate::controller::ConnectionController`].
///
/// All settings are optional and immutable for the controller's lifetime;
/// [`ConnectionOptions::default`] gives the standard values. The open,
/// close and error notifications are delivered as
/// [`crate::action::Action`] values, so no callback is stored here.
#[derive(Clone, Copy, Debug, PartialEq, Eq, Structural)]
pub struct ConnectionOptions {
    /// How many automatic reconnects may follow one explicit open.
    /// Defaults to 3.
    pub reconnect_limit: u64,
    /// Delay in milliseconds before a scheduled reconnect fires.
    /// Defaults to 3000.
    pub reconnect_interval: u64,
    /// Whether the connection is opened at construction. Defaults to
    /// `true`; with `false` the caller must invoke `open`.
    pub immediate: bool,
}

impl ConnectionOptions {
    /// Replaces the reconnect limit. Defaults to 3.
    pub fn with_reconnect_limit(self, limit: u64) -> (updated: Self)
        ensures
            updated.reconnect_limit == limit,
            updated.reconnect_interval == self.reconnect_interval,
            updated.immediate == self.immediate,
    {
        Self { reconnect_limit: limit, ..self }
    }

    /// Replaces the reconnect interval in milliseconds. Defaults to 3000.
    pub fn with_reconnect_interval(self, interval: u64) -> (updated: Self)
        ensures
            updated.reconnect_interval == interval,
            updated.reconnect_limit == self.reconnect_limit,
            updated.immediate == self.immediate,
    {
        Self { reconnect_interval: interval, ..self }
    }

    /// Sets whether the connection is opened immediately at construction.
    /// Defaults to `true`; with `false` the caller must invoke `open`.
    pub fn with_immediate(self, immediate: bool) -> (updated: Self)
        ensures
            updated.immediate == immediate,
            updated.reconnect_limit == self.reconnect_limit,
            updated.reconnect_interval == self.reconnect_interval,
    {
        Self { immediate, ..self }
    }
}

impl Default for ConnectionOptions {
    /// Standard configuration: 3 reconnects, 3000 ms apart, opened
    /// immediately at construction.
    fn default() -> (options: Self)
        ensures
            options.reconnect_limit == 3,
            options.reconnect_interval == 3000,
            options.immediate,
    {
        Self { reconnect_limit: 3, reconnect_interval: 3000, immediate: true }
    }
}

} // verus!
