//! The agent shell: its configuration and its lifecycle state.

use vstd::prelude::*;

verus! {

/// Agent configuration; its schema is currently reserved.
#[derive(Debug, Clone, PartialEq, Eq, Structural)]
pub struct Config {}

/// Where the agent stands in its lifecycle.
#[derive(Debug, Clone, Copy, PartialEq, Eq, Structural)]
pub enum AgentState {
    Ready,
    Start,
}

impl Default for AgentState {
    fn default() -> (r: AgentState)
        ensures
            r == AgentState::Ready,
    {
        AgentState::Ready
    }
}

/// The agent: configuration plus lifecycle state.  The schedulers and the
/// liveness endpoint it drives live outside the library.
#[derive(Debug)]
pub struct Agent {
    pub config: Config,
    pub state: AgentState,
}

impl Agent {
    /// A fresh agent over a parsed configuration, ready but not started.
    pub fn new(config: Config) -> (a: Agent)
        ensures
            a.state == AgentState::Ready,
            a.config == config,
    {
        Agent { config, state: AgentState::Ready }
    }

    /// Marks the agent started; the caller then brings up its jobs.
    pub fn start(&mut self)
        ensures
            final(self).state == AgentState::Start,
            final(self).config == old(self).config,
    {
        self.state = AgentState::Start;
    }
}

} // verus!
