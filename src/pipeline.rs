//! The plugins of a simulation, with a record of every call made on them.

use vstd::prelude::*;
use crate::error::{Error, views};
use crate::plugin::Plugin;
use crate::protocol::{PluginToSimulator, SimulatorToPlugin};
use crate::types::PluginInitResponse;

verus! {

/// One call made on a plugin: the plugin's position, the arguments and
/// what the plugin returned.
pub enum PluginCall {
    Name { index: int, result: Seq<char> },
    Spawn { index: int, result: Result<(), Error> },
    Init { index: int, downstream: Option<String>, result: Result<PluginInitResponse, Error> },
    Accept { index: int, result: Result<(), Error> },
    Rpc { index: int, request: SimulatorToPlugin, result: Result<PluginToSimulator, Error> },
}

/// The plugins of a pipeline, frontend first, with their instance names.
/// Every call on a plugin goes through this type and is recorded.
pub struct PluginPipeline<P: Plugin> {
    plugins: Vec<P>,
    names: Vec<String>,
    calls: Ghost<Seq<PluginCall>>,
}

impl<P: Plugin> PluginPipeline<P> {
    /// The plugins still running, frontend first; empty once shut down.
    pub closed spec fn plugins(&self) -> Seq<P> {
        self.plugins@
    }

    /// The instance names, in pipeline order.
    pub closed spec fn names(&self) -> Seq<Seq<char>> {
        views(self.names@)
    }

    /// Every call made on the plugins, oldest first.
    pub closed spec fn calls(&self) -> Seq<PluginCall> {
        self.calls@
    }

    /// The plugins are all running, or all shut down.
    pub open spec fn wf(&self) -> bool {
        self.plugins().len() == self.names().len() || self.plugins().len() == 0
    }

    /// Takes over `plugins`, asking each for its instance name.
    pub fn new(plugins: Vec<P>) -> (r: PluginPipeline<P>)
        ensures
            r.wf(),
            r.plugins() == plugins@,
            r.names().len() == plugins@.len(),
            r.calls().len() == plugins@.len(),
            forall|k: int|
                0 <= k < plugins@.len() ==> #[trigger] r.calls()[k] == (PluginCall::Name {
                    index: k,
                    result: r.names()[k],
                }),
    {
        let mut names: Vec<String> = Vec::new();
        let ghost mut calls: Seq<PluginCall> = Seq::empty();
        let mut i: usize = 0;
        while i < plugins.len()
            invariant
                i <= plugins@.len(),
                names@.len() == i,
                calls.len() == i,
                forall|k: int|
                    0 <= k < i ==> #[trigger] calls[k] == (PluginCall::Name {
                        index: k,
                        result: views(names@)[k],
                    }),
            decreases plugins@.len() - i,
        {
            let name = plugins[i].name();
            proof {
                calls = calls.push(PluginCall::Name { index: i as int, result: name@ });
            }
            names.push(name);
            i = i + 1;
        }
        PluginPipeline { plugins, names, calls: Ghost(calls) }
    }

    /// The number of plugins still running.
    pub fn running(&self) -> (r: usize)
        ensures
            r == self.plugins().len(),
    {
        self.plugins.len()
    }

    /// The number of plugins the pipeline was made with.
    pub fn count(&self) -> (r: usize)
        ensures
            r == self.names().len(),
    {
        self.names.len()
    }

    /// The instance names.
    pub fn names_vec(&self) -> (r: &Vec<String>)
        ensures
            views(r@) == self.names(),
    {
        &self.names
    }

    /// Spawns plugin `i`.
    pub fn spawn(&mut self, i: usize) -> (r: Result<(), Error>)
        requires
            i < old(self).plugins().len(),
        ensures
            final(self).calls() == old(self).calls().push(PluginCall::Spawn { index: i as int, result: r }),
            final(self).names() == old(self).names(),
            final(self).plugins().len() == old(self).plugins().len(),
    {
        let r = self.plugins[i].spawn();
        self.calls = Ghost(self.calls@.push(PluginCall::Spawn { index: i as int, result: r }));
        r
    }

    /// Initializes plugin `i` with the endpoint of its downstream neighbour.
    pub fn init(&mut self, i: usize, downstream: &Option<String>) -> (r: Result<
        PluginInitResponse,
        Error,
    >)
        requires
            i < old(self).plugins().len(),
        ensures
            final(self).calls() == old(self).calls().push(
                PluginCall::Init { index: i as int, downstream: *downstream, result: r },
            ),
            final(self).names() == old(self).names(),
            final(self).plugins().len() == old(self).plugins().len(),
    {
        let r = self.plugins[i].init(downstream);
        self.calls = Ghost(
            self.calls@.push(
                PluginCall::Init { index: i as int, downstream: *downstream, result: r },
            ),
        );
        r
    }

    /// Lets plugin `i` accept the connection of its upstream neighbour.
    pub fn accept_upstream(&mut self, i: usize) -> (r: Result<(), Error>)
        requires
            i < old(self).plugins().len(),
        ensures
            final(self).calls() == old(self).calls().push(PluginCall::Accept { index: i as int, result: r }),
            final(self).names() == old(self).names(),
            final(self).plugins().len() == old(self).plugins().len(),
    {
        let r = self.plugins[i].accept_upstream();
        self.calls = Ghost(self.calls@.push(PluginCall::Accept { index: i as int, result: r }));
        r
    }

    /// Sends `request` to plugin `i` and returns its reply.
    pub fn rpc(&mut self, i: usize, request: SimulatorToPlugin) -> (r: Result<
        PluginToSimulator,
        Error,
    >)
        requires
            i < old(self).plugins().len(),
        ensures
            final(self).calls() == old(self).calls().push(
                PluginCall::Rpc { index: i as int, request, result: r },
            ),
            final(self).names() == old(self).names(),
            final(self).plugins().len() == old(self).plugins().len(),
    {
        let ghost req = request;
        let r = self.plugins[i].rpc(request);
        self.calls = Ghost(self.calls@.push(PluginCall::Rpc { index: i as int, request: req, result: r }));
        r
    }

    /// Plugin `i`.
    pub fn plugin(&self, i: usize) -> (r: &P)
        requires
            i < self.plugins().len(),
        ensures
            *r == self.plugins()[i as int],
    {
        &self.plugins[i]
    }

    /// Plugin `i`, for direct use; what is done with it is not recorded.
    pub fn plugin_mut(&mut self, i: usize) -> (r: &mut P)
        requires
            i < old(self).plugins().len(),
        ensures
            *r == old(self).plugins()[i as int],
            final(self).plugins() == old(self).plugins().update(i as int, *final(r)),
            final(self).names() == old(self).names(),
            final(self).calls() == old(self).calls(),
    {
        &mut self.plugins[i]
    }

    /// Shuts every plugin down, from the backend to the frontend.
    pub fn shut_down(&mut self)
        ensures
            final(self).plugins().len() == 0,
            final(self).names() == old(self).names(),
            final(self).calls() == old(self).calls(),
    {
        while self.plugins.len() > 0
            invariant
                self.names == old(self).names,
                self.calls == old(self).calls,
            decreases self.plugins@.len(),
        {
            let _ = self.plugins.pop();
        }
    }
}

} // verus!
