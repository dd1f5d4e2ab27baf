//! The simulator configuration and the clamping of log verbosities.

use vstd::prelude::*;
use crate::log::LoglevelFilter;

verus! {

/// A file that receives a copy of the log messages up to a filter.
#[derive(Clone, Debug)]
pub struct TeeFile {
    pub filter: LoglevelFilter,
    pub filename: String,
}

/// The verbosity of a log callback installed by the host. The callback
/// itself is held by whoever installed it.
#[derive(Clone, Copy, Debug)]
pub struct LogCallback {
    pub filter: LoglevelFilter,
}

/// The part of a plugin's configuration that the simulator adjusts.
#[derive(Clone, Debug)]
pub struct PluginConfiguration {
    /// The instance name.
    pub name: String,
    /// How verbose the plugin's own logging is.
    pub verbosity: LoglevelFilter,
}

/// The complete configuration of a simulation run.
#[derive(Debug)]
pub struct SimulatorConfiguration {
    /// The random seed.
    pub seed: u64,
    /// The verbosity of the messages logged to stderr.
    pub stderr_level: LoglevelFilter,
    /// Files that receive copies of the log.
    pub tee_files: Vec<TeeFile>,
    /// The log callback, if any.
    pub log_callback: Option<LogCallback>,
    /// The verbosity of the simulator itself.
    pub dqcsim_level: LoglevelFilter,
    /// The plugins, from front to back.
    pub plugins: Vec<PluginConfiguration>,
}

/// The more verbose of two filters (the first when equally verbose).
pub open spec fn louder(a: LoglevelFilter, b: LoglevelFilter) -> LoglevelFilter {
    if b.spec_verbosity() > a.spec_verbosity() {
        b
    } else {
        a
    }
}

/// The less verbose of a filter and a ceiling.
pub open spec fn clamped(f: LoglevelFilter, ceiling: LoglevelFilter) -> LoglevelFilter {
    if f.spec_verbosity() > ceiling.spec_verbosity() {
        ceiling
    } else {
        f
    }
}

/// The most verbose of `start` and the filters of `tees`.
pub open spec fn loudest_tee(start: LoglevelFilter, tees: Seq<TeeFile>) -> LoglevelFilter
    decreases tees.len(),
{
    if tees.len() == 0 {
        start
    } else {
        louder(loudest_tee(start, tees.drop_last()), tees.last().filter)
    }
}

/// The verbosity of the most verbose sink: stderr, the tee files and the
/// log callback.
pub open spec fn loudest_sink(
    stderr_level: LoglevelFilter,
    tees: Seq<TeeFile>,
    callback: Option<LogCallback>,
) -> LoglevelFilter {
    let t = loudest_tee(stderr_level, tees);
    match callback {
        Some(cb) => louder(t, cb.filter),
        None => t,
    }
}

impl SimulatorConfiguration {
    /// Makes the sources (the simulator itself and every plugin) no more
    /// verbose than the most verbose sink.
    pub fn optimize_loglevels(&mut self)
        ensures
            ({
                let ceiling = loudest_sink(
                    old(self).stderr_level,
                    old(self).tee_files@,
                    old(self).log_callback,
                );
                &&& final(self).dqcsim_level == clamped(old(self).dqcsim_level, ceiling)
                &&& final(self).plugins@.len() == old(self).plugins@.len()
                &&& forall|i: int|
                    0 <= i < old(self).plugins@.len() ==> (#[trigger] final(self).plugins@[i]).name
                        == old(self).plugins@[i].name && final(self).plugins@[i].verbosity
                        == clamped(old(self).plugins@[i].verbosity, ceiling)
            }),
            final(self).seed == old(self).seed,
            final(self).stderr_level == old(self).stderr_level,
            final(self).tee_files@ == old(self).tee_files@,
            final(self).log_callback == old(self).log_callback,
    {
        let mut max_verbosity = self.stderr_level;
        let mut i: usize = 0;
        while i < self.tee_files.len()
            invariant
                i <= self.tee_files@.len(),
                max_verbosity == loudest_tee(self.stderr_level, self.tee_files@.subrange(0, i as int)),
            decreases self.tee_files@.len() - i,
        {
            assert(self.tee_files@.subrange(0, i as int + 1).drop_last() =~= self.tee_files@.subrange(
                0,
                i as int,
            ));
            let f = self.tee_files[i].filter;
            if f.verbosity() > max_verbosity.verbosity() {
                max_verbosity = f;
            }
            i = i + 1;
        }
        assert(self.tee_files@.subrange(0, self.tee_files@.len() as int) =~= self.tee_files@);
        match self.log_callback {
            Some(cb) => {
                if cb.filter.verbosity() > max_verbosity.verbosity() {
                    max_verbosity = cb.filter;
                }
            },
            None => {},
        }

        if self.dqcsim_level.verbosity() > max_verbosity.verbosity() {
            self.dqcsim_level = max_verbosity;
        }
        let mut i: usize = 0;
        while i < self.plugins.len()
            invariant
                i <= self.plugins@.len(),
                self.plugins@.len() == old(self).plugins@.len(),
                self.seed == old(self).seed,
                self.stderr_level == old(self).stderr_level,
                self.tee_files@ == old(self).tee_files@,
                self.log_callback == old(self).log_callback,
                self.dqcsim_level == clamped(old(self).dqcsim_level, max_verbosity),
                forall|j: int|
                    0 <= j < self.plugins@.len() ==> (#[trigger] self.plugins@[j]).name
                        == old(self).plugins@[j].name,
                forall|j: int|
                    0 <= j < i ==> (#[trigger] self.plugins@[j]).verbosity == clamped(
                        old(self).plugins@[j].verbosity,
                        max_verbosity,
                    ),
                forall|j: int|
                    i <= j < self.plugins@.len() ==> (#[trigger] self.plugins@[j]).verbosity
                        == old(self).plugins@[j].verbosity,
            decreases self.plugins@.len() - i,
        {
            if self.plugins[i].verbosity.verbosity() > max_verbosity.verbosity() {
                self.plugins[i].verbosity = max_verbosity;
            }
            i = i + 1;
        }
    }
}

impl Default for SimulatorConfiguration {
    /// Seed 0, info-level logging to stderr and for the simulator, no tee
    /// files, no callback and no plugins yet.
    fn default() -> (r: SimulatorConfiguration)
        ensures
            r.seed == 0,
            r.stderr_level == LoglevelFilter::Info,
            r.tee_files@.len() == 0,
            r.log_callback is None,
            r.dqcsim_level == LoglevelFilter::Info,
            r.plugins@.len() == 0,
    {
        SimulatorConfiguration {
            seed: 0,
            stderr_level: LoglevelFilter::Info,
            tee_files: Vec::new(),
            log_callback: None,
            dqcsim_level: LoglevelFilter::Info,
            plugins: Vec::new(),
        }
    }
}

} // verus!
