//! The registry: which command each name stands for, and which names run under
//! which process id.

use crate::table::{map_of, Table};
use vstd::prelude::*;

verus! {

/// What the registry holds, as maps.
pub struct RegistryView {
    pub commands: Map<Seq<char>, Seq<char>>,
    pub running: Map<Seq<char>, u32>,
}

/// The registry of commands and of the processes started for them. A name is
/// in `procs` while the process started for it has not been seen to exit; a
/// name there need not be in `commands`.
pub struct DaemonState {
    commands: Table<String>,
    procs: Table<u32>,
}

impl View for DaemonState {
    type V = RegistryView;

    closed spec fn view(&self) -> RegistryView {
        RegistryView { commands: self.commands@, running: self.procs@ }
    }
}

/// The registry that an agent starts with. The command-definition store, where
/// there is one, gives the commands. With `keep` and a snapshot of the last
/// session, the snapshot gives the running processes, and the commands too
/// where there is no command-definition store.
pub open spec fn startup_view(
    keep: bool,
    snapshot: Option<RegistryView>,
    config: Option<Map<Seq<char>, Seq<char>>>,
) -> RegistryView {
    let kept = keep && snapshot is Some;
    RegistryView {
        commands: match config {
            Some(c) => c,
            None => if kept {
                snapshot->0.commands
            } else {
                Map::empty()
            },
        },
        running: if kept {
            snapshot->0.running
        } else {
            Map::empty()
        },
    }
}

impl DaemonState {
    /// The registry's well-formedness: each name is held at most once in each map.
    pub closed spec fn wf(&self) -> bool {
        self.commands.wf() && self.procs.wf()
    }

    /// An empty registry.
    pub fn empty() -> (s: DaemonState)
        ensures
            s.wf(),
            s@.commands == Map::<Seq<char>, Seq<char>>::empty(),
            s@.running == Map::<Seq<char>, u32>::empty(),
    {
        DaemonState { commands: Table::new(), procs: Table::new() }
    }

    /// The registry that two lists of entries denote; of two entries with one
    /// name the later one counts.
    pub fn from_entries(commands: Vec<(String, String)>, procs: Vec<(String, u32)>) -> (s:
        DaemonState)
        ensures
            s.wf(),
            s@.commands == map_of(commands@),
            s@.running == map_of(procs@),
    {
        DaemonState { commands: Table::from_entries(commands), procs: Table::from_entries(procs) }
    }

    /// The registry an agent starts with, from what was read at startup: the
    /// snapshot of the last session (read only with `keep`) and the entries of
    /// the command-definition store, each where there was one.
    pub fn new(keep: bool, snapshot: Option<DaemonState>, config: Option<Vec<(String, String)>>) -> (s:
        DaemonState)
        requires
            snapshot matches Some(p) ==> p.wf(),
        ensures
            s.wf(),
            s@ == startup_view(
                keep,
                match snapshot {
                    Some(p) => Some(p@),
                    None => None,
                },
                match config {
                    Some(c) => Some(map_of(c@)),
                    None => None,
                },
            ),
    {
        let mut result = DaemonState::empty();
        if keep {
            if let Some(previous) = snapshot {
                if config.is_none() {
                    result.commands = previous.commands;
                }
                result.procs = previous.procs;
            }
        }
        if let Some(entries) = config {
            result.commands = Table::from_entries(entries);
        }
        result
    }

    /// The command registered under `name`, if any.
    pub fn command(&self, name: &String) -> (r: Option<&String>)
        requires
            self.wf(),
        ensures
            match r {
                Some(c) => self@.commands.contains_key(name@) && self@.commands[name@] == c@,
                None => !self@.commands.contains_key(name@),
            },
    {
        self.commands.get(name)
    }

    /// The process id that `name` runs under, if it runs.
    pub fn pid(&self, name: &String) -> (r: Option<u32>)
        requires
            self.wf(),
        ensures
            match r {
                Some(p) => self@.running.contains_key(name@) && self@.running[name@] == p,
                None => !self@.running.contains_key(name@),
            },
    {
        match self.procs.get(name) {
            Some(p) => Some(*p),
            None => None,
        }
    }

    /// Registers `command` under `name`, replacing what was there.
    pub fn set_command(&mut self, name: String, command: String)
        requires
            old(self).wf(),
        ensures
            final(self).wf(),
            final(self)@.commands == old(self)@.commands.insert(name@, command@),
            final(self)@.running == old(self)@.running,
    {
        self.commands.insert(name, command);
    }

    /// Forgets the command registered under `name`, if any.
    pub fn unset_command(&mut self, name: &String)
        requires
            old(self).wf(),
        ensures
            final(self).wf(),
            final(self)@.commands == old(self)@.commands.remove(name@),
            final(self)@.running == old(self)@.running,
    {
        self.commands.remove(name);
    }

    /// Records that `name` runs under `pid`.
    pub fn set_running(&mut self, name: String, pid: u32)
        requires
            old(self).wf(),
        ensures
            final(self).wf(),
            final(self)@.commands == old(self)@.commands,
            final(self)@.running == old(self)@.running.insert(name@, pid),
    {
        self.procs.insert(name, pid);
    }

    /// Records that `name` no longer runs.
    pub fn unset_running(&mut self, name: &String)
        requires
            old(self).wf(),
        ensures
            final(self).wf(),
            final(self)@.commands == old(self)@.commands,
            final(self)@.running == old(self)@.running.remove(name@),
    {
        self.procs.remove(name);
    }

    /// The command definitions, one entry per name.
    pub fn command_entries(&self) -> (r: &Vec<(String, String)>)
        requires
            self.wf(),
        ensures
            crate::table::keys_unique(r@),
            map_of(r@) == self@.commands,
    {
        self.commands.entries()
    }

    /// The running processes, one entry per name.
    pub fn running_entries(&self) -> (r: &Vec<(String, u32)>)
        requires
            self.wf(),
        ensures
            crate::table::keys_unique(r@),
            map_of(r@) == self@.running,
    {
        self.procs.entries()
    }
}

} // verus!
