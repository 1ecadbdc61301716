//! The request handler: what each verb answers and how it changes the
//! registry. The verbs that wait on a process (execute, kill) are split into
//! steps, so that whoever runs them holds the registry's lock for each step
//! alone and never while a process runs.

use crate::json::{commands_json, json_object_of};
use crate::registry::{startup_view, DaemonState, RegistryView};
use crate::table::map_of;
use vstd::prelude::*;

verus! {

pub open spec fn added_reply(command: Seq<char>) -> Seq<char> {
    "Added: "@ + command
}

pub open spec fn removed_reply(name: Seq<char>) -> Seq<char> {
    "Removed "@ + name
}

pub open spec fn not_registered_reply(name: Seq<char>) -> Seq<char> {
    name + " is not registered yet"@
}

pub open spec fn already_running_reply(name: Seq<char>) -> Seq<char> {
    name + " is already running"@
}

pub open spec fn spawn_failed_reply(name: Seq<char>) -> Seq<char> {
    name + " could not be started"@
}

pub open spec fn executed_reply(name: Seq<char>) -> Seq<char> {
    name + " executed successfully"@
}

pub open spec fn replaced_reply(name: Seq<char>) -> Seq<char> {
    name + " executed successfully, but was restarted with very interesting timing"@
}

pub open spec fn not_running_reply(name: Seq<char>) -> Seq<char> {
    name + " was not running via uniq-proc"@
}

pub open spec fn lookup_failed_reply(name: Seq<char>) -> Seq<char> {
    "Failed to get the process of "@ + name
}

pub open spec fn killed_reply(name: Seq<char>) -> Seq<char> {
    "Successfully killed "@ + name
}

pub open spec fn alive_reply() -> Seq<char> {
    "running"@
}

pub open spec fn unparsable_reply() -> Seq<char> {
    "Could not parse the command"@
}

/// What has to be written to durable storage after a step.
#[derive(PartialEq, Eq, Structural, Clone, Copy, Debug)]
pub enum Save {
    /// Nothing changed.
    Nothing,
    /// The runtime snapshot (commands and running processes).
    Snapshot,
    /// The runtime snapshot and the command-definition store.
    SnapshotAndCommands,
}

/// The answer of a step and what has to be persisted after it.
#[derive(Debug)]
pub struct Outcome {
    pub reply: String,
    pub save: Save,
}

/// The first step of an execute: a command to start, or an answer at once.
#[derive(Debug)]
pub enum ExecuteStep {
    Spawn { command: String },
    Refused { reply: String },
}

/// The first step of an execute, as values.
pub enum ExecutePlan {
    Spawn(Seq<char>),
    Refused(Seq<char>),
}

impl View for ExecuteStep {
    type V = ExecutePlan;

    open spec fn view(&self) -> ExecutePlan {
        match self {
            ExecuteStep::Spawn { command } => ExecutePlan::Spawn(command@),
            ExecuteStep::Refused { reply } => ExecutePlan::Refused(reply@),
        }
    }
}

/// The first step of a kill: a process to signal, or an answer at once.
#[derive(Debug)]
pub enum KillStep {
    Signal { pid: u32 },
    NotRunning { reply: String },
}

/// The first step of a kill, as values.
pub enum KillPlan {
    Signal(u32),
    NotRunning(Seq<char>),
}

impl View for KillStep {
    type V = KillPlan;

    open spec fn view(&self) -> KillPlan {
        match self {
            KillStep::Signal { pid } => KillPlan::Signal(*pid),
            KillStep::NotRunning { reply } => KillPlan::NotRunning(reply@),
        }
    }
}

/// Which verb a toggle turns into.
#[derive(PartialEq, Eq, Structural, Clone, Copy, Debug)]
pub enum ToggleStep {
    Kill,
    Execute,
}

/// An execute of `name` starts the registered command only where `name` is
/// not running.
pub open spec fn execute_plan(r: RegistryView, name: Seq<char>) -> ExecutePlan {
    if r.running.contains_key(name) {
        ExecutePlan::Refused(already_running_reply(name))
    } else if r.commands.contains_key(name) {
        ExecutePlan::Spawn(r.commands[name])
    } else {
        ExecutePlan::Refused(not_registered_reply(name))
    }
}

/// A kill of `name` signals the process that `name` runs under, if it runs.
pub open spec fn kill_plan(r: RegistryView, name: Seq<char>) -> KillPlan {
    if r.running.contains_key(name) {
        KillPlan::Signal(r.running[name])
    } else {
        KillPlan::NotRunning(not_running_reply(name))
    }
}

/// A toggle of `name` kills it where it runs and executes it where not.
pub open spec fn toggle_plan(r: RegistryView, name: Seq<char>) -> ToggleStep {
    if r.running.contains_key(name) {
        ToggleStep::Kill
    } else {
        ToggleStep::Execute
    }
}

pub open spec fn add_view(r: RegistryView, name: Seq<char>, command: Seq<char>) -> RegistryView {
    RegistryView { commands: r.commands.insert(name, command), running: r.running }
}

pub open spec fn remove_view(r: RegistryView, name: Seq<char>) -> RegistryView {
    RegistryView { commands: r.commands.remove(name), running: r.running }
}

/// The registry once `name` runs under `pid`.
pub open spec fn started_view(r: RegistryView, name: Seq<char>, pid: u32) -> RegistryView {
    RegistryView { commands: r.commands, running: r.running.insert(name, pid) }
}

/// Whether `name` still runs under `pid`, the process that has just exited.
pub open spec fn still_tracked(r: RegistryView, name: Seq<char>, pid: u32) -> bool {
    r.running.contains_key(name) && r.running[name] == pid
}

/// The registry once the process `pid` started for `name` has exited: the
/// entry goes only where it is still that process's.
pub open spec fn finished_view(r: RegistryView, name: Seq<char>, pid: u32) -> RegistryView {
    if still_tracked(r, name, pid) {
        RegistryView { commands: r.commands, running: r.running.remove(name) }
    } else {
        r
    }
}

pub open spec fn finished_reply(r: RegistryView, name: Seq<char>, pid: u32) -> Seq<char> {
    if still_tracked(r, name, pid) {
        executed_reply(name)
    } else {
        replaced_reply(name)
    }
}

/// The registry once a kill of `name` has signalled its process, `found`
/// telling whether that process was found alive.
pub open spec fn killed_view(r: RegistryView, name: Seq<char>, found: bool) -> RegistryView {
    if r.running.contains_key(name) && found {
        RegistryView { commands: r.commands, running: r.running.remove(name) }
    } else {
        r
    }
}

pub open spec fn killed_reply_of(r: RegistryView, name: Seq<char>, found: bool) -> Seq<char> {
    if !r.running.contains_key(name) {
        not_running_reply(name)
    } else if found {
        killed_reply(name)
    } else {
        lookup_failed_reply(name)
    }
}

/// The agent's state and the decisions of its verbs.
pub struct Daemon {
    data: DaemonState,
}

impl View for Daemon {
    type V = RegistryView;

    closed spec fn view(&self) -> RegistryView {
        self.data@
    }
}

fn text_then(head: &str, tail: &str) -> (r: String)
    ensures
        r@ == head@ + tail@,
{
    let mut r = String::from_str(head);
    r.append(tail);
    r
}

impl Daemon {
    /// The agent's well-formedness: that of its registry.
    pub closed spec fn wf(&self) -> bool {
        self.data.wf()
    }

    /// An agent over the registry that the startup reads give (see
    /// `DaemonState::new`).
    pub fn new(keep: bool, snapshot: Option<DaemonState>, config: Option<Vec<(String, String)>>) -> (d:
        Daemon)
        requires
            snapshot matches Some(p) ==> p.wf(),
        ensures
            d.wf(),
            d@ == startup_view(
                keep,
                match snapshot {
                    Some(p) => Some(p@),
                    None => None,
                },
                match config {
                    Some(c) => Some(map_of(c@)),
                    None => None,
                },
            ),
    {
        Daemon { data: DaemonState::new(keep, snapshot, config) }
    }

    /// The registry, to be persisted.
    pub fn state(&self) -> (r: &DaemonState)
        requires
            self.wf(),
        ensures
            r.wf(),
            r@ == self@,
    {
        &self.data
    }

    /// Registers `command` under `name`, replacing what was there.
    pub fn add(&mut self, name: String, command: String) -> (o: Outcome)
        requires
            old(self).wf(),
        ensures
            final(self).wf(),
            final(self)@ == add_view(old(self)@, name@, command@),
            o.reply@ == added_reply(command@),
            o.save == Save::SnapshotAndCommands,
    {
        let reply = text_then("Added: ", command.as_str());
        self.data.set_command(name, command);
        Outcome { reply, save: Save::SnapshotAndCommands }
    }

    /// Forgets the command registered under `name`; a process that runs for
    /// it stays tracked. Succeeds also where nothing was registered.
    pub fn remove(&mut self, name: String) -> (o: Outcome)
        requires
            old(self).wf(),
        ensures
            final(self).wf(),
            final(self)@ == remove_view(old(self)@, name@),
            o.reply@ == removed_reply(name@),
            o.save == Save::SnapshotAndCommands,
    {
        self.data.unset_command(&name);
        let reply = text_then("Removed ", name.as_str());
        Outcome { reply, save: Save::SnapshotAndCommands }
    }

    /// The registered commands, as a JSON object.
    pub fn list(&self) -> (r: String)
        requires
            self.wf(),
        ensures
            r@ == json_object_of(self@.commands),
    {
        commands_json(self.data.command_entries())
    }

    /// The answer to a liveness probe.
    pub fn alive(&self) -> (r: String)
        ensures
            r@ == alive_reply(),
    {
        String::from_str("running")
    }

    /// The answer to a request that could not be decoded.
    pub fn unparsable() -> (r: String)
        ensures
            r@ == unparsable_reply(),
    {
        String::from_str("Could not parse the command")
    }

    /// The first step of an execute: the command to start, or the answer where
    /// `name` already runs or has no command.
    pub fn execute(&self, name: &String) -> (r: ExecuteStep)
        requires
            self.wf(),
        ensures
            r@ == execute_plan(self@, name@),
    {
        if self.data.pid(name).is_some() {
            ExecuteStep::Refused { reply: text_then(name.as_str(), " is already running") }
        } else {
            match self.data.command(name) {
                Some(command) => ExecuteStep::Spawn { command: command.clone() },
                None => ExecuteStep::Refused {
                    reply: text_then(name.as_str(), " is not registered yet"),
                },
            }
        }
    }

    /// The answer where the command for `name` could not be started.
    pub fn execute_failed(name: &String) -> (r: String)
        ensures
            r@ == spawn_failed_reply(name@),
    {
        text_then(name.as_str(), " could not be started")
    }

    /// The second step of an execute: `name` runs under `pid`.
    pub fn execute_started(&mut self, name: String, pid: u32) -> (s: Save)
        requires
            old(self).wf(),
        ensures
            final(self).wf(),
            final(self)@ == started_view(old(self)@, name@, pid),
            s == Save::Snapshot,
    {
        self.data.set_running(name, pid);
        Save::Snapshot
    }

    /// The last step of an execute: the process `pid` started for `name` has
    /// exited. Its entry goes where it is still there; where `name` has been
    /// restarted meanwhile, the new entry stays.
    pub fn execute_finished(&mut self, name: &String, pid: u32) -> (o: Outcome)
        requires
            old(self).wf(),
        ensures
            final(self).wf(),
            final(self)@ == finished_view(old(self)@, name@, pid),
            o.reply@ == finished_reply(old(self)@, name@, pid),
            o.save == (if still_tracked(old(self)@, name@, pid) {
                Save::Snapshot
            } else {
                Save::Nothing
            }),
    {
        let same = match self.data.pid(name) {
            Some(p) => p == pid,
            None => false,
        };
        if same {
            self.data.unset_running(name);
            Outcome { reply: text_then(name.as_str(), " executed successfully"), save: Save::Snapshot }
        } else {
            Outcome {
                reply: text_then(
                    name.as_str(),
                    " executed successfully, but was restarted with very interesting timing",
                ),
                save: Save::Nothing,
            }
        }
    }

    /// The first step of a kill: the process to signal, or the answer where
    /// `name` does not run.
    pub fn kill(&self, name: &String) -> (r: KillStep)
        requires
            self.wf(),
        ensures
            r@ == kill_plan(self@, name@),
    {
        match self.data.pid(name) {
            Some(pid) => KillStep::Signal { pid },
            None => KillStep::NotRunning { reply: text_then(name.as_str(), " was not running via uniq-proc") },
        }
    }

    /// The last step of a kill, `found` telling whether the process of `name`
    /// was found alive and signalled. Only then does `name` stop being tracked.
    pub fn kill_finished(&mut self, name: &String, found: bool) -> (o: Outcome)
        requires
            old(self).wf(),
        ensures
            final(self).wf(),
            final(self)@ == killed_view(old(self)@, name@, found),
            o.reply@ == killed_reply_of(old(self)@, name@, found),
            o.save == (if old(self)@.running.contains_key(name@) && found {
                Save::Snapshot
            } else {
                Save::Nothing
            }),
    {
        if self.data.pid(name).is_none() {
            Outcome { reply: text_then(name.as_str(), " was not running via uniq-proc"), save: Save::Nothing }
        } else if found {
            self.data.unset_running(name);
            Outcome { reply: text_then("Successfully killed ", name.as_str()), save: Save::Snapshot }
        } else {
            Outcome { reply: text_then("Failed to get the process of ", name.as_str()), save: Save::Nothing }
        }
    }

    /// Which verb a toggle of `name` turns into.
    pub fn toggle(&self, name: &String) -> (r: ToggleStep)
        requires
            self.wf(),
        ensures
            r == toggle_plan(self@, name@),
    {
        if self.data.pid(name).is_some() {
            ToggleStep::Kill
        } else {
            ToggleStep::Execute
        }
    }

    /// The answer of a restart: that of its kill, then that of its execute.
    pub fn restart(killed: &String, executed: &String) -> (r: String)
        ensures
            r@ == killed@ + "\n"@ + executed@,
    {
        let mut r = killed.clone();
        r.append("\n");
        r.append(executed.as_str());
        r
    }
}

} // verus!
