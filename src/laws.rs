//! Laws that hold of the verbs over every registry.

use crate::daemon::{
    add_view, already_running_reply, execute_plan, kill_plan, killed_reply_of, killed_view,
    not_registered_reply, not_running_reply, remove_view, toggle_plan, ExecutePlan, KillPlan,
    ToggleStep,
};
use crate::registry::{startup_view, RegistryView};
use vstd::prelude::*;

verus! {

/// An execute of a name that has no command and does not run starts nothing
/// and answers that the name is not registered.
pub proof fn law_unregistered_is_refused(r: RegistryView, name: Seq<char>)
    requires
        !r.commands.contains_key(name),
        !r.running.contains_key(name),
    ensures
        execute_plan(r, name) == ExecutePlan::Refused(not_registered_reply(name)),
{
}

/// After an add of `name` with `command`, the commands hold `name` with
/// `command`, and a list shows that map; the running processes stay as they
/// were.
pub proof fn law_add_then_list(r: RegistryView, name: Seq<char>, command: Seq<char>)
    ensures
        add_view(r, name, command).commands.contains_key(name),
        add_view(r, name, command).commands[name] == command,
        add_view(r, name, command).running == r.running,
{
}

/// After a remove of `name`, the commands lack `name`, the running processes
/// stay as they were, and an execute of `name` starts nothing: it answers that
/// `name` is not registered wherever `name` does not run.
pub proof fn law_remove_forgets(r: RegistryView, name: Seq<char>)
    ensures
        !remove_view(r, name).commands.contains_key(name),
        remove_view(r, name).running == r.running,
        execute_plan(remove_view(r, name), name) is Refused,
        !r.running.contains_key(name) ==> execute_plan(remove_view(r, name), name)
            == ExecutePlan::Refused(not_registered_reply(name)),
{
}

/// An execute of a name that runs starts nothing and answers that it runs.
pub proof fn law_execute_while_running(r: RegistryView, name: Seq<char>)
    requires
        r.running.contains_key(name),
    ensures
        execute_plan(r, name) == ExecutePlan::Refused(already_running_reply(name)),
{
}

/// A kill takes `name` out of the running processes exactly where it was there
/// and its process was found alive; a second kill then answers that `name` does
/// not run.
pub proof fn law_kill(r: RegistryView, name: Seq<char>, found: bool, again: bool)
    ensures
        killed_view(r, name, found).commands == r.commands,
        killed_view(r, name, found).running == (if r.running.contains_key(name) && found {
            r.running.remove(name)
        } else {
            r.running
        }),
        kill_plan(killed_view(r, name, true), name) == KillPlan::NotRunning(not_running_reply(name)),
        killed_reply_of(killed_view(r, name, true), name, again) == not_running_reply(name),
        killed_view(killed_view(r, name, true), name, again) == killed_view(r, name, true),
{
}

/// A toggle is a kill where the name runs and an execute where it does not.
pub proof fn law_toggle(r: RegistryView, name: Seq<char>)
    ensures
        r.running.contains_key(name) ==> toggle_plan(r, name) == ToggleStep::Kill && kill_plan(r, name)
            == KillPlan::Signal(r.running[name]),
        !r.running.contains_key(name) ==> toggle_plan(r, name) == ToggleStep::Execute && !(
        execute_plan(r, name) == ExecutePlan::Refused(already_running_reply(name))),
{
    if !r.running.contains_key(name) && !r.commands.contains_key(name) {
        reveal_strlit(" is not registered yet");
        reveal_strlit(" is already running");
        assert(not_registered_reply(name).len() != already_running_reply(name).len());
    }
}

/// A remove of a name that has no command leaves the registry as it was.
pub proof fn law_remove_absent(r: RegistryView, name: Seq<char>)
    requires
        !r.commands.contains_key(name),
    ensures
        remove_view(r, name) == r,
{
    assert(r.commands.remove(name) =~= r.commands);
}

/// An agent started with `keep` from the snapshot of a registry, and with no
/// command-definition store, holds the same commands and running processes.
pub proof fn law_snapshot_round_trip(r: RegistryView)
    ensures
        startup_view(true, Some(r), None) == r,
{
}

} // verus!
