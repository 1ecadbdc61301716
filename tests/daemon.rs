use uniq_proc::daemon::{Daemon, ExecuteStep, KillStep, Save, ToggleStep};
use uniq_proc::registry::DaemonState;

fn s(text: &str) -> String {
    text.to_string()
}

fn fresh() -> Daemon {
    Daemon::new(false, None, None)
}

#[test]
fn add_answers_with_command_and_lists_it() {
    let mut d = fresh();
    let o = d.add(s("sleep"), s("sleep 1"));
    assert_eq!(o.reply, "Added: sleep 1");
    assert_eq!(o.save, Save::SnapshotAndCommands);
    assert_eq!(d.list(), "{\"sleep\":\"sleep 1\"}");
}

#[test]
fn add_overwrites_command() {
    let mut d = fresh();
    d.add(s("a"), s("x"));
    let o = d.add(s("a"), s("y"));
    assert_eq!(o.reply, "Added: y");
    assert_eq!(d.list(), "{\"a\":\"y\"}");
}

#[test]
fn list_of_empty_registry() {
    assert_eq!(fresh().list(), "{}");
}

#[test]
fn list_shows_every_command() {
    let mut d = fresh();
    d.add(s("b"), s("echo b"));
    d.add(s("a"), s("echo a"));
    assert_eq!(d.list(), "{\"a\":\"echo a\",\"b\":\"echo b\"}");
}

#[test]
fn remove_forgets_command() {
    let mut d = fresh();
    d.add(s("a"), s("x"));
    let o = d.remove(s("a"));
    assert_eq!(o.reply, "Removed a");
    assert_eq!(o.save, Save::SnapshotAndCommands);
    assert_eq!(d.list(), "{}");
    match d.execute(&s("a")) {
        ExecuteStep::Refused { reply } => assert_eq!(reply, "a is not registered yet"),
        other => panic!("unexpected {:?}", other),
    }
}

#[test]
fn remove_of_absent_name_succeeds_and_changes_nothing() {
    let mut d = fresh();
    d.add(s("a"), s("x"));
    let o = d.remove(s("zzz"));
    assert_eq!(o.reply, "Removed zzz");
    assert_eq!(o.save, Save::SnapshotAndCommands);
    assert_eq!(d.list(), "{\"a\":\"x\"}");
}

#[test]
fn remove_keeps_running_entry() {
    let mut d = fresh();
    d.add(s("a"), s("x"));
    d.execute_started(s("a"), 11);
    d.remove(s("a"));
    assert_eq!(d.state().pid(&s("a")), Some(11));
    match d.execute(&s("a")) {
        ExecuteStep::Refused { reply } => assert_eq!(reply, "a is already running"),
        other => panic!("unexpected {:?}", other),
    }
    let o = d.execute_finished(&s("a"), 11);
    assert_eq!(o.reply, "a executed successfully");
    match d.execute(&s("a")) {
        ExecuteStep::Refused { reply } => assert_eq!(reply, "a is not registered yet"),
        other => panic!("unexpected {:?}", other),
    }
}

#[test]
fn execute_of_unregistered_name() {
    let d = fresh();
    match d.execute(&s("ghost")) {
        ExecuteStep::Refused { reply } => assert_eq!(reply, "ghost is not registered yet"),
        other => panic!("unexpected {:?}", other),
    }
    assert_eq!(d.state().pid(&s("ghost")), None);
}

#[test]
fn sleep_end_to_end() {
    let mut d = fresh();
    d.add(s("sleep"), s("sleep 1"));
    match d.execute(&s("sleep")) {
        ExecuteStep::Spawn { command } => assert_eq!(command, "sleep 1"),
        other => panic!("unexpected {:?}", other),
    }
    assert_eq!(d.execute_started(s("sleep"), 4242), Save::Snapshot);
    match d.execute(&s("sleep")) {
        ExecuteStep::Refused { reply } => assert_eq!(reply, "sleep is already running"),
        other => panic!("unexpected {:?}", other),
    }
    assert_eq!(d.state().pid(&s("sleep")), Some(4242));
    let o = d.execute_finished(&s("sleep"), 4242);
    assert_eq!(o.reply, "sleep executed successfully");
    assert_eq!(o.save, Save::Snapshot);
    match d.kill(&s("sleep")) {
        KillStep::NotRunning { reply } => assert_eq!(reply, "sleep was not running via uniq-proc"),
        other => panic!("unexpected {:?}", other),
    }
}

#[test]
fn execute_finished_after_replacement_keeps_new_entry() {
    let mut d = fresh();
    d.add(s("a"), s("x"));
    d.execute_started(s("a"), 1);
    d.execute_started(s("a"), 2);
    let o = d.execute_finished(&s("a"), 1);
    assert_eq!(
        o.reply,
        "a executed successfully, but was restarted with very interesting timing"
    );
    assert_eq!(o.save, Save::Nothing);
    assert_eq!(d.state().pid(&s("a")), Some(2));
}

#[test]
fn execute_failed_answer() {
    assert_eq!(Daemon::execute_failed(&s("a")), "a could not be started");
}

#[test]
fn kill_twice() {
    let mut d = fresh();
    d.add(s("a"), s("x"));
    d.execute_started(s("a"), 77);
    match d.kill(&s("a")) {
        KillStep::Signal { pid } => assert_eq!(pid, 77),
        other => panic!("unexpected {:?}", other),
    }
    let o = d.kill_finished(&s("a"), true);
    assert_eq!(o.reply, "Successfully killed a");
    assert_eq!(o.save, Save::Snapshot);
    assert_eq!(d.state().pid(&s("a")), None);
    match d.kill(&s("a")) {
        KillStep::NotRunning { reply } => assert_eq!(reply, "a was not running via uniq-proc"),
        other => panic!("unexpected {:?}", other),
    }
    let o = d.kill_finished(&s("a"), true);
    assert_eq!(o.reply, "a was not running via uniq-proc");
    assert_eq!(o.save, Save::Nothing);
}

#[test]
fn kill_of_vanished_process_keeps_entry() {
    let mut d = fresh();
    d.execute_started(s("a"), 5);
    let o = d.kill_finished(&s("a"), false);
    assert_eq!(o.reply, "Failed to get the process of a");
    assert_eq!(o.save, Save::Nothing);
    assert_eq!(d.state().pid(&s("a")), Some(5));
}

#[test]
fn toggle_picks_verb() {
    let mut d = fresh();
    d.add(s("a"), s("x"));
    assert_eq!(d.toggle(&s("a")), ToggleStep::Execute);
    d.execute_started(s("a"), 3);
    assert_eq!(d.toggle(&s("a")), ToggleStep::Kill);
    d.kill_finished(&s("a"), true);
    assert_eq!(d.toggle(&s("a")), ToggleStep::Execute);
}

#[test]
fn restart_joins_answers() {
    let r = Daemon::restart(&s("a was not running via uniq-proc"), &s("a executed successfully"));
    assert_eq!(r, "a was not running via uniq-proc\na executed successfully");
}

#[test]
fn fixed_answers() {
    assert_eq!(fresh().alive(), "running");
    assert_eq!(Daemon::unparsable(), "Could not parse the command");
}

#[test]
fn snapshot_round_trip_with_keep() {
    let mut d = fresh();
    d.add(s("a"), s("x"));
    d.add(s("b"), s("y"));
    d.execute_started(s("a"), 9);
    let snap = DaemonState::from_entries(
        d.state().command_entries().clone(),
        d.state().running_entries().clone(),
    );
    let back = Daemon::new(true, Some(snap), None);
    assert_eq!(back.list(), d.list());
    assert_eq!(back.state().pid(&s("a")), Some(9));
    assert_eq!(back.state().running_entries(), d.state().running_entries());
    assert_eq!(back.state().command_entries(), d.state().command_entries());
}

#[test]
fn startup_prefers_command_store() {
    let snap = DaemonState::from_entries(vec![(s("a"), s("old"))], vec![(s("a"), 4)]);
    let d = Daemon::new(true, Some(snap), Some(vec![(s("b"), s("new"))]));
    assert_eq!(d.list(), "{\"b\":\"new\"}");
    assert_eq!(d.state().pid(&s("a")), Some(4));
}

#[test]
fn startup_without_keep_ignores_snapshot() {
    let snap = DaemonState::from_entries(vec![(s("a"), s("old"))], vec![(s("a"), 4)]);
    let d = Daemon::new(false, Some(snap), None);
    assert_eq!(d.list(), "{}");
    assert_eq!(d.state().pid(&s("a")), None);
}

#[test]
fn entries_later_duplicate_wins() {
    let st = DaemonState::from_entries(
        vec![(s("a"), s("1")), (s("b"), s("2")), (s("a"), s("3"))],
        vec![],
    );
    assert_eq!(st.command(&s("a")), Some(&s("3")));
    assert_eq!(st.command_entries().len(), 2);
}
