use maestro::catcher::SignalCatcher;
use maestro::handler::Effect;
use maestro::handler::SignalHandler;
use maestro::registry::ChildPid;
use maestro::registry::Pid;
use maestro::signal::Signal;
use maestro::signal::SIGNALS_TO_HANDLE;
use nix::errno::Errno;
use nix::sys::wait::waitid;
use nix::sys::wait::waitpid;
use nix::sys::wait::Id;
use nix::sys::wait::WaitPidFlag;
use nix::sys::wait::WaitStatus;
use std::sync::atomic::AtomicBool;
use std::sync::atomic::Ordering;
use std::sync::Arc;
use std::time::Duration;
use std::time::Instant;

fn spawn_true() -> nix::unistd::Pid {
    let actions = nix::spawn::PosixSpawnFileActions::init().unwrap();
    let attributes = nix::spawn::PosixSpawnAttr::init().unwrap();
    let environment = [c"PATH=/usr/local/bin:/usr/bin:/bin"];
    nix::spawn::posix_spawnp(c"true", &actions, &attributes, &[c"true"], &environment).unwrap()
}

fn spawn_sleeper() -> nix::unistd::Pid {
    let actions = nix::spawn::PosixSpawnFileActions::init().unwrap();
    let attributes = nix::spawn::PosixSpawnAttr::init().unwrap();
    let environment = [c"PATH=/usr/local/bin:/usr/bin:/bin"];
    nix::spawn::posix_spawnp(c"sleep", &actions, &attributes, &[c"sleep", c"30"], &environment)
        .unwrap()
}

fn await_end(pid: nix::unistd::Pid) {
    waitid(Id::Pid(pid), WaitPidFlag::WEXITED | WaitPidFlag::WNOWAIT).unwrap();
}

fn theirs(signal: Signal) -> nix::sys::signal::Signal {
    nix::sys::signal::Signal::try_from(signal.to_number()).unwrap()
}

fn kill_and_collect(pid: nix::unistd::Pid) {
    nix::sys::signal::kill(pid, nix::sys::signal::Signal::SIGKILL).unwrap();
    waitpid(pid, None).unwrap();
}

fn me() -> Pid {
    Pid::from_raw(nix::unistd::getpid().as_raw())
}

/// Registers a flag that is raised when the signal arrives at this process.
fn flag_for(signal: Signal) -> Arc<AtomicBool> {
    let flag = Arc::new(AtomicBool::new(false));
    signal_hook::flag::register(signal.to_number(), Arc::clone(&flag)).unwrap();
    flag
}

fn raised_within_five_seconds(flag: &AtomicBool) -> bool {
    let start = Instant::now();
    while start.elapsed() < Duration::from_secs(5) {
        if flag.load(Ordering::SeqCst) {
            return true;
        }
        std::hint::spin_loop();
    }
    false
}

fn handler_for(registry: &Arc<ChildPid>) -> SignalHandler {
    let (_sender, receiver) = SignalCatcher::channel();
    SignalHandler::new(receiver, Arc::clone(registry), &SIGNALS_TO_HANDLE)
}

#[test]
fn a_signal_before_the_pid_is_published_is_dropped() {
    let registry = Arc::new(ChildPid::default());
    let handler = handler_for(&registry);
    let handled = handler.dispatch(Signal::SIGTERM);
    assert_eq!(handled.signal, Signal::SIGTERM);
    assert_eq!(handled.registered, None);
    assert_eq!(handled.effects, Vec::<Effect>::new());
}

#[test]
fn a_dropped_signal_reaches_no_process() {
    let child = spawn_sleeper();
    let arrived = flag_for(Signal::SIGUSR1);
    let registry = Arc::new(ChildPid::default());
    let handler = handler_for(&registry);
    let handled = handler.dispatch(Signal::SIGUSR1);
    assert_eq!(handled.effects, Vec::<Effect>::new());
    assert_eq!(
        waitpid(child, Some(WaitPidFlag::WNOHANG)),
        Ok(WaitStatus::StillAlive)
    );
    assert!(!arrived.load(Ordering::SeqCst));
    kill_and_collect(child);
}

#[test]
fn every_handled_signal_is_dropped_before_the_pid_is_published() {
    let registry = Arc::new(ChildPid::default());
    let handler = handler_for(&registry);
    for signal in SIGNALS_TO_HANDLE {
        let handled = handler.dispatch(signal);
        assert_eq!(handled.registered, None);
        assert!(!handled
            .effects
            .iter()
            .any(|effect| matches!(effect, Effect::Forward { .. })));
    }
}

#[test]
fn a_signal_after_the_pid_is_published_reaches_the_child() {
    let child = spawn_sleeper();
    let pid = Pid::from_raw(child.as_raw());
    let registry = Arc::new(ChildPid::default());
    let handler = handler_for(&registry);
    registry.set_pid(pid);
    let handled = handler.dispatch(Signal::SIGTERM);
    assert_eq!(handled.signal, Signal::SIGTERM);
    assert_eq!(handled.registered, Some(pid));
    assert_eq!(
        handled.effects,
        vec![Effect::Forward { pid, signal: Signal::SIGTERM }]
    );
    assert_eq!(
        waitpid(child, None),
        Ok(WaitStatus::Signaled(
            child,
            nix::sys::signal::Signal::SIGTERM,
            false
        ))
    );
}

#[test]
fn every_handled_signal_reaches_the_published_process() {
    let mut flags = Vec::new();
    for signal in SIGNALS_TO_HANDLE {
        flags.push(flag_for(signal));
    }
    let registry = Arc::new(ChildPid::from(me()));
    let handler = handler_for(&registry);
    for (i, signal) in SIGNALS_TO_HANDLE.iter().enumerate() {
        assert!(!flags[i].load(Ordering::SeqCst));
        let handled = handler.dispatch(*signal);
        assert_eq!(handled.registered, Some(me()));
        assert_eq!(
            handled.effects.last(),
            Some(&Effect::Forward { pid: me(), signal: *signal })
        );
        assert!(raised_within_five_seconds(&flags[i]));
    }
}

#[test]
fn the_signal_that_is_forwarded_is_the_one_that_was_caught() {
    let usr1 = flag_for(Signal::SIGUSR1);
    let usr2 = flag_for(Signal::SIGUSR2);
    let registry = Arc::new(ChildPid::from(me()));
    let handler = handler_for(&registry);
    handler.dispatch(Signal::SIGUSR2);
    assert!(raised_within_five_seconds(&usr2));
    assert!(!usr1.load(Ordering::SeqCst));
}

#[test]
fn a_child_killed_by_a_forwarded_signal_dies_of_that_signal() {
    for signal in [Signal::SIGHUP, Signal::SIGINT, Signal::SIGQUIT, Signal::SIGUSR1] {
        let child = spawn_sleeper();
        let pid = Pid::from_raw(child.as_raw());
        let registry = Arc::new(ChildPid::from(pid));
        let handler = handler_for(&registry);
        handler.dispatch(signal);
        match waitpid(child, None).unwrap() {
            WaitStatus::Signaled(who, what, _) => {
                assert_eq!(who, child);
                assert_eq!(what, theirs(signal));
            }
            other => panic!("the child was not killed: {:?}", other),
        }
    }
}

#[test]
fn forwarding_to_a_process_that_is_gone_is_no_error() {
    let child = spawn_true();
    waitpid(child, None).unwrap();
    let pid = Pid::from_raw(child.as_raw());
    let registry = Arc::new(ChildPid::from(pid));
    let handler = handler_for(&registry);
    let handled = handler.dispatch(Signal::SIGTERM);
    assert_eq!(
        handled.effects,
        vec![Effect::Forward { pid, signal: Signal::SIGTERM }]
    );
}

#[test]
fn the_child_signal_drains_even_with_no_pid_published() {
    let ended = [spawn_true(), spawn_true()];
    for child in ended {
        await_end(child);
    }
    let registry = Arc::new(ChildPid::default());
    let handler = handler_for(&registry);
    let handled = handler.dispatch(Signal::SIGCHLD);
    assert_eq!(handled.registered, None);
    assert_eq!(handled.effects, vec![Effect::Drain]);
    for child in ended {
        assert_eq!(waitpid(child, None), Err(Errno::ECHILD));
    }
}

#[test]
fn the_child_signal_drains_and_then_forwards() {
    let sleeper = spawn_sleeper();
    let ended = [spawn_true(), spawn_true(), spawn_true()];
    for child in ended {
        await_end(child);
    }
    let pid = Pid::from_raw(sleeper.as_raw());
    let registry = Arc::new(ChildPid::from(pid));
    let handler = handler_for(&registry);
    let handled = handler.dispatch(Signal::SIGCHLD);
    assert_eq!(handled.registered, Some(pid));
    assert_eq!(
        handled.effects,
        vec![Effect::Drain, Effect::Forward { pid, signal: Signal::SIGCHLD }]
    );
    for child in ended {
        assert_eq!(waitpid(child, None), Err(Errno::ECHILD));
    }
    assert_eq!(
        waitpid(sleeper, Some(WaitPidFlag::WNOHANG)),
        Ok(WaitStatus::StillAlive)
    );
    kill_and_collect(sleeper);
}

#[test]
fn no_other_signal_drains() {
    let ended = spawn_true();
    await_end(ended);
    let registry = Arc::new(ChildPid::default());
    let handler = handler_for(&registry);
    for signal in SIGNALS_TO_HANDLE {
        if signal != Signal::SIGCHLD {
            let handled = handler.dispatch(signal);
            assert!(!handled.effects.contains(&Effect::Drain));
        }
    }
    assert_eq!(
        waitpid(ended, None),
        Ok(WaitStatus::Exited(ended, 0))
    );
}

#[test]
fn a_child_that_ended_is_collected_by_its_own_child_signal() {
    let child = spawn_true();
    await_end(child);
    let pid = Pid::from_raw(child.as_raw());
    let registry = Arc::new(ChildPid::from(pid));
    let handler = handler_for(&registry);
    let handled = handler.dispatch(Signal::SIGCHLD);
    assert_eq!(
        handled.effects,
        vec![Effect::Drain, Effect::Forward { pid, signal: Signal::SIGCHLD }]
    );
    assert_eq!(waitpid(child, None), Err(Errno::ECHILD));
}

#[test]
fn signals_are_served_in_the_order_in_which_they_were_sent() {
    let usr1 = flag_for(Signal::SIGUSR1);
    let usr2 = flag_for(Signal::SIGUSR2);
    let (sender, receiver) = SignalCatcher::channel();
    let registry = Arc::new(ChildPid::from(me()));
    let handler = SignalHandler::new(receiver, Arc::clone(&registry), &SIGNALS_TO_HANDLE);
    sender.send(Signal::SIGUSR1).unwrap();
    sender.send(Signal::SIGUSR2).unwrap();

    let first = handler.serve_next().unwrap();
    assert_eq!(first.signal, Signal::SIGUSR1);
    assert_eq!(
        first.effects,
        vec![Effect::Forward { pid: me(), signal: Signal::SIGUSR1 }]
    );
    assert!(raised_within_five_seconds(&usr1));
    assert!(!usr2.load(Ordering::SeqCst));

    let second = handler.serve_next().unwrap();
    assert_eq!(second.signal, Signal::SIGUSR2);
    assert_eq!(
        second.effects,
        vec![Effect::Forward { pid: me(), signal: Signal::SIGUSR2 }]
    );
    assert!(raised_within_five_seconds(&usr2));
}

#[test]
fn a_long_run_of_signals_keeps_its_order() {
    let (sender, receiver) = SignalCatcher::channel();
    let registry = Arc::new(ChildPid::default());
    let handler = SignalHandler::new(receiver, Arc::clone(&registry), &SIGNALS_TO_HANDLE);
    let run = [
        Signal::SIGUSR2,
        Signal::SIGUSR1,
        Signal::SIGHUP,
        Signal::SIGUSR1,
        Signal::SIGWINCH,
        Signal::SIGTERM,
        Signal::SIGUSR2,
    ];
    for signal in run {
        sender.send(signal).unwrap();
    }
    for signal in run {
        assert_eq!(handler.serve_next().unwrap().signal, signal);
    }
}

#[test]
fn signals_sent_before_the_publication_are_dropped_and_later_ones_forwarded() {
    let arrived = flag_for(Signal::SIGWINCH);
    let (sender, receiver) = SignalCatcher::channel();
    let registry = Arc::new(ChildPid::default());
    let handler = SignalHandler::new(receiver, Arc::clone(&registry), &SIGNALS_TO_HANDLE);
    sender.send(Signal::SIGWINCH).unwrap();
    let early = handler.serve_next().unwrap();
    assert_eq!(early.effects, Vec::<Effect>::new());
    assert!(!arrived.load(Ordering::SeqCst));

    registry.set_pid(me());
    sender.send(Signal::SIGWINCH).unwrap();
    let late = handler.serve_next().unwrap();
    assert_eq!(
        late.effects,
        vec![Effect::Forward { pid: me(), signal: Signal::SIGWINCH }]
    );
    assert!(raised_within_five_seconds(&arrived));
}

#[test]
fn serving_ends_when_the_channel_is_closed() {
    let (sender, receiver) = SignalCatcher::channel();
    let registry = Arc::new(ChildPid::default());
    let handler = SignalHandler::new(receiver, Arc::clone(&registry), &SIGNALS_TO_HANDLE);
    sender.send(Signal::SIGHUP).unwrap();
    drop(sender);
    assert_eq!(handler.serve_next().unwrap().signal, Signal::SIGHUP);
    assert!(handler.serve_next().is_none());
    assert!(handler.serve_next().is_none());
}

#[test]
fn the_handler_blocks_the_signals_it_was_given() {
    let (_sender, receiver) = SignalCatcher::channel();
    let registry = Arc::new(ChildPid::default());
    let handler = SignalHandler::new(receiver, registry, &[Signal::SIGUSR1, Signal::SIGTERM]);
    assert_eq!(
        handler.masker().signals(),
        vec![Signal::SIGUSR1, Signal::SIGTERM]
    );
    assert!(handler.masker().block_for_thread().is_ok());
    let blocked = nix::sys::signal::SigSet::thread_get_mask().unwrap();
    assert!(blocked.contains(nix::sys::signal::Signal::SIGUSR1));
    assert!(blocked.contains(nix::sys::signal::Signal::SIGTERM));
    assert!(!blocked.contains(nix::sys::signal::Signal::SIGHUP));
    assert!(handler.masker().allow_for_thread().is_ok());
}

#[test]
fn the_forwarding_thread_serves_until_the_channel_is_closed() {
    let (sender, receiver) = SignalCatcher::channel();
    let registry = Arc::new(ChildPid::default());
    let handler = SignalHandler::new(receiver, Arc::clone(&registry), &[Signal::SIGURG]);
    for signal in [Signal::SIGHUP, Signal::SIGCHLD, Signal::SIGTERM] {
        sender.send(signal).unwrap();
    }
    drop(sender);
    assert_eq!(handler.run().ok(), Some(3));
    let blocked = nix::sys::signal::SigSet::thread_get_mask().unwrap();
    assert!(blocked.contains(nix::sys::signal::Signal::SIGURG));
    assert_eq!(handler.run().ok(), Some(0));
}

#[test]
fn the_forwarding_thread_forwards_what_it_serves() {
    let child = spawn_sleeper();
    let pid = Pid::from_raw(child.as_raw());
    let (sender, receiver) = SignalCatcher::channel();
    let registry = Arc::new(ChildPid::from(pid));
    let handler = SignalHandler::new(receiver, Arc::clone(&registry), &[Signal::SIGURG]);
    sender.send(Signal::SIGINT).unwrap();
    drop(sender);
    assert_eq!(handler.run().ok(), Some(1));
    assert_eq!(
        waitpid(child, None),
        Ok(WaitStatus::Signaled(
            child,
            nix::sys::signal::Signal::SIGINT,
            false
        ))
    );
}

#[test]
fn nothing_received_is_served_with_nothing() {
    let registry = Arc::new(ChildPid::from(me()));
    let handler = handler_for(&registry);
    assert!(handler.serve(None).is_none());
}

#[test]
fn a_received_signal_is_served_with_its_account() {
    let arrived = flag_for(Signal::SIGWINCH);
    let registry = Arc::new(ChildPid::from(me()));
    let handler = handler_for(&registry);
    let handled = handler.serve(Some(Signal::SIGWINCH)).unwrap();
    assert_eq!(handled.signal, Signal::SIGWINCH);
    assert_eq!(handled.registered, Some(me()));
    assert_eq!(
        handled.effects,
        vec![Effect::Forward { pid: me(), signal: Signal::SIGWINCH }]
    );
    assert!(raised_within_five_seconds(&arrived));

    let empty = Arc::new(ChildPid::default());
    let dropping = handler_for(&empty);
    let dropped = dropping.serve(Some(Signal::SIGHUP)).unwrap();
    assert_eq!(dropped.signal, Signal::SIGHUP);
    assert_eq!(dropped.effects, Vec::<Effect>::new());
}
