use lifecycle::commands::WorkerSignal;
use lifecycle::error::Error;
use lifecycle::types::ThreadSource;
use lifecycle::worker::{peer_handles, Handles, Worker, WorkerAction, WorkerEvent, WorkerPhase};

fn running(identity: ThreadSource) -> Worker {
    let mut w = Worker::new(identity);
    for h in peer_handles(identity) {
        w.step(WorkerEvent::PeerHandle(h));
    }
    assert_eq!(w.step(WorkerEvent::SetupSucceeded), WorkerAction::ReportReady);
    assert_eq!(w.step(WorkerEvent::Received(WorkerSignal::SupervisorReady)), WorkerAction::EnterRunning);
    assert_eq!(w.phase, WorkerPhase::Running);
    w
}

#[test]
fn wiring_hands_each_worker_its_peers() {
    assert_eq!(
        peer_handles(ThreadSource::Render),
        vec![ThreadSource::Supervisor, ThreadSource::Controller, ThreadSource::Process]
    );
    assert_eq!(
        peer_handles(ThreadSource::Controller),
        vec![ThreadSource::Supervisor, ThreadSource::Render, ThreadSource::Process]
    );
    assert_eq!(
        peer_handles(ThreadSource::Process),
        vec![ThreadSource::Supervisor, ThreadSource::Render, ThreadSource::Controller]
    );
    let mut w = Worker::new(ThreadSource::Controller);
    assert_eq!(w.step(WorkerEvent::PeerHandle(ThreadSource::Supervisor)), WorkerAction::Wait);
    assert_eq!(w.step(WorkerEvent::PeerHandle(ThreadSource::Render)), WorkerAction::Wait);
    assert_eq!(w.step(WorkerEvent::PeerHandle(ThreadSource::Process)), WorkerAction::Configure);
    assert_eq!(w.phase, WorkerPhase::Configuring);
}

#[test]
fn own_handle_or_duplicate_handle_is_a_bootstrap_failure() {
    let mut w = Worker::new(ThreadSource::Render);
    assert_eq!(w.step(WorkerEvent::PeerHandle(ThreadSource::Render)), WorkerAction::BroadcastCrash);
    assert_eq!(w.phase, WorkerPhase::Crashed);
    let mut w = Worker::new(ThreadSource::Render);
    w.step(WorkerEvent::PeerHandle(ThreadSource::Supervisor));
    assert_eq!(w.step(WorkerEvent::PeerHandle(ThreadSource::Supervisor)), WorkerAction::BroadcastCrash);
    // It held only the supervisor's handle: that is where its crash goes.
    assert_eq!(w.crash_targets(), vec![ThreadSource::Supervisor]);
}

#[test]
fn setup_failure_broadcasts_crash_and_never_reports_ready() {
    let mut w = Worker::new(ThreadSource::Process);
    for h in peer_handles(ThreadSource::Process) {
        w.step(WorkerEvent::PeerHandle(h));
    }
    assert_eq!(w.step(WorkerEvent::SetupFailed), WorkerAction::BroadcastCrash);
    assert_eq!(
        w.crash_targets(),
        vec![ThreadSource::Supervisor, ThreadSource::Render, ThreadSource::Controller]
    );
    assert!(w.has_returned());
    assert_eq!(w.step(WorkerEvent::Received(WorkerSignal::SupervisorReady)), WorkerAction::Wait);
    assert_eq!(w.phase, WorkerPhase::Crashed);
}

#[test]
fn bootstrap_payload_is_dispatched_while_configuring() {
    let mut w = Worker::new(ThreadSource::Render);
    for h in peer_handles(ThreadSource::Render) {
        w.step(WorkerEvent::PeerHandle(h));
    }
    assert_eq!(w.step(WorkerEvent::Received(WorkerSignal::Payload)), WorkerAction::Dispatch);
    assert_eq!(w.phase, WorkerPhase::Configuring);
}

#[test]
fn no_steady_state_before_supervisor_ready() {
    let mut w = Worker::new(ThreadSource::Render);
    for h in peer_handles(ThreadSource::Render) {
        w.step(WorkerEvent::PeerHandle(h));
    }
    w.step(WorkerEvent::SetupSucceeded);
    assert_eq!(w.phase, WorkerPhase::AwaitingSupervisorReady);
    // Anything else while waiting for the go is a protocol violation.
    assert_eq!(w.step(WorkerEvent::Received(WorkerSignal::Tick)), WorkerAction::BroadcastCrash);
    assert_eq!(w.phase, WorkerPhase::Crashed);
    let mut w = Worker::new(ThreadSource::Controller);
    for h in peer_handles(ThreadSource::Controller) {
        w.step(WorkerEvent::PeerHandle(h));
    }
    // SupervisorReady before the worker reported ready does not start it either.
    assert_eq!(
        w.step(WorkerEvent::Received(WorkerSignal::SupervisorReady)),
        WorkerAction::BroadcastCrash
    );
    assert_ne!(w.phase, WorkerPhase::Running);
}

#[test]
fn tick_on_empty_mailbox_changes_nothing() {
    let mut w = running(ThreadSource::Controller);
    let before = w;
    assert_eq!(w.step(WorkerEvent::Received(WorkerSignal::Tick)), WorkerAction::EndDrain);
    assert_eq!(w, before);
    assert_eq!(w.step(WorkerEvent::Received(WorkerSignal::Tick)), WorkerAction::EndDrain);
    assert_eq!(w, before);
}

#[test]
fn payload_in_steady_state_is_dispatched() {
    let mut w = running(ThreadSource::Process);
    let before = w;
    assert_eq!(w.step(WorkerEvent::Received(WorkerSignal::Payload)), WorkerAction::Dispatch);
    assert_eq!(w, before);
}

#[test]
fn failed_send_broadcasts_crash_once_to_each_peer() {
    let mut workers = vec![
        running(ThreadSource::Render),
        running(ThreadSource::Controller),
        running(ThreadSource::Process),
    ];
    // The simulation worker's send to a peer fails.
    assert_eq!(workers[2].step(WorkerEvent::Fault), WorkerAction::BroadcastCrash);
    let targets = workers[2].crash_targets();
    assert_eq!(
        targets,
        vec![ThreadSource::Supervisor, ThreadSource::Render, ThreadSource::Controller]
    );
    // A second fault while unwinding sends nothing more.
    assert_eq!(workers[2].step(WorkerEvent::Fault), WorkerAction::Wait);
    let mut received = [0usize; 3];
    let mut rebroadcasts = 0usize;
    for t in targets {
        match t {
            ThreadSource::Render => {
                received[0] += 1;
                let a = workers[0].step(WorkerEvent::Received(WorkerSignal::ThreadCrash(ThreadSource::Process)));
                assert_eq!(a, WorkerAction::Unwind(ThreadSource::Process));
                if a == WorkerAction::BroadcastCrash {
                    rebroadcasts += 1;
                }
            },
            ThreadSource::Controller => {
                received[1] += 1;
                let a = workers[1].step(WorkerEvent::Received(WorkerSignal::ThreadCrash(ThreadSource::Process)));
                assert_eq!(a, WorkerAction::Unwind(ThreadSource::Process));
                if a == WorkerAction::BroadcastCrash {
                    rebroadcasts += 1;
                }
            },
            ThreadSource::Supervisor => received[2] += 1,
            other => panic!("unexpected target {:?}", other),
        }
    }
    assert_eq!(received, [1, 1, 1]);
    assert_eq!(rebroadcasts, 0);
    assert_eq!(workers[0].phase, WorkerPhase::Crashed);
    // Once unwound, a failing send of its own broadcasts nothing.
    assert_eq!(workers[0].step(WorkerEvent::Fault), WorkerAction::Wait);
}

#[test]
fn shutdown_then_exit_only_on_supervisor_finished() {
    let mut w = running(ThreadSource::Render);
    assert_eq!(w.step(WorkerEvent::Received(WorkerSignal::Shutdown)), WorkerAction::ReportFinished);
    assert_eq!(w.phase, WorkerPhase::AwaitingSupervisorFinished);
    assert!(!w.has_returned());
    assert_eq!(w.step(WorkerEvent::Received(WorkerSignal::SupervisorFinished)), WorkerAction::Exit);
    assert!(w.has_returned());
    assert_eq!(w.phase, WorkerPhase::Finished);
    let mut w = running(ThreadSource::Process);
    w.step(WorkerEvent::Received(WorkerSignal::Shutdown));
    assert_eq!(w.step(WorkerEvent::Received(WorkerSignal::Payload)), WorkerAction::BroadcastCrash);
}

#[test]
fn unexpected_control_tag_in_steady_state_is_a_fault() {
    let mut w = running(ThreadSource::Controller);
    assert_eq!(
        w.step(WorkerEvent::Received(WorkerSignal::SupervisorFinished)),
        WorkerAction::BroadcastCrash
    );
    assert_eq!(w.phase, WorkerPhase::Crashed);
}

#[test]
fn handles_lookup() {
    let mut h = Handles::new();
    assert!(!h.has(ThreadSource::Supervisor));
    assert!(h.crash_targets().is_empty());
    h.process = true;
    h.supervisor = true;
    assert!(h.has(ThreadSource::Process));
    assert!(!h.has(ThreadSource::Algorithm));
    assert_eq!(h.crash_targets(), vec![ThreadSource::Supervisor, ThreadSource::Process]);
}

#[test]
fn errors_map_to_the_crash_policy() {
    assert_eq!(
        Error::ThreadCrash(ThreadSource::Render).event(),
        WorkerEvent::Received(WorkerSignal::ThreadCrash(ThreadSource::Render))
    );
    assert_eq!(Error::BrokenChannel(ThreadSource::Process).event(), WorkerEvent::Fault);
    assert_eq!(Error::Poisoned.event(), WorkerEvent::Fault);
    assert_eq!(Error::BootstrapFailure.event(), WorkerEvent::SetupFailed);
    // A received crash unwinds; a broken channel broadcasts.
    let mut w = running(ThreadSource::Render);
    assert_eq!(
        w.step(Error::ThreadCrash(ThreadSource::Process).event()),
        WorkerAction::Unwind(ThreadSource::Process)
    );
    let mut w = running(ThreadSource::Render);
    assert_eq!(w.step(Error::BrokenChannel(ThreadSource::Process).event()), WorkerAction::BroadcastCrash);
}
