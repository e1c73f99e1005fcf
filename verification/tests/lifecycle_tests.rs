use kapsule::runtime::cli::Command;
use kapsule::runtime::commands::{execute, Action, CommandError, Event, Report, Session};
use kapsule::runtime::spec::{ConsoleSize, Process, Root, RuntimeSpec};
use kapsule::runtime::state::{ContainerState, Status};

fn state(id: &str, status: Status, pid: u32) -> ContainerState {
    ContainerState {
        version: "1.0.2".to_string(),
        id: id.to_string(),
        status,
        pid,
        bundle: "/root/bundle".to_string(),
        annotations: vec![("k".to_string(), "v".to_string())],
    }
}

fn spec(args: &[&str]) -> RuntimeSpec {
    RuntimeSpec {
        oci_version: "1.0.2".to_string(),
        root: Root { path: "rootfs".to_string(), readonly: false },
        process: Process {
            terminal: false,
            console_size: ConsoleSize { height: 0, width: 0 },
            cwd: Some("/".to_string()),
            env: vec!["PATH=/bin".to_string(), "EMPTY=".to_string(), "JUNK".to_string(), "A=b=c".to_string()],
            args: args.iter().map(|a| a.to_string()).collect(),
        },
        hostname: Some("box".to_string()),
    }
}

fn step(session: Session, event: Event) -> (Session, Action) {
    assert!(session.accepts(&event));
    session.step(event)
}

fn expect_path(a: &Action) -> String {
    match a {
        Action::CheckPath(p) => p.clone(),
        other => panic!("expected a path check, got {:?}", other),
    }
}

#[test]
fn create_records_a_created_state() {
    let (s, a) = execute(Command::Create { id: "c1".to_string(), bundle: "bundle".to_string() });
    assert_eq!(expect_path(&a), "bundle");
    let (s, a) = step(s, Event::Exists(true));
    assert_eq!(expect_path(&a), "bundle/config.json");
    let (s, a) = step(s, Event::Exists(true));
    assert!(matches!(&a, Action::LoadSpec(b) if b == "bundle"));
    let (s, a) = step(s, Event::SpecLoaded(spec(&["/bin/sh"])));
    assert!(matches!(&a, Action::Canonicalize(b) if b == "bundle"));
    let (s, a) = step(s, Event::Canonical("/root/bundle".to_string()));
    match &a {
        Action::Save(st) => {
            assert_eq!(st.version, "1.0.2");
            assert_eq!(st.id, "c1");
            assert_eq!(st.status, Status::Created);
            assert_eq!(st.pid, 0);
            assert_eq!(st.bundle, "/root/bundle");
            assert!(st.annotations.is_empty());
        }
        other => panic!("{:?}", other),
    }
    let (s, a) = step(s, Event::Done);
    assert!(matches!(a, Action::Finish(Ok(Report::Created))));
    assert!(s.is_finished());
}

#[test]
fn create_refuses_missing_bundle_and_config() {
    let (s, _) = execute(Command::Create { id: "c1".to_string(), bundle: "/nope".to_string() });
    let (s, a) = step(s, Event::Exists(false));
    match a {
        Action::Finish(Err(e)) => {
            assert!(matches!(&e, CommandError::BundleNotFound(b) if b == "/nope"));
            assert_eq!(e.message(), "bundle does not exist: /nope");
        }
        other => panic!("{:?}", other),
    }
    assert!(s.is_finished());

    let (s, _) = execute(Command::Create { id: "c1".to_string(), bundle: "/b/".to_string() });
    let (s, a) = step(s, Event::Exists(true));
    assert_eq!(expect_path(&a), "/b/config.json");
    let (_, a) = step(s, Event::Exists(false));
    match a {
        Action::Finish(Err(e)) => assert_eq!(e.message(), "config.json not found in bundle: /b/"),
        other => panic!("{:?}", other),
    }
}

#[test]
fn create_reports_a_bad_spec() {
    let (s, _) = execute(Command::Create { id: "c1".to_string(), bundle: "b".to_string() });
    let (s, _) = step(s, Event::Exists(true));
    let (s, _) = step(s, Event::Exists(true));
    let (_, a) = step(s, Event::Failed("missing field `root`".to_string()));
    match a {
        Action::Finish(Err(e)) => {
            assert!(matches!(&e, CommandError::InvalidSpec(m) if m == "missing field `root`"));
            assert_eq!(e.message(), "failed to load config.json");
        }
        other => panic!("{:?}", other),
    }
}

#[test]
fn create_reports_a_path_that_cannot_be_resolved() {
    let (s, _) = execute(Command::Create { id: "c1".to_string(), bundle: "b".to_string() });
    let (s, _) = step(s, Event::Exists(true));
    let (s, _) = step(s, Event::Exists(true));
    let (s, _) = step(s, Event::SpecLoaded(spec(&[])));
    let (_, a) = step(s, Event::Failed("denied".to_string()));
    match a {
        Action::Finish(Err(e)) => {
            assert_eq!(e.message(), "failed to canonicalize bundle path: denied")
        }
        other => panic!("{:?}", other),
    }
}

#[test]
fn start_runs_a_created_container() {
    let (s, a) = execute(Command::Start { id: "c1".to_string() });
    assert_eq!(expect_path(&a), "/run/kapsule/c1/state.json");
    let (s, a) = step(s, Event::Exists(true));
    assert!(matches!(&a, Action::LoadState(id) if id == "c1"));
    let (s, a) = step(s, Event::Loaded(state("c1", Status::Created, 0)));
    assert!(matches!(&a, Action::LoadSpec(b) if b == "/root/bundle"));
    let (s, a) = step(s, Event::SpecLoaded(spec(&["/bin/sh", "-c", "echo hello"])));
    match &a {
        Action::Spawn(plan) => {
            assert_eq!(plan.hostname.as_deref(), Some("box"));
            assert_eq!(plan.rootfs, "/root/bundle/rootfs");
            assert_eq!(plan.cwd.as_deref(), Some("/"));
            assert_eq!(plan.program.as_deref(), Some("/bin/sh"));
            assert_eq!(plan.args, vec!["-c".to_string(), "echo hello".to_string()]);
            assert_eq!(
                plan.env,
                vec![
                    ("PATH".to_string(), "/bin".to_string()),
                    ("EMPTY".to_string(), "".to_string()),
                    ("A".to_string(), "b=c".to_string()),
                ]
            );
        }
        other => panic!("{:?}", other),
    }
    let (s, a) = step(s, Event::Pid(4242));
    match &a {
        Action::Save(st) => {
            assert_eq!(st.status, Status::Running);
            assert_eq!(st.pid, 4242);
            assert_eq!(st.id, "c1");
            assert_eq!(st.bundle, "/root/bundle");
            assert_eq!(st.annotations, vec![("k".to_string(), "v".to_string())]);
        }
        other => panic!("{:?}", other),
    }
    let (s, a) = step(s, Event::Done);
    match &a {
        Action::WritePidfile(p, pid) => {
            assert_eq!(p, "/run/kapsule/c1/pidfile");
            assert_eq!(*pid, 4242);
        }
        other => panic!("{:?}", other),
    }
    let (s, a) = step(s, Event::Done);
    assert!(matches!(a, Action::WaitChild(4242)));
    let (s, a) = step(s, Event::Done);
    match &a {
        Action::Save(st) => {
            assert_eq!(st.status, Status::Stopped);
            assert_eq!(st.pid, 4242);
            assert_eq!(st.annotations, vec![("k".to_string(), "v".to_string())]);
        }
        other => panic!("{:?}", other),
    }
    let (s, a) = step(s, Event::Done);
    assert!(matches!(a, Action::Finish(Ok(Report::Started))));
    assert!(s.is_finished());
}

#[test]
fn start_without_arguments_plans_no_program() {
    let (s, _) = execute(Command::Start { id: "c1".to_string() });
    let (s, _) = step(s, Event::Exists(true));
    let (s, _) = step(s, Event::Loaded(state("c1", Status::Created, 0)));
    let (_, a) = step(s, Event::SpecLoaded(spec(&[])));
    match &a {
        Action::Spawn(plan) => {
            assert!(plan.program.is_none());
            assert!(plan.args.is_empty());
        }
        other => panic!("{:?}", other),
    }
}

#[test]
fn start_reports_a_bad_spec_and_a_failed_clone() {
    let (s, _) = execute(Command::Start { id: "c1".to_string() });
    let (s, _) = step(s, Event::Exists(true));
    let (s, _) = step(s, Event::Loaded(state("c1", Status::Created, 0)));
    let (_, a) = step(s, Event::Failed("No such file or directory".to_string()));
    match a {
        Action::Finish(Err(e)) => assert_eq!(e.message(), "failed to load config.json"),
        other => panic!("{:?}", other),
    }
    let (s, _) = execute(Command::Start { id: "c1".to_string() });
    let (s, _) = step(s, Event::Exists(true));
    let (s, _) = step(s, Event::Loaded(state("c1", Status::Created, 0)));
    let (s, _) = step(s, Event::SpecLoaded(spec(&["/bin/true"])));
    let (_, a) = step(s, Event::Failed("clone failed: EPERM".to_string()));
    match a {
        Action::Finish(Err(e)) => assert_eq!(e.message(), "clone failed: EPERM"),
        other => panic!("{:?}", other),
    }
}

#[test]
fn start_refuses_a_running_container() {
    let (s, _) = execute(Command::Start { id: "c1".to_string() });
    let (s, _) = step(s, Event::Exists(true));
    let (_, a) = step(s, Event::Loaded(state("c1", Status::Running, 7)));
    match a {
        Action::Finish(Err(e)) => assert_eq!(e.message(), "container c1 is not in created state"),
        other => panic!("{:?}", other),
    }
}

#[test]
fn missing_containers_are_reported() {
    for cmd in [
        Command::Start { id: "gone".to_string() },
        Command::State { id: "gone".to_string() },
        Command::Kill { id: "gone".to_string(), signal: 9 },
        Command::Delete { id: "gone".to_string() },
        Command::Pause { id: "gone".to_string() },
        Command::Resume { id: "gone".to_string() },
    ] {
        let (s, a) = execute(cmd);
        assert_eq!(expect_path(&a), "/run/kapsule/gone/state.json");
        let (_, a) = step(s, Event::Exists(false));
        match a {
            Action::Finish(Err(e)) => assert_eq!(e.message(), "container gone does not exist"),
            other => panic!("{:?}", other),
        }
    }
}

#[test]
fn state_reports_the_record() {
    let (s, _) = execute(Command::State { id: "c1".to_string() });
    let (s, _) = step(s, Event::Exists(true));
    let (_, a) = step(s, Event::Loaded(state("c1", Status::Paused, 12)));
    match a {
        Action::Finish(Ok(Report::State(st))) => {
            assert_eq!(st.status, Status::Paused);
            assert_eq!(st.pid, 12);
        }
        other => panic!("{:?}", other),
    }
}

#[test]
fn kill_needs_a_process() {
    let (s, _) = execute(Command::Kill { id: "c1".to_string(), signal: 15 });
    let (s, _) = step(s, Event::Exists(true));
    let (_, a) = step(s, Event::Loaded(state("c1", Status::Created, 0)));
    match a {
        Action::Finish(Err(e)) => assert_eq!(e.message(), "container c1 has no active process"),
        other => panic!("{:?}", other),
    }
    let (s, _) = execute(Command::Kill { id: "c1".to_string(), signal: 15 });
    let (s, _) = step(s, Event::Exists(true));
    let (_, a) = step(s, Event::Loaded(state("c1", Status::Running, 99)));
    assert!(matches!(a, Action::Finish(Ok(Report::Killed))));
}

#[test]
fn delete_removes_the_directory() {
    let (s, _) = execute(Command::Delete { id: "c1".to_string() });
    let (s, a) = step(s, Event::Exists(true));
    assert!(matches!(&a, Action::RemoveDir(p) if p == "/run/kapsule/c1"));
    let (_, a) = step(s, Event::Done);
    assert!(matches!(a, Action::Finish(Ok(Report::Deleted))));
}

#[test]
fn pause_then_resume_restores_the_state() {
    let (s, _) = execute(Command::Pause { id: "c1".to_string() });
    let (s, _) = step(s, Event::Exists(true));
    let (s, a) = step(s, Event::Loaded(state("c1", Status::Running, 31)));
    let paused = match a {
        Action::Save(st) => st,
        other => panic!("{:?}", other),
    };
    assert_eq!(paused.status, Status::Paused);
    assert_eq!(paused.pid, 31);
    let (_, a) = step(s, Event::Done);
    assert!(matches!(a, Action::Finish(Ok(Report::Paused))));

    let (s, _) = execute(Command::Resume { id: "c1".to_string() });
    let (s, _) = step(s, Event::Exists(true));
    let (s, a) = step(s, Event::Loaded(paused));
    match &a {
        Action::Save(st) => {
            let running = state("c1", Status::Running, 31);
            assert_eq!(st.status, running.status);
            assert_eq!(st.pid, running.pid);
            assert_eq!(st.id, running.id);
            assert_eq!(st.version, running.version);
            assert_eq!(st.bundle, running.bundle);
            assert_eq!(st.annotations, running.annotations);
        }
        other => panic!("{:?}", other),
    }
    let (_, a) = step(s, Event::Done);
    assert!(matches!(a, Action::Finish(Ok(Report::Resumed))));
}

#[test]
fn pause_and_resume_check_the_status() {
    let (s, _) = execute(Command::Pause { id: "c1".to_string() });
    let (s, _) = step(s, Event::Exists(true));
    let (_, a) = step(s, Event::Loaded(state("c1", Status::Created, 0)));
    match a {
        Action::Finish(Err(e)) => assert_eq!(e.message(), "container c1 is not running"),
        other => panic!("{:?}", other),
    }
    let (s, _) = execute(Command::Resume { id: "c1".to_string() });
    let (s, _) = step(s, Event::Exists(true));
    let (_, a) = step(s, Event::Loaded(state("c1", Status::Running, 3)));
    match a {
        Action::Finish(Err(e)) => assert_eq!(e.message(), "container c1 is not paused"),
        other => panic!("{:?}", other),
    }
}

#[test]
fn failed_io_ends_the_command() {
    let (s, _) = execute(Command::Pause { id: "c1".to_string() });
    let (s, _) = step(s, Event::Exists(true));
    let (s, a) = step(s, Event::Failed("failed to parse state for c1: eof".to_string()));
    match a {
        Action::Finish(Err(e)) => assert_eq!(e.message(), "failed to parse state for c1: eof"),
        other => panic!("{:?}", other),
    }
    assert!(s.is_finished());
    assert!(!s.accepts(&Event::Done));
}

#[test]
fn sessions_accept_only_the_awaited_answer() {
    let (s, _) = execute(Command::Start { id: "c1".to_string() });
    assert!(s.accepts(&Event::Exists(true)));
    assert!(!s.accepts(&Event::Done));
    assert!(!s.accepts(&Event::Pid(1)));
    assert!(!s.accepts(&Event::SpecLoaded(spec(&[]))));
    assert!(s.accepts(&Event::Failed("x".to_string())));
}

#[test]
fn report_lines() {
    assert_eq!(Report::Created.message(), Some("created"));
    assert_eq!(Report::Started.message(), Some("started"));
    assert_eq!(Report::Killed.message(), Some("killed"));
    assert_eq!(Report::Deleted.message(), Some("deleted"));
    assert_eq!(Report::Paused.message(), Some("paused"));
    assert_eq!(Report::Resumed.message(), Some("resumed"));
    assert_eq!(Report::State(state("a", Status::Stopped, 0)).message(), None);
}
