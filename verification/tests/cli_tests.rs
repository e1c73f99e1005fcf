use kapsule::runtime::cli::{
    interpret_args, parse_args, parse_u32, CliError, Command, CommandKind, Invocation, HELP,
};

fn words(ws: &[&str]) -> Vec<String> {
    ws.iter().map(|w| w.to_string()).collect()
}

#[test]
fn decimal_numbers() {
    assert_eq!(parse_u32("15"), Some(15));
    assert_eq!(parse_u32("0"), Some(0));
    assert_eq!(parse_u32("+9"), Some(9));
    assert_eq!(parse_u32("007"), Some(7));
    assert_eq!(parse_u32("4294967295"), Some(4294967295));
    assert_eq!(parse_u32("4294967296"), None);
    assert_eq!(parse_u32("99999999999999999999"), None);
    assert_eq!(parse_u32("-1"), None);
    assert_eq!(parse_u32("-0"), None);
    assert_eq!(parse_u32(""), None);
    assert_eq!(parse_u32("+"), None);
    assert_eq!(parse_u32("12a"), None);
    assert_eq!(parse_u32(" 1"), None);
    assert_eq!(parse_u32("SIGKILL"), None);
}

#[test]
fn each_command_reads_its_arguments() {
    match parse_args(&words(&["kapsule", "create", "c1", "/b"])) {
        Ok(Command::Create { id, bundle }) => {
            assert_eq!(id, "c1");
            assert_eq!(bundle, "/b");
        }
        other => panic!("{:?}", other),
    }
    match parse_args(&words(&["kapsule", "start", "c1"])) {
        Ok(Command::Start { id }) => assert_eq!(id, "c1"),
        other => panic!("{:?}", other),
    }
    match parse_args(&words(&["kapsule", "state", "c2", "extra"])) {
        Ok(Command::State { id }) => assert_eq!(id, "c2"),
        other => panic!("{:?}", other),
    }
    match parse_args(&words(&["kapsule", "kill", "c1", "9"])) {
        Ok(Command::Kill { id, signal }) => {
            assert_eq!(id, "c1");
            assert_eq!(signal, 9);
        }
        other => panic!("{:?}", other),
    }
    match parse_args(&words(&["kapsule", "delete", "c1"])) {
        Ok(Command::Delete { id }) => assert_eq!(id, "c1"),
        other => panic!("{:?}", other),
    }
    match parse_args(&words(&["kapsule", "pause", "c1"])) {
        Ok(Command::Pause { id }) => assert_eq!(id, "c1"),
        other => panic!("{:?}", other),
    }
    match parse_args(&words(&["kapsule", "resume", "c1"])) {
        Ok(Command::Resume { id }) => assert_eq!(id, "c1"),
        other => panic!("{:?}", other),
    }
}

#[test]
fn kill_defaults_to_sigterm() {
    match parse_args(&words(&["kapsule", "kill", "c1", "TERM"])) {
        Ok(Command::Kill { signal, .. }) => assert_eq!(signal, 15),
        other => panic!("{:?}", other),
    }
}

#[test]
fn refusals() {
    assert!(matches!(parse_args(&words(&["kapsule"])), Err(CliError::NoCommand)));
    assert!(matches!(
        parse_args(&words(&["kapsule", "create", "c1"])),
        Err(CliError::MissingArguments(CommandKind::Create))
    ));
    assert!(matches!(
        parse_args(&words(&["kapsule", "kill", "c1"])),
        Err(CliError::MissingArguments(CommandKind::Kill))
    ));
    assert!(matches!(
        parse_args(&words(&["kapsule", "start"])),
        Err(CliError::MissingArguments(CommandKind::Start))
    ));
    match parse_args(&words(&["kapsule", "run", "c1"])) {
        Err(CliError::UnknownCommand(w)) => assert_eq!(w, "run"),
        other => panic!("{:?}", other),
    }
}

#[test]
fn refusal_messages() {
    assert_eq!(CliError::NoCommand.message(), "no command specified");
    assert_eq!(
        CliError::MissingArguments(CommandKind::Create).message(),
        "create requires <id> <bundle>"
    );
    assert_eq!(
        CliError::MissingArguments(CommandKind::Kill).message(),
        "kill requires <id> <signal>"
    );
    assert_eq!(
        CliError::MissingArguments(CommandKind::Resume).message(),
        "resume requires <id>"
    );
    assert_eq!(
        CliError::UnknownCommand("run".to_string()).message(),
        format!("unknown command: run\n\n{}", HELP)
    );
}

#[test]
fn flags_win_over_commands() {
    assert!(matches!(
        interpret_args(&words(&["kapsule", "start", "c1", "--version"])),
        Ok(Invocation::ShowVersion)
    ));
    assert!(matches!(interpret_args(&words(&["kapsule", "-v"])), Ok(Invocation::ShowVersion)));
    assert!(matches!(
        interpret_args(&words(&["kapsule", "-h", "--version"])),
        Ok(Invocation::ShowVersion)
    ));
    assert!(matches!(interpret_args(&words(&["kapsule", "--help"])), Ok(Invocation::ShowHelp)));
    assert!(matches!(interpret_args(&words(&["kapsule", "bogus", "-h"])), Ok(Invocation::ShowHelp)));
    assert!(matches!(interpret_args(&words(&["kapsule"])), Err(CliError::NoCommand)));
    match interpret_args(&words(&["kapsule", "delete", "c9"])) {
        Ok(Invocation::Run(Command::Delete { id })) => assert_eq!(id, "c9"),
        other => panic!("{:?}", other),
    }
}

#[test]
fn command_ids() {
    let c = Command::Kill { id: "k".to_string(), signal: 2 };
    assert_eq!(c.id(), "k");
    let c = Command::Create { id: "x".to_string(), bundle: "/b".to_string() };
    assert_eq!(c.id(), "x");
}

#[test]
fn help_lists_every_command() {
    for w in ["create", "start", "state", "kill", "delete", "pause", "resume", "--help", "--version"] {
        assert!(HELP.contains(w));
    }
}
