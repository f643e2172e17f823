use rbw_agent::config::{Config, SshAgentConfirmation};
use rbw_agent::pinentry::{
    gui_version, judge_version, probe_gui_pinentry, resolve_ssh_agent_pinentry, ssh_agent_pinentry_candidates,
    ExitStatus, Output, Probe, ProbeEvent, ResolveEvent, ResolvePinentry, Timed, Trouble,
    PROBE_TIMEOUT,
};

/// A program as a probe sees it.
struct FakePinentry {
    version: String,
    greeting: String,
    exit: i32,
}

fn fake_pinentry(version: &str) -> FakePinentry {
    FakePinentry { version: version.to_string(), greeting: "OK hello\r\n".to_string(), exit: 0 }
}

fn probe(program: &FakePinentry, path: &str) -> Result<(), Trouble> {
    let mut state = Probe::CheckVersion { pinentry: path.to_string() };
    loop {
        let event = match &state {
            Probe::CheckVersion { .. } => ProbeEvent::VersionChecked(Timed::Ended(Ok(Output {
                success: true,
                stdout: format!("{}\n", program.version).into_bytes(),
                stderr: vec![],
            }))),
            Probe::Start { .. } => ProbeEvent::Started(Ok(())),
            Probe::ReadGreeting => {
                ProbeEvent::GreetingRead(Timed::Ended(Ok(program.greeting.clone())))
            }
            Probe::SayBye => ProbeEvent::ByeSaid(Ok(())),
            Probe::AwaitExit => ProbeEvent::Exited(Timed::Ended(Ok(ExitStatus {
                success: program.exit == 0,
                text: format!("exit status: {}", program.exit),
            }))),
            Probe::Done(_) => break,
        };
        state = probe_gui_pinentry(state, event);
    }
    match state {
        Probe::Done(result) => result,
        other => panic!("{:?}", other),
    }
}

/// Resolves with a function that stands for the installed programs.
fn resolve(
    config: &Config,
    installed: impl Fn(&str) -> Option<FakePinentry>,
) -> Result<Option<String>, String> {
    let mut state = ResolvePinentry::start(config);
    loop {
        let path = match &state {
            ResolvePinentry::ProbeConfigured { pinentry } => pinentry.clone(),
            ResolvePinentry::ProbeCandidate { candidate, .. } => candidate.clone(),
            ResolvePinentry::Done(_) => break,
        };
        let result = match installed(&path) {
            Some(program) => probe(&program, &path),
            None => {
                let missing = Trouble::plain("No such file".to_string());
                match probe_gui_pinentry(
                    Probe::CheckVersion { pinentry: path.clone() },
                    ProbeEvent::VersionChecked(Timed::Ended(Err(missing))),
                ) {
                    Probe::Done(result) => result,
                    other => panic!("{:?}", other),
                }
            }
        };
        state = resolve_ssh_agent_pinentry(state, ResolveEvent::Probed(result));
    }
    match state {
        ResolvePinentry::Done(result) => result,
        other => panic!("{:?}", other),
    }
}

#[test]
fn explicit_gui_pinentry_is_probed() {
    let path = "/tmp/pinentry-test".to_string();
    let config = Config { ssh_agent_pinentry: Some(path.clone()), ..Config::default() };

    assert_eq!(
        resolve(&config, |_| Some(fake_pinentry("pinentry-w32 (pinentry) test"))).unwrap(),
        Some(path)
    );
}

#[test]
fn terminal_pinentry_is_rejected() {
    let path = "/tmp/pinentry-test".to_string();
    let config = Config { ssh_agent_pinentry: Some(path), ..Config::default() };

    let error =
        resolve(&config, |_| Some(fake_pinentry("pinentry-curses (pinentry) test"))).unwrap_err();
    assert!(error.contains("did not identify itself as a GUI"));
    assert_eq!(
        error,
        "configured ssh_agent_pinentry '/tmp/pinentry-test' is unusable: pinentry did not identify itself as a GUI implementation"
    );
}

#[test]
fn never_without_pinentry_does_not_require_gui() {
    let config =
        Config { ssh_agent_confirmation: SshAgentConfirmation::Never, ..Config::default() };

    assert_eq!(resolve(&config, |path| panic!("{}", path)).unwrap(), None);
}

#[test]
fn configured_pinentry_is_probed_even_without_confirmation() {
    let config = Config {
        ssh_agent_confirmation: SshAgentConfirmation::Never,
        ssh_agent_pinentry: Some("p".to_string()),
        ..Config::default()
    };
    assert_eq!(
        resolve(&config, |_| None).unwrap_err(),
        "configured ssh_agent_pinentry 'p' is unusable: failed to start pinentry 'p': No such file"
    );
}

#[test]
fn first_usable_candidate_is_taken() {
    let found = resolve(&Config::default(), |path| match path {
        "pinentry-qt" => Some(fake_pinentry("pinentry-curses")),
        "pinentry-gtk" => Some(fake_pinentry("PINENTRY-GTK 1.0")),
        "pinentry-mac" => Some(fake_pinentry("pinentry-mac")),
        _ => None,
    });
    assert_eq!(found.unwrap(), Some("pinentry-gtk".to_string()));
}

#[test]
fn all_candidates_are_named_when_none_is_usable() {
    let names = [
        "pinentry-gnome3",
        "pinentry-qt",
        "pinentry-qt5",
        "pinentry-gui",
        "pinentry-gtk",
        "pinentry-w32",
        "pinentry-gtk-2",
        "pinentry-mac",
        "pinentry-fltk",
    ];
    assert_eq!(ssh_agent_pinentry_candidates(), names);
    let lines: Vec<String> = names
        .iter()
        .map(|name| format!("{}: failed to start pinentry '{}'", name, name))
        .collect();
    assert_eq!(
        resolve(&Config::default(), |_| None).unwrap_err(),
        format!(
            "ssh_agent_confirmation=always requires a usable GUI pinentry; configure ssh_agent_pinentry or install one of {}\n{}",
            names.join(", "),
            lines.join("\n")
        )
    );
}

#[test]
fn graphical_versions() {
    for version in ["pinentry-gnome3", "gtk", "x-qt5", "w32", "mac", "fltk", "efl"] {
        assert!(gui_version(version));
    }
    for version in ["", "pinentry-curses", "tty", "GTK", "q t"] {
        assert!(!gui_version(version));
    }
}

#[test]
fn version_is_judged_by_what_was_said() {
    let program = || "p".to_string();
    match judge_version(program(), true, "pinentry-gtk", "warning") {
        Probe::Start { pinentry } => assert_eq!(pinentry, "p"),
        other => panic!("{:?}", other),
    }
    match judge_version(program(), false, "pinentry-gtk", " no display ") {
        Probe::Done(Err(trouble)) => {
            assert_eq!(trouble.full_text(), "pinentry version check failed: no display");
        }
        other => panic!("{:?}", other),
    }
    assert!(matches!(judge_version(program(), true, "curses", ""), Probe::Done(Err(_))));
}

fn failed(state: Probe, event: ProbeEvent) -> Trouble {
    match probe_gui_pinentry(state, event) {
        Probe::Done(Err(trouble)) => trouble,
        other => panic!("{:?}", other),
    }
}

fn late() -> Trouble {
    Trouble::plain("deadline has elapsed".to_string())
}

#[test]
fn failures_of_a_probe_are_told_apart() {
    assert_eq!(PROBE_TIMEOUT, 2);
    let version = || Probe::CheckVersion { pinentry: "p".to_string() };
    assert_eq!(
        failed(version(), ProbeEvent::VersionChecked(Timed::Elapsed(late()))).full_text(),
        "pinentry version check timed out: deadline has elapsed"
    );
    assert_eq!(
        failed(
            version(),
            ProbeEvent::VersionChecked(Timed::Ended(Ok(Output {
                success: false,
                stdout: b"gtk".to_vec(),
                stderr: b" \tno \xffdisplay\n\n".to_vec(),
            })))
        )
        .full_text(),
        "pinentry version check failed: no \u{fffd}display"
    );
    assert_eq!(
        failed(
            Probe::Start { pinentry: "p".to_string() },
            ProbeEvent::Started(Err(Trouble::plain("No such file".to_string())))
        )
        .full_text(),
        "failed to start pinentry 'p': No such file"
    );
    assert_eq!(
        failed(Probe::ReadGreeting, ProbeEvent::GreetingRead(Timed::Elapsed(late()))).message,
        "pinentry greeting timed out"
    );
    for line in ["", "\r\n", "ERR 1\n", " OK\n", "ok\n"] {
        assert_eq!(
            failed(
                Probe::ReadGreeting,
                ProbeEvent::GreetingRead(Timed::Ended(Ok(line.to_string())))
            )
            .full_text(),
            "pinentry did not return an Assuan greeting"
        );
    }
    assert_eq!(
        failed(
            Probe::ReadGreeting,
            ProbeEvent::GreetingRead(Timed::Ended(Err(Trouble::plain("pipe".to_string()))))
        )
        .full_text(),
        "pipe"
    );
    assert_eq!(
        failed(Probe::AwaitExit, ProbeEvent::Exited(Timed::Elapsed(late()))).full_text(),
        "pinentry shutdown timed out: deadline has elapsed"
    );
    let mut program = fake_pinentry("gtk");
    program.exit = 3;
    assert_eq!(
        probe(&program, "p").unwrap_err().full_text(),
        "pinentry exited with exit status: 3"
    );
}

#[test]
fn trouble_keeps_its_causes() {
    let trouble = Trouble::plain("root".to_string())
        .in_context("middle".to_string())
        .in_context("top".to_string());
    assert_eq!(trouble.message, "top");
    assert_eq!(trouble.causes, vec!["middle".to_string(), "root".to_string()]);
    assert_eq!(trouble.full_text(), "top: middle: root");
}
