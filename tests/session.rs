use webpty::pump::Inbound;
use webpty::session::{launch_plan, Activity, Phase, Session};

fn fixed_env() -> Vec<(String, String)> {
    vec![
        ("COLORTERM".to_string(), "truecolor".to_string()),
        ("TERM".to_string(), "xterm-256color".to_string()),
    ]
}

#[test]
fn text_first_message_selects_command() {
    let plan = launch_plan(Some(Inbound::Text("/bin/zsh".to_string())), Some("/home/u".to_string()));
    assert_eq!(plan.program, "/bin/zsh");
    assert_eq!(plan.cwd, Some("/home/u".to_string()));
    assert_eq!(plan.env, fixed_env());
}

#[test]
fn binary_first_message_is_dropped() {
    let mut session = Session::new();
    let first = Inbound::Binary(vec![0, b'r', b'm']);
    let plan = session.bootstrap(Some(first), None);
    assert_eq!(plan.program, "/usr/bin/bash");
    assert_eq!(plan.cwd, None);
    assert_eq!(plan, launch_plan(None, None));
    assert_eq!(session.phase(), Phase::Running);
}

#[test]
fn no_first_message_starts_default_shell() {
    let plan = launch_plan(None, Some("/root".to_string()));
    assert_eq!(plan.program, "/usr/bin/bash");
    assert_eq!(plan.cwd, Some("/root".to_string()));
    assert_eq!(plan.env, fixed_env());
}

#[test]
fn inbound_close_stops_process_once() {
    let mut session = Session::new();
    assert_eq!(session.phase(), Phase::Bootstrapping);
    session.bootstrap(None, None);
    assert!(session.end_activity(Activity::ClientToProcess));
    assert_eq!(session.phase(), Phase::Terminating);
    assert!(!session.end_activity(Activity::Writer));
    assert!(!session.end_activity(Activity::ProcessToClient));
    session.close();
    assert_eq!(session.phase(), Phase::Closed);
    assert_eq!(session.stop_signals(), 1);
    assert!(!session.end_activity(Activity::ClientToProcess));
    assert_eq!(session.stop_signals(), 1);
}

#[test]
fn any_activity_ends_the_session() {
    for which in [Activity::ClientToProcess, Activity::ProcessToClient, Activity::Writer] {
        let mut session = Session::new();
        session.bootstrap(None, None);
        assert!(session.end_activity(which));
        assert_eq!(session.phase(), Phase::Terminating);
        assert_eq!(session.stop_signals(), 1);
    }
}

#[test]
fn failed_start_closes_without_stop() {
    let mut session = Session::new();
    session.close();
    assert_eq!(session.phase(), Phase::Closed);
    assert_eq!(session.stop_signals(), 0);
    assert!(!session.end_activity(Activity::Writer));
}
