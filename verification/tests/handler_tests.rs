use vpn_handler::config::{ConfigError, Entry};
use vpn_handler::handler::{Action, Handler, HandlerError, MAX_ATTEMPTS, RETRY_DELAY_MS};

fn listing() -> Vec<Entry> {
    vec![
        Entry::File { name: "us.ovpn".to_string(), path: "/home/kwunch/VPN/us.ovpn".to_string() },
        Entry::File { name: "auth.txt".to_string(), path: "/home/kwunch/VPN/auth.txt".to_string() },
        Entry::File { name: "de.ovpn".to_string(), path: "/home/kwunch/VPN/de.ovpn".to_string() },
    ]
}

/// Goes through a start whose launch works at once.
fn start_now(handler: &mut Handler) -> Result<(), HandlerError> {
    match handler.start() {
        Action::Spawn { .. } => match handler.spawned(true) {
            Some(Action::Completed) => Ok(()),
            other => panic!("launch ended with {:?}", other),
        },
        Action::Failed(e) => Err(e),
        other => panic!("start answered {:?}", other),
    }
}

/// Goes through a stop whose kill signal works at once.
fn stop_now(handler: &mut Handler) -> Result<(), HandlerError> {
    match handler.stop() {
        Action::Completed => Ok(()),
        Action::Kill { .. } => match handler.killed(true) {
            Some(Action::Completed) => Ok(()),
            other => panic!("kill ended with {:?}", other),
        },
        Action::Failed(e) => Err(e),
        other => panic!("stop answered {:?}", other),
    }
}

#[test]
fn test_new() {
    let handler = Handler::new(&listing());
    assert!(handler.is_ok());
}

#[test]
fn test_start_and_stop() {
    let handler = Handler::new(&listing());
    assert!(handler.is_ok());

    let mut handler = handler.unwrap();
    let result = start_now(&mut handler);
    assert!(result.is_ok());
    assert!(handler.has_child());

    let result = stop_now(&mut handler);
    assert!(result.is_ok());
    assert!(!handler.has_child());
}

#[test]
fn test_stop_no_start() {
    let handler = Handler::new(&listing());
    assert!(handler.is_ok());

    let mut handler = handler.unwrap();
    assert!(!handler.has_child());

    let result = stop_now(&mut handler);
    assert!(result.is_ok());
    assert!(!handler.has_child());
}

#[test]
fn test_start_twice_no_stop() {
    let handler = Handler::new(&listing());
    assert!(handler.is_ok());

    let mut handler = handler.unwrap();
    let result = start_now(&mut handler);
    assert!(result.is_ok());
    assert!(handler.has_child());

    let result = start_now(&mut handler);
    assert!(result.is_err());
    assert!(handler.has_child());

    let result = stop_now(&mut handler);
    assert!(result.is_ok());
    assert!(!handler.has_child());
}

#[test]
fn no_supervisor_without_a_profile() {
    let only_credentials =
        vec![Entry::File { name: "auth.txt".to_string(), path: "/x/auth.txt".to_string() }];
    assert!(matches!(Handler::new(&only_credentials), Err(ConfigError::NoFilesFound)));
}

#[test]
fn second_start_is_refused_as_already_running() {
    let mut handler = Handler::new(&listing()).unwrap();
    assert_eq!(handler.start(), Action::Spawn { delay_ms: 0 });
    assert_eq!(handler.start(), Action::Failed(HandlerError::AlreadyRunning));
    assert_eq!(handler.spawned(true), Some(Action::Completed));
    assert_eq!(handler.start(), Action::Failed(HandlerError::AlreadyRunning));
    assert!(handler.has_child());
}

#[test]
fn launches_that_always_fail_exhaust_after_ten_attempts() {
    let mut handler = Handler::new(&listing()).unwrap();
    let mut attempts = 0;
    let mut action = Some(handler.start());
    let outcome = loop {
        match action {
            Some(Action::Spawn { delay_ms }) => {
                attempts += 1;
                if attempts == 1 {
                    assert_eq!(delay_ms, 0);
                } else {
                    assert_eq!(delay_ms, 1000);
                    assert!(delay_ms >= RETRY_DELAY_MS);
                }
                action = handler.spawned(false);
            }
            other => break other,
        }
    };
    assert_eq!(attempts, 10);
    assert_eq!(MAX_ATTEMPTS, 10);
    assert_eq!(outcome, Some(Action::Failed(HandlerError::SpawnExhausted)));
    assert!(!handler.has_child());
    assert_eq!(handler.start(), Action::Spawn { delay_ms: 0 });
}

#[test]
fn a_launch_that_works_at_the_tenth_attempt_succeeds() {
    let mut handler = Handler::new(&listing()).unwrap();
    assert_eq!(handler.start(), Action::Spawn { delay_ms: 0 });
    for _ in 0..9 {
        assert_eq!(handler.spawned(false), Some(Action::Spawn { delay_ms: 1000 }));
    }
    assert_eq!(handler.spawned(true), Some(Action::Completed));
    assert!(handler.has_child());
}

#[test]
fn kills_that_always_fail_exhaust_after_ten_attempts() {
    let mut handler = Handler::new(&listing()).unwrap();
    start_now(&mut handler).unwrap();
    assert_eq!(handler.stop(), Action::Kill { delay_ms: 0 });
    for _ in 0..9 {
        assert_eq!(handler.killed(false), Some(Action::Kill { delay_ms: 1000 }));
    }
    assert_eq!(handler.killed(false), Some(Action::Failed(HandlerError::TerminateExhausted)));
    assert!(handler.has_child());
    assert_eq!(stop_now(&mut handler), Ok(()));
    assert!(!handler.has_child());
}

#[test]
fn reports_outside_an_operation_are_passed_over() {
    let mut handler = Handler::new(&listing()).unwrap();
    assert_eq!(handler.spawned(true), None);
    assert_eq!(handler.killed(true), None);
    assert!(!handler.has_child());
    start_now(&mut handler).unwrap();
    assert_eq!(handler.spawned(false), None);
    assert_eq!(handler.killed(false), None);
    assert!(handler.has_child());
}

#[test]
fn the_command_line_names_a_profile_and_the_credentials() {
    let handler = Handler::new(&listing()).unwrap();
    assert_eq!(Handler::program(), "openvpn");
    let mut seen_us = false;
    let mut seen_de = false;
    for _ in 0..200 {
        let args = handler.arguments().unwrap();
        assert_eq!(args.len(), 4);
        assert_eq!(args[0], "--config");
        assert_eq!(args[2], "--auth-user-pass");
        assert_eq!(args[3], "/home/kwunch/VPN/auth.txt");
        match args[1].as_str() {
            "/home/kwunch/VPN/us.ovpn" => seen_us = true,
            "/home/kwunch/VPN/de.ovpn" => seen_de = true,
            other => panic!("drew {}", other),
        }
    }
    assert!(seen_us && seen_de);
    assert_eq!(
        Handler::arguments_for("/p/x.ovpn".to_string(), &"/p/auth.txt".to_string()),
        vec!["--config", "/p/x.ovpn", "--auth-user-pass", "/p/auth.txt"]
    );
}
