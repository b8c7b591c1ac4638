use weather_dashboard::error::DashboardError;
use weather_dashboard::session::Session;

#[test]
fn new_session_is_closed() {
    assert!(!Session::new().open());
}

#[test]
fn granted_enter_opens_the_session() {
    let mut session = Session::new();
    assert_eq!(session.enter(true), Ok(()));
    assert!(session.open());
}

#[test]
fn refused_enter_is_a_terminal_init_error() {
    let mut session = Session::new();
    assert_eq!(session.enter(false), Err(DashboardError::TerminalInitError));
    assert!(!session.open());
}

#[test]
fn refused_enter_leaves_an_open_session_open() {
    let mut session = Session::new();
    assert_eq!(session.enter(true), Ok(()));
    assert_eq!(session.enter(false), Err(DashboardError::TerminalInitError));
    assert!(session.open());
}

#[test]
fn exit_restores_exactly_once() {
    let mut session = Session::new();
    session.enter(true).expect("terminal granted");
    assert!(session.exit());
    assert!(!session.open());
    assert!(!session.exit());
    assert!(!session.exit());
    assert!(!session.open());
}

#[test]
fn exit_of_a_session_never_entered_restores_nothing() {
    let mut session = Session::new();
    assert!(!session.exit());
    assert!(!session.open());
    let mut session = Session::new();
    assert!(session.enter(false).is_err());
    assert!(!session.exit());
}

#[test]
fn each_entry_is_matched_by_one_restoration() {
    let mut session = Session::new();
    let mut switched = 0;
    let mut restored = 0;
    let script = [true, false, true, true, false, false, true, false, true];
    for (turn, granted) in script.iter().enumerate() {
        if turn % 3 == 2 {
            if session.exit() {
                restored += 1;
            }
        } else {
            let was_open = session.open();
            if session.enter(*granted).is_ok() && !was_open {
                switched += 1;
            }
        }
    }
    if session.exit() {
        restored += 1;
    }
    assert_eq!(switched, restored);
    assert!(!session.open());
}
