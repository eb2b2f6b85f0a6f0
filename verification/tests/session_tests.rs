use mousecfg::command::Command;
use mousecfg::command::SessionError;
use mousecfg::endpoints::EndpointRecord;
use mousecfg::report::encode_report;
use mousecfg::session::Action;
use mousecfg::session::Event;
use mousecfg::session::Session;

fn new_session(cmd: Command) -> Session {
    Session::new(cmd).expect("arguments in range")
}

fn drive(s: &mut Session, events: Vec<Event>) -> Vec<Action> {
    let mut acts = Vec::new();
    for ev in events {
        acts.push(s.step(ev));
    }
    acts
}

fn first_record() -> EndpointRecord {
    EndpointRecord { config: 1, iface: 0, setting: 0, address: 0x81 }
}

fn releases_of(acts: &[Action]) -> Vec<u8> {
    let mut out = Vec::new();
    for a in acts {
        if let Action::ReleaseInterface(i) = a {
            out.push(*i);
        }
    }
    out
}

fn attaches_of(acts: &[Action]) -> Vec<u8> {
    let mut out = Vec::new();
    for a in acts {
        if let Action::AttachDriver(i) = a {
            out.push(*i);
        }
    }
    out
}

fn verdict_of(acts: &[Action]) -> Result<(), SessionError> {
    match acts.last() {
        Some(Action::Finish(v)) => *v,
        other => panic!("expected a finish action, got {:?}", other),
    }
}

#[test]
fn happy_path_actions_in_order() {
    let cmd = Command::Activate { count: 2 };
    let mut s = new_session(cmd);
    let acts = drive(
        &mut s,
        vec![
            Event::Begin,
            Event::DeviceFound(Ok(())),
            Event::EndpointsRead(vec![first_record()]),
            Event::Ack(true),                  // configuration set
            Event::Ack(true),                  // alternate setting set
            Event::DriverActive(Some(true)),   // driver on interface 0
            Event::Ack(true),                  // detached
            Event::Ack(true),                  // claimed interface 0
            Event::DriverActive(Some(false)),  // no driver on interface 1
            Event::Ack(true),                  // claimed interface 1
            Event::TransferDone(Some(17)),
            Event::Ack(true),                  // released interface 0
            Event::Ack(true),                  // released interface 1
            Event::EndpointsRead(vec![]),      // re-enumeration
            Event::Ack(true),                  // reattached interface 0
        ],
    );
    assert!(matches!(acts[0], Action::FindDevice));
    assert!(matches!(acts[1], Action::ReadEndpoints));
    assert!(matches!(acts[2], Action::SetConfiguration(1)));
    assert!(matches!(acts[3], Action::SetAltSetting(0, 0)));
    assert!(matches!(acts[4], Action::QueryDriver(0)));
    assert!(matches!(acts[5], Action::DetachDriver(0)));
    assert!(matches!(acts[6], Action::ClaimInterface(0)));
    assert!(matches!(acts[7], Action::QueryDriver(1)));
    assert!(matches!(acts[8], Action::ClaimInterface(1)));
    match &acts[9] {
        Action::Transfer(p) => {
            assert_eq!(p.request_type, 0x21);
            assert_eq!(p.request, 0x09);
            assert_eq!(p.value, 0x0208);
            assert_eq!(p.index, 0x0001);
            assert_eq!(p.timeout_ms, 1000);
            assert_eq!(p.data, encode_report(&cmd));
        },
        other => panic!("expected the transfer, got {:?}", other),
    }
    assert!(matches!(acts[10], Action::ReleaseInterface(0)));
    assert!(matches!(acts[11], Action::ReleaseInterface(1)));
    assert!(matches!(acts[12], Action::ReadEndpoints));
    assert!(matches!(acts[13], Action::AttachDriver(0)));
    assert_eq!(verdict_of(&acts), Ok(()));
    assert!(!s.release_failed);
    assert!(!s.reattach_failed);
}

#[test]
fn claim_failure_reattaches_only_what_was_detached() {
    // Interface 0 had a driver and was detached and claimed; interface 1
    // had none and its claim fails. Teardown must release interface 0
    // and reattach only interface 0 — never interface 1.
    let mut s = new_session(Command::Select { profile: 1 });
    let acts = drive(
        &mut s,
        vec![
            Event::Begin,
            Event::DeviceFound(Ok(())),
            Event::EndpointsRead(vec![first_record()]),
            Event::Ack(true),
            Event::Ack(true),
            Event::DriverActive(Some(true)),
            Event::Ack(true),                  // detached interface 0
            Event::Ack(true),                  // claimed interface 0
            Event::DriverActive(Some(false)),  // interface 1 never detached
            Event::Ack(false),                 // claim of interface 1 fails
            Event::Ack(true),                  // release of interface 0
            Event::EndpointsRead(vec![]),
            Event::Ack(true),                  // reattach interface 0
        ],
    );
    assert_eq!(verdict_of(&acts), Err(SessionError::ClaimFailed));
    assert_eq!(releases_of(&acts), vec![0]);
    assert_eq!(attaches_of(&acts), vec![0]);
}

#[test]
fn claim_failure_with_nothing_held_finishes_at_once() {
    let mut s = new_session(Command::Select { profile: 0 });
    let acts = drive(
        &mut s,
        vec![
            Event::Begin,
            Event::DeviceFound(Ok(())),
            Event::EndpointsRead(vec![first_record()]),
            Event::Ack(true),
            Event::Ack(true),
            Event::DriverActive(Some(false)),  // nothing detached
            Event::Ack(false),                 // very first claim fails
        ],
    );
    assert_eq!(verdict_of(&acts), Err(SessionError::ClaimFailed));
    assert_eq!(releases_of(&acts), Vec::<u8>::new());
    assert_eq!(attaches_of(&acts), Vec::<u8>::new());
}

#[test]
fn transfer_failure_still_releases_and_reattaches_everything() {
    let mut s = new_session(Command::SetDpi { profile: 0, value: 800 });
    let acts = drive(
        &mut s,
        vec![
            Event::Begin,
            Event::DeviceFound(Ok(())),
            Event::EndpointsRead(vec![first_record()]),
            Event::Ack(true),
            Event::Ack(true),
            Event::DriverActive(Some(true)),
            Event::Ack(true),
            Event::Ack(true),
            Event::DriverActive(Some(true)),
            Event::Ack(true),
            Event::Ack(true),
            Event::TransferDone(None),  // the command itself fails
            Event::Ack(true),
            Event::Ack(true),
            Event::EndpointsRead(vec![]),
            Event::Ack(true),
            Event::Ack(true),
        ],
    );
    assert_eq!(verdict_of(&acts), Err(SessionError::TransferError));
    assert_eq!(releases_of(&acts), vec![0, 1]);
    assert_eq!(attaches_of(&acts), vec![0, 1]);
}

#[test]
fn short_write_is_a_transfer_error() {
    let mut s = new_session(Command::Activate { count: 1 });
    let acts = drive(
        &mut s,
        vec![
            Event::Begin,
            Event::DeviceFound(Ok(())),
            Event::EndpointsRead(vec![first_record()]),
            Event::Ack(true),
            Event::Ack(true),
            Event::DriverActive(Some(false)),
            Event::Ack(true),
            Event::DriverActive(Some(false)),
            Event::Ack(true),
            Event::TransferDone(Some(16)),  // one byte short
            Event::Ack(true),
            Event::Ack(true),
        ],
    );
    assert_eq!(verdict_of(&acts), Err(SessionError::TransferError));
    assert_eq!(releases_of(&acts), vec![0, 1]);
    assert_eq!(attaches_of(&acts), Vec::<u8>::new());
}

#[test]
fn release_failures_never_override_the_verdict() {
    let mut s = new_session(Command::Activate { count: 3 });
    let acts = drive(
        &mut s,
        vec![
            Event::Begin,
            Event::DeviceFound(Ok(())),
            Event::EndpointsRead(vec![first_record()]),
            Event::Ack(true),
            Event::Ack(true),
            Event::DriverActive(Some(true)),
            Event::Ack(true),
            Event::Ack(true),
            Event::DriverActive(Some(false)),
            Event::Ack(true),
            Event::TransferDone(Some(17)),
            Event::Ack(false),             // release of interface 0 fails
            Event::Ack(true),
            Event::EndpointsRead(vec![]),
            Event::Ack(false),             // reattach fails too
        ],
    );
    assert_eq!(verdict_of(&acts), Ok(()));
    assert!(s.release_failed);
    assert!(s.reattach_failed);
}

#[test]
fn no_endpoints_is_fatal_before_anything_is_claimed() {
    let mut s = new_session(Command::Activate { count: 1 });
    let acts = drive(
        &mut s,
        vec![
            Event::Begin,
            Event::DeviceFound(Ok(())),
            Event::EndpointsRead(vec![]),
        ],
    );
    assert_eq!(verdict_of(&acts), Err(SessionError::NoEndpoints));
    assert_eq!(releases_of(&acts), Vec::<u8>::new());
    assert_eq!(attaches_of(&acts), Vec::<u8>::new());
}

#[test]
fn device_not_found_ends_the_session() {
    let mut s = new_session(Command::Select { profile: 2 });
    let acts = drive(
        &mut s,
        vec![
            Event::Begin,
            Event::DeviceFound(Err(SessionError::DeviceNotFound)),
        ],
    );
    assert_eq!(verdict_of(&acts), Err(SessionError::DeviceNotFound));
}

#[test]
fn open_failure_is_distinct_from_not_found() {
    let mut s = new_session(Command::Select { profile: 2 });
    let acts = drive(
        &mut s,
        vec![Event::Begin, Event::DeviceFound(Err(SessionError::OpenFailed))],
    );
    assert_eq!(verdict_of(&acts), Err(SessionError::OpenFailed));
}

#[test]
fn detach_failure_aborts_with_teardown_of_claimed_only() {
    // Interface 0 claimed without a detach; probing interface 1 fails.
    let mut s = new_session(Command::Select { profile: 3 });
    let acts = drive(
        &mut s,
        vec![
            Event::Begin,
            Event::DeviceFound(Ok(())),
            Event::EndpointsRead(vec![first_record()]),
            Event::Ack(true),
            Event::Ack(true),
            Event::DriverActive(Some(false)),
            Event::Ack(true),            // claimed interface 0
            Event::DriverActive(None),   // query on interface 1 fails
            Event::Ack(true),            // release interface 0
        ],
    );
    assert_eq!(verdict_of(&acts), Err(SessionError::DriverDetachFailed));
    assert_eq!(releases_of(&acts), vec![0]);
    assert_eq!(attaches_of(&acts), Vec::<u8>::new());
}

#[test]
fn endpoint_on_the_report_interface_is_claimed_and_released_twice() {
    // When the first endpoint sits on the fixed report interface, the
    // claim plan holds that interface twice, and teardown releases it
    // just as many times.
    let mut s = new_session(Command::Activate { count: 1 });
    let acts = drive(
        &mut s,
        vec![
            Event::Begin,
            Event::DeviceFound(Ok(())),
            Event::EndpointsRead(vec![EndpointRecord {
                config: 1,
                iface: 1,
                setting: 0,
                address: 0x81,
            }]),
            Event::Ack(true),
            Event::Ack(true),
            Event::DriverActive(Some(false)),
            Event::Ack(true),
            Event::DriverActive(Some(false)),
            Event::Ack(true),
            Event::TransferDone(Some(17)),
            Event::Ack(true),
            Event::Ack(true),
        ],
    );
    assert_eq!(verdict_of(&acts), Ok(()));
    assert_eq!(releases_of(&acts), vec![1, 1]);
    assert_eq!(attaches_of(&acts), Vec::<u8>::new());
}

#[test]
fn configuration_failure_is_fatal_before_any_claim() {
    let mut s = new_session(Command::Activate { count: 2 });
    let acts = drive(
        &mut s,
        vec![
            Event::Begin,
            Event::DeviceFound(Ok(())),
            Event::EndpointsRead(vec![first_record()]),
            Event::Ack(false),  // setting the configuration fails
        ],
    );
    assert_eq!(verdict_of(&acts), Err(SessionError::ConfigurationFailed));
    assert_eq!(releases_of(&acts), Vec::<u8>::new());
    assert_eq!(attaches_of(&acts), Vec::<u8>::new());
}

#[test]
fn alternate_setting_failure_is_fatal_before_any_claim() {
    let mut s = new_session(Command::Activate { count: 2 });
    let acts = drive(
        &mut s,
        vec![
            Event::Begin,
            Event::DeviceFound(Ok(())),
            Event::EndpointsRead(vec![first_record()]),
            Event::Ack(true),
            Event::Ack(false),  // setting the alternate setting fails
        ],
    );
    assert_eq!(verdict_of(&acts), Err(SessionError::ConfigurationFailed));
    assert_eq!(releases_of(&acts), Vec::<u8>::new());
    assert_eq!(attaches_of(&acts), Vec::<u8>::new());
}

#[test]
fn detach_refusal_aborts_and_unwinds() {
    // Interface 0 was claimed cleanly; the driver on interface 1 will
    // not detach. The claimed interface is still released; nothing is
    // reattached because nothing was detached.
    let mut s = new_session(Command::Select { profile: 1 });
    let acts = drive(
        &mut s,
        vec![
            Event::Begin,
            Event::DeviceFound(Ok(())),
            Event::EndpointsRead(vec![first_record()]),
            Event::Ack(true),
            Event::Ack(true),
            Event::DriverActive(Some(false)),
            Event::Ack(true),                 // claimed interface 0
            Event::DriverActive(Some(true)),  // driver on interface 1
            Event::Ack(false),                // detach refused
            Event::Ack(true),                 // release interface 0
        ],
    );
    assert_eq!(verdict_of(&acts), Err(SessionError::DriverDetachFailed));
    assert_eq!(releases_of(&acts), vec![0]);
    assert_eq!(attaches_of(&acts), Vec::<u8>::new());
}

#[test]
fn out_of_range_arguments_are_rejected_without_device_interaction() {
    for cmd in [
        Command::Activate { count: 0 },
        Command::Activate { count: 5 },
        Command::Select { profile: 4 },
        Command::SetDpi { profile: 0, value: 49 },
        Command::SetDpi { profile: 0, value: 26001 },
    ] {
        match Session::new(cmd) {
            Err(SessionError::InvalidArgument) => {},
            other => panic!("expected rejection of {:?}, got {:?}", cmd, other),
        }
    }
}

#[test]
fn in_range_arguments_are_accepted() {
    for cmd in [
        Command::Activate { count: 1 },
        Command::Activate { count: 4 },
        Command::Select { profile: 0 },
        Command::Select { profile: 3 },
        Command::SetDpi { profile: 3, value: 50 },
        Command::SetDpi { profile: 0, value: 26000 },
    ] {
        assert!(Session::new(cmd).is_ok());
    }
}
