use netns::errno::ErrnoBasis;
use netns::netns_linux::CLONE_NEWNET;
use netns::{Action, Errno, Error, ExecStatus, NetNS, Stage};

#[test]
fn it_works() {
    assert_eq!(2 + 2, 4);
}

#[test]
fn desc_of_known_codes() {
    assert_eq!(Errno::from_i32(1).desc(), "Operation not permitted");
    assert_eq!(Errno::from_i32(2).desc(), "No such file or directory");
    assert_eq!(Errno::from_i32(13).desc(), "Permission denied");
    assert_eq!(Errno::from_i32(22).desc(), "Invalid argument");
    assert_eq!(Errno::from_i32(35).desc(), "Resource deadlock would occur");
    assert_eq!(Errno::from_i32(95).desc(), "Operation not supported on transport endpoint");
    assert_eq!(Errno::from_i32(133).desc(), "Memory page has hardware error");
}

#[test]
fn desc_of_unknown_codes() {
    assert_eq!(Errno::from_i32(0).desc(), "unknown");
    assert_eq!(Errno::from_i32(41).desc(), "unknown");
    assert_eq!(Errno::from_i32(58).desc(), "unknown");
    assert_eq!(Errno::from_i32(134).desc(), "unknown");
    assert_eq!(Errno::from_i32(-1).desc(), "unknown");
    assert_eq!(Errno::from_i32(i32::MAX).desc(), "unknown");
    assert_eq!(Errno::from_i32(i32::MIN).desc(), "unknown");
}

#[test]
fn desc_is_total_and_nonempty() {
    for code in -200..1200 {
        assert!(!Errno::from_i32(code).desc().is_empty());
    }
}

#[test]
fn errno_display() {
    assert_eq!(Errno::from_i32(13).to_string(), "Errno(13): Permission denied");
    assert_eq!(Errno::from_i32(0).to_string(), "Errno(0): unknown");
    assert_eq!(Errno::from_i32(-5).to_string(), "Errno(-5): unknown");
    assert_eq!(Errno::from_i32(i32::MIN).to_string(), "Errno(-2147483648): unknown");
    assert_eq!(Errno::from_i32(13).debug_text(), format!("{:?}", Errno::from_i32(13)));
}

#[test]
fn error_display() {
    let a = Error::Sys(Errno::from_i32(23));
    assert_eq!(a.to_string(), "Sys(Errno(23)): File table overflow");
    assert_eq!(
        Error::UnsupportedOperation.to_string(),
        "UnsupportedOperation: UnsupportedOperation"
    );
    assert!(a.to_string().starts_with(&format!("{:?}", a)));
}

#[test]
fn as_errno_gives_the_code() {
    assert_eq!(Error::Sys(Errno::from_i32(2)).as_errno(), Some(Errno::from_i32(2)));
    assert_eq!(Error::UnsupportedOperation.as_errno(), None);
}

#[test]
fn result_reads_the_sentinel() {
    assert_eq!(i32::basis(), -1);
    assert_eq!(Errno::result(0), Ok(0));
    assert_eq!(Errno::result(7), Ok(7));
    assert_eq!(Errno::result(-2), Ok(-2));
    assert!(matches!(Errno::result(-1), Err(Error::Sys(_))));
}

#[test]
fn namespace_paths() {
    assert_eq!(NetNS::thread_path(12, 34), "/proc/12/task/34/ns/net");
    assert_eq!(NetNS::process_path(2667), "/proc/2667/ns/net");
    assert_eq!(NetNS::process_path(0), "/proc/0/ns/net");
    assert_eq!(NetNS::process_path(-7), "/proc/-7/ns/net");
    assert_eq!(NetNS::process_path(i32::MAX), "/proc/2147483647/ns/net");
}

#[test]
fn handle_from_opened_path() {
    let path = String::from("/var/run/netns/blue");
    let ns = NetNS::get_from_path(&path, 5).unwrap();
    assert_eq!(ns.fd(), 5);
    assert_eq!(ns.path(), &path);
    assert!(matches!(NetNS::get_from_path(&path, -1), Err(Error::Sys(_))));
}

#[test]
fn handle_from_process_and_thread() {
    let ns = NetNS::get_from_process(42, 3).unwrap();
    assert_eq!(ns.fd(), 3);
    assert_eq!(ns.path(), "/proc/42/ns/net");
    let ns = NetNS::get_from_thread(42, 43, 4).unwrap();
    assert_eq!(ns.path(), "/proc/42/task/43/ns/net");
    let ns = NetNS::get(100, 101, 0).unwrap();
    assert_eq!(ns.fd(), 0);
    assert_eq!(ns.path(), "/proc/100/task/101/ns/net");
    assert!(NetNS::get_from_process(42, -1).is_err());
    assert!(NetNS::get_from_thread(42, 43, -1).is_err());
}

#[test]
fn handle_equality() {
    let a = NetNS::get_from_process(1, 3).unwrap();
    let b = NetNS::get_from_process(1, 3).unwrap();
    let c = NetNS::get_from_process(1, 4).unwrap();
    let d = NetNS::get_from_process(2, 3).unwrap();
    assert!(a == b);
    assert!(a != c);
    assert!(a != d);
    assert!(a.clone() == a);
}

#[test]
fn install_arguments_and_result() {
    let ns = NetNS::get_from_process(1, 9).unwrap();
    assert_eq!(ns.set_args(), (9, CLONE_NEWNET));
    assert_eq!(CLONE_NEWNET, 0x40000000);
    assert_eq!(NetNS::set(0), Ok(()));
    assert!(matches!(NetNS::set(-1), Err(Error::Sys(_))));
}

fn drive(
    original: Result<(), Error>,
    target: Result<(), Error>,
    switch: Result<(), Error>,
    work: ExecStatus,
    restore: Result<(), Error>,
) -> (ExecStatus, Vec<Action>) {
    let mut stage = Stage::start();
    let mut actions = Vec::new();
    for _ in 0..10 {
        let action = stage.action();
        actions.push(action);
        stage = match action {
            Action::AcquireCurrent => stage.on_step(original),
            Action::AcquireTarget => stage.on_step(target),
            Action::InstallTarget => stage.on_step(switch),
            Action::RunWork => stage.on_work(work),
            Action::InstallOriginal => stage.on_step(restore),
            Action::Report(status) => return (status, actions),
        };
    }
    panic!("the run did not end");
}

fn sys(code: i32) -> Error {
    Error::Sys(Errno::from_i32(code))
}

#[test]
fn run_round_trip() {
    let (status, actions) = drive(Ok(()), Ok(()), Ok(()), ExecStatus::Success(0), Ok(()));
    assert_eq!(status, ExecStatus::Success(0));
    assert_eq!(
        actions,
        vec![
            Action::AcquireCurrent,
            Action::AcquireTarget,
            Action::InstallTarget,
            Action::RunWork,
            Action::InstallOriginal,
            Action::Report(ExecStatus::Success(0)),
        ]
    );
}

#[test]
fn run_returns_work_exit_code() {
    let (status, _) = drive(Ok(()), Ok(()), Ok(()), ExecStatus::Success(17), Ok(()));
    assert_eq!(status, ExecStatus::Success(17));
}

#[test]
fn run_missing_target_never_switches() {
    let (status, actions) = drive(Ok(()), Err(sys(2)), Ok(()), ExecStatus::Success(0), Ok(()));
    assert_eq!(status, ExecStatus::Failed(sys(2)));
    assert!(!actions.contains(&Action::InstallTarget));
    assert!(!actions.contains(&Action::RunWork));
    assert!(!actions.contains(&Action::InstallOriginal));
}

#[test]
fn run_original_failure_stops_at_once() {
    let (status, actions) = drive(Err(sys(24)), Ok(()), Ok(()), ExecStatus::Success(0), Ok(()));
    assert_eq!(status, ExecStatus::Failed(sys(24)));
    assert_eq!(actions.len(), 2);
}

#[test]
fn run_switch_failure_needs_no_restore() {
    let (status, actions) = drive(Ok(()), Ok(()), Err(sys(1)), ExecStatus::Success(0), Ok(()));
    assert_eq!(status, ExecStatus::Failed(sys(1)));
    assert!(!actions.contains(&Action::RunWork));
    assert!(!actions.contains(&Action::InstallOriginal));
}

#[test]
fn run_restore_failure_beats_work_success() {
    let (status, actions) = drive(Ok(()), Ok(()), Ok(()), ExecStatus::Success(0), Err(sys(9)));
    assert_eq!(status, ExecStatus::Failed(sys(9)));
    assert!(actions.contains(&Action::InstallOriginal));
}

#[test]
fn run_restore_failure_beats_work_failure() {
    let (status, _) = drive(Ok(()), Ok(()), Ok(()), ExecStatus::Failed(sys(5)), Err(sys(9)));
    assert_eq!(status, ExecStatus::Failed(sys(9)));
}

#[test]
fn run_work_failure_still_restores() {
    let (status, actions) = drive(Ok(()), Ok(()), Ok(()), ExecStatus::Failed(sys(5)), Ok(()));
    assert_eq!(status, ExecStatus::Failed(sys(5)));
    assert!(actions.contains(&Action::InstallOriginal));
}

#[test]
fn finished_stage_stays() {
    let done = Stage::Finished(ExecStatus::Success(3));
    assert_eq!(done.on_step(Err(sys(1))), done);
    assert_eq!(done.on_step(Ok(())), done);
    assert_eq!(done.on_work(ExecStatus::Success(4)), done);
    assert_eq!(Stage::RunWork.on_step(Ok(())), Stage::RunWork);
    assert_eq!(Stage::AcquireTarget.on_work(ExecStatus::Success(1)), Stage::AcquireTarget);
}
