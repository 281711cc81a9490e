//! Tests for the guard's contracted decision functions: each stage's outcome
//! maps to exactly the documented result.

use cargo_credential::stdio::{
    capture_outcome, fallback_open, finish_restore, install_failure, install_outcome,
    restore_outcome,
};
use cargo_credential::Error;

use rustix::fd::AsRawFd;
use rustix::fs::{open, Mode, OFlags};

#[test]
fn capture_outcome_maps_stages() {
    let fd = open("/dev/null", OFlags::RDONLY, Mode::empty()).unwrap();
    let raw = fd.as_raw_fd();
    match capture_outcome(Ok(fd)) {
        Ok(kept) => assert_eq!(kept.as_raw_fd(), raw),
        Err(e) => panic!("capture_outcome lost the binding: {e:?}"),
    }
    assert_eq!(
        capture_outcome(Err(7)).map(|_| ()),
        Err(Error::StreamCapture { code: 7 })
    );
}

#[test]
fn fallback_open_uses_null_device_when_it_opens() {
    let fd = open("/dev/null", OFlags::RDONLY, Mode::empty()).unwrap();
    let raw = fd.as_raw_fd();
    match fallback_open(Ok(fd)) {
        Ok(kept) => assert_eq!(kept.as_raw_fd(), raw),
        Err(e) => panic!("fallback_open refused an open device: {e:?}"),
    }
}

#[test]
fn fallback_open_reports_device_unavailable() {
    assert_eq!(
        fallback_open(Err(2)).map(|_| ()),
        Err(Error::DeviceUnavailable { code: 2 })
    );
}

#[test]
fn install_outcome_maps_stages() {
    assert_eq!(install_outcome(Ok(())), Ok(()));
    assert_eq!(install_outcome(Err(9)), Err(Error::StreamInstall { code: 9 }));
}

#[test]
fn restore_outcome_maps_stages() {
    assert_eq!(restore_outcome(Ok(())), Ok(()));
    assert_eq!(restore_outcome(Err(3)), Err(Error::RestoreFailure { code: 3 }));
}

#[test]
fn install_failure_prefers_rollback_failure() {
    assert_eq!(install_failure(5, Ok(())), Error::StreamInstall { code: 5 });
    assert_eq!(
        install_failure(5, Err(Error::RestoreFailure { code: 8 })),
        Error::RestoreFailure { code: 8 }
    );
}

#[test]
fn finish_restore_never_swallows_a_restore_failure() {
    assert_eq!(finish_restore(Ok(()), Ok(()), 7u8), Ok(7u8));
    assert_eq!(
        finish_restore(Err(Error::RestoreFailure { code: 1 }), Ok(()), 7u8),
        Err(Error::RestoreFailure { code: 1 })
    );
    assert_eq!(
        finish_restore(Ok(()), Err(Error::RestoreFailure { code: 2 }), 7u8),
        Err(Error::RestoreFailure { code: 2 })
    );
    // The output restoration's failure is reported first.
    assert_eq!(
        finish_restore(
            Err(Error::RestoreFailure { code: 1 }),
            Err(Error::RestoreFailure { code: 2 }),
            7u8
        ),
        Err(Error::RestoreFailure { code: 1 })
    );
}
