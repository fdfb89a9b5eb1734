use mkfifo_named_pipe::errors::ProvisionError;
use mkfifo_named_pipe::provision::{
    creation_outcome, is_fifo, plan, EntryProbe, ProvisionAction, FIFO_PERMISSIONS, FIFO_TYPE,
};

#[test]
fn plan_missing_entry_requests_creation() {
    let r = plan(&EntryProbe::Missing);
    assert_eq!(r.unwrap(), ProvisionAction::CreateFifo);
}

#[test]
fn plan_existing_fifo_is_kept() {
    let r = plan(&EntryProbe::Present { mode: FIFO_TYPE | FIFO_PERMISSIONS });
    assert_eq!(r.unwrap(), ProvisionAction::Keep);
}

#[test]
fn plan_is_idempotent_after_creation() {
    // First run: nothing at the path, so creation is requested.
    assert_eq!(plan(&EntryProbe::Missing).unwrap(), ProvisionAction::CreateFifo);
    // The fresh entry carries the FIFO type bits beside the permission bits.
    let mode = FIFO_TYPE | FIFO_PERMISSIONS;
    assert!(is_fifo(mode));
    // Second and third runs: success both times, no further creation.
    assert_eq!(plan(&EntryProbe::Present { mode }).unwrap(), ProvisionAction::Keep);
    assert_eq!(plan(&EntryProbe::Present { mode }).unwrap(), ProvisionAction::Keep);
}

#[test]
fn plan_regular_file_is_rejected() {
    let r = plan(&EntryProbe::Present { mode: 0o100644 });
    assert!(matches!(r, Err(ProvisionError::UnexpectedFileType)));
}

#[test]
fn plan_directory_is_rejected() {
    let r = plan(&EntryProbe::Present { mode: 0o040755 });
    assert!(matches!(r, Err(ProvisionError::UnexpectedFileType)));
}

#[test]
fn fifo_mode_predicate_on_exact_values() {
    assert!(is_fifo(0o010600));
    assert!(is_fifo(0o010000));
    assert!(!is_fifo(0o100644));
    assert!(!is_fifo(0o040755));
    assert!(!is_fifo(0o140777));
    assert!(!is_fifo(0));
}

#[test]
fn creation_zero_return_is_success() {
    assert!(creation_outcome(0, 0, Vec::new()).is_ok());
}

#[test]
fn creation_failure_carries_code_and_message() {
    let r = creation_outcome(-1, 13, b"Permission denied".to_vec());
    match r {
        Err(ProvisionError::Creation { code, message }) => {
            assert_eq!(code, 13);
            assert_eq!(message, b"Permission denied".to_vec());
        }
        _ => panic!("expected a creation error"),
    }
}
