use libpd_rs::error::{
    FileSystemError, InitializationError, IoError, LibpdError, SendError, SizeError,
    SubscriptionError,
};
use libpd_rs::mirror::{
    array_size_outcome, audio_init_outcome, close_patch_check, gui_start_outcome, init_outcome,
    poll_gui_outcome, resize_array_outcome, search_path_check, send_outcome,
    source_exists_outcome, start_message_outcome, subscription_outcome, unsubscribe_needed,
    verbose_flag, verbose_state_outcome, atom_kind, AtomKind,
};

#[test]
fn init_success_code_is_ok() {
    assert_eq!(init_outcome(0), Ok(()));
}

#[test]
fn init_second_call_is_already_initialized() {
    assert_eq!(
        init_outcome(-1),
        Err(LibpdError::InitializationError(InitializationError::AlreadyInitialized))
    );
}

#[test]
fn init_ring_buffer_failure() {
    assert_eq!(
        init_outcome(-2),
        Err(LibpdError::InitializationError(
            InitializationError::RingBufferInitializationError
        ))
    );
}

#[test]
fn init_other_codes_are_unknown_failures() {
    for code in [-3, 1, 7, i32::MIN, i32::MAX] {
        assert_eq!(
            init_outcome(code),
            Err(LibpdError::InitializationError(InitializationError::InitializationFailed))
        );
    }
}

#[test]
fn search_path_must_exist() {
    assert_eq!(search_path_check(true, "/tmp/patches"), Ok(()));
    assert_eq!(
        search_path_check(false, "/no/such/dir"),
        Err(LibpdError::FileSystemError(FileSystemError::PathDoesNotExist(
            "/no/such/dir".to_string()
        )))
    );
}

#[test]
fn null_patch_handle_is_refused() {
    assert_eq!(close_patch_check(false), Ok(()));
    assert_eq!(
        close_patch_check(true),
        Err(LibpdError::IoError(IoError::FailedToClosePatch))
    );
}

#[test]
fn audio_init_codes() {
    assert_eq!(audio_init_outcome(0), Ok(()));
    assert_eq!(
        audio_init_outcome(-1),
        Err(LibpdError::InitializationError(InitializationError::AudioInitializationFailed))
    );
    assert_eq!(
        audio_init_outcome(3),
        Err(LibpdError::InitializationError(InitializationError::AudioInitializationFailed))
    );
}

#[test]
fn array_size_codes() {
    assert_eq!(array_size_outcome(1024), Ok(1024));
    assert_eq!(array_size_outcome(0), Ok(0));
    assert_eq!(
        array_size_outcome(-1),
        Err(LibpdError::SizeError(SizeError::CouldNotDetermine))
    );
}

#[test]
fn resize_array_codes() {
    assert_eq!(resize_array_outcome(0), Ok(()));
    assert_eq!(
        resize_array_outcome(-1),
        Err(LibpdError::SizeError(SizeError::CouldNotDetermine))
    );
}

#[test]
fn send_names_the_missing_receiver() {
    assert_eq!(send_outcome(0, "foo"), Ok(()));
    assert_eq!(
        send_outcome(-1, "foo"),
        Err(LibpdError::SendError(SendError::MissingDestination("foo".to_string())))
    );
    assert_eq!(
        send_outcome(5, "pd"),
        Err(LibpdError::SendError(SendError::MissingDestination("pd".to_string())))
    );
}

#[test]
fn start_message_codes() {
    assert_eq!(start_message_outcome(0), Ok(()));
    assert_eq!(
        start_message_outcome(-1),
        Err(LibpdError::SizeError(SizeError::TooLarge))
    );
}

#[test]
fn subscription_names_the_sender() {
    assert_eq!(subscription_outcome(false, "foo"), Ok(()));
    assert_eq!(
        subscription_outcome(true, "bar"),
        Err(LibpdError::SubscriptionError(
            SubscriptionError::FailedToSubscribeToSender("bar".to_string())
        ))
    );
}

#[test]
fn source_exists_only_on_one() {
    assert!(source_exists_outcome(1));
    assert!(!source_exists_outcome(0));
    assert!(!source_exists_outcome(-1));
    assert!(!source_exists_outcome(2));
}

#[test]
fn gui_start_codes() {
    assert_eq!(gui_start_outcome(Some(0)), Ok(()));
    assert_eq!(
        gui_start_outcome(Some(-1)),
        Err(LibpdError::IoError(IoError::FailedToOpenGui))
    );
    assert_eq!(
        gui_start_outcome(None),
        Err(LibpdError::IoError(IoError::FailedToOpenGui))
    );
}

#[test]
fn poll_gui_codes() {
    assert_eq!(poll_gui_outcome(1), Some(()));
    assert_eq!(poll_gui_outcome(0), None);
    assert_eq!(poll_gui_outcome(-1), None);
}

#[test]
fn verbose_flag_round_trip() {
    assert_eq!(verbose_flag(true), 1);
    assert_eq!(verbose_flag(false), 0);
    assert!(verbose_state_outcome(verbose_flag(true)));
    assert!(!verbose_state_outcome(verbose_flag(false)));
    assert!(!verbose_state_outcome(2));
}

#[test]
fn unsubscribe_only_real_handles() {
    assert!(unsubscribe_needed(false));
    assert!(!unsubscribe_needed(true));
}

#[test]
fn atom_kinds() {
    assert_eq!(atom_kind(1, 0), Some(AtomKind::Float));
    assert_eq!(atom_kind(1, 1), Some(AtomKind::Float));
    assert_eq!(atom_kind(0, 1), Some(AtomKind::Symbol));
    assert_eq!(atom_kind(0, 0), None);
    assert_eq!(atom_kind(2, 2), None);
}
