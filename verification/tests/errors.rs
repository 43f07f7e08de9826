use libpd_rs::error::{
    FileSystemError, InitializationError, IoError, LibpdError, SendError, SizeError,
    SubscriptionError,
};

#[test]
fn initialization_messages() {
    assert_eq!(
        InitializationError::AlreadyInitialized.message(),
        "Pure Data is already initialized."
    );
    assert_eq!(
        InitializationError::InitializationFailed.message(),
        "An unknown error occurred in Pure Data initialization."
    );
    assert_eq!(
        InitializationError::AudioInitializationFailed.message(),
        "An unknown error occurred in Pure Data audio initialization."
    );
    assert_eq!(
        InitializationError::RingBufferInitializationError.message(),
        "Failed to initialize the ring buffers which are needed for the message queue."
    );
}

#[test]
fn io_messages() {
    assert_eq!(
        IoError::FailedToOpenPatch.message(),
        "Failed to open patch for unknown reason."
    );
    assert_eq!(
        IoError::FailedToClosePatch.message(),
        "Failed to close patch for unknown reason."
    );
    assert_eq!(IoError::FailedToOpenGui.message(), "Failed to open gui for unknown reason.");
}

#[test]
fn send_message_names_receiver() {
    assert_eq!(
        SendError::MissingDestination("foo".to_string()).message(),
        "No destination found for receiver: `foo` in loaded pd patch."
    );
}

#[test]
fn subscription_message_names_sender() {
    assert_eq!(
        SubscriptionError::FailedToSubscribeToSender("listy".to_string()).message(),
        "Failed to subscribe to sender: `listy` in loaded pd patch."
    );
}

#[test]
fn size_and_file_system_messages() {
    assert_eq!(SizeError::TooLarge.message(), "The requested size is too large.");
    assert_eq!(
        SizeError::CouldNotDetermine.message(),
        "Could not determine the requested size."
    );
    assert_eq!(
        FileSystemError::PathDoesNotExist("/x/y".to_string()).message(),
        "The path you have provided does not exist in the file system: `/x/y`."
    );
}

#[test]
fn umbrella_message_is_the_wrapped_one() {
    let inner = SendError::MissingDestination("bar".to_string());
    assert_eq!(
        LibpdError::SendError(inner.clone()).message(),
        inner.message()
    );
    assert_eq!(
        LibpdError::IoError(IoError::FailedToOpenPatch).message(),
        "Failed to open patch for unknown reason."
    );
    assert_eq!(
        LibpdError::InitializationError(InitializationError::AlreadyInitialized).message(),
        "Pure Data is already initialized."
    );
}
