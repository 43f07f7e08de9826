use vstd::prelude::*;
use vstd::string::*;

verus! {

/// Errors that happen while pd or its audio is being set up.
#[derive(Debug, Clone, Copy, PartialEq, Eq)]
pub enum InitializationError {
    AlreadyInitialized,
    RingBufferInitializationError,
    InitializationFailed,
    AudioInitializationFailed,
}

impl InitializationError {
    /// The text that describes the error.
    pub open spec fn message_spec(&self) -> Seq<char> {
        match self {
            InitializationError::AlreadyInitialized => "Pure Data is already initialized."@,
            InitializationError::RingBufferInitializationError =>
                "Failed to initialize the ring buffers which are needed for the message queue."@,
            InitializationError::InitializationFailed =>
                "An unknown error occurred in Pure Data initialization."@,
            InitializationError::AudioInitializationFailed =>
                "An unknown error occurred in Pure Data audio initialization."@,
        }
    }

    /// Returns the text that describes the error.
    pub fn message(&self) -> (m: String)
        ensures
            m@ == self.message_spec(),
    {
        match self {
            InitializationError::AlreadyInitialized => String::from_str(
                "Pure Data is already initialized.",
            ),
            InitializationError::RingBufferInitializationError => String::from_str(
                "Failed to initialize the ring buffers which are needed for the message queue.",
            ),
            InitializationError::InitializationFailed => String::from_str(
                "An unknown error occurred in Pure Data initialization.",
            ),
            InitializationError::AudioInitializationFailed => String::from_str(
                "An unknown error occurred in Pure Data audio initialization.",
            ),
        }
    }
}


/// Errors that happen while reading or writing patch files or the GUI.
#[derive(Debug, Clone, Copy, PartialEq, Eq)]
pub enum IoError {
    FailedToOpenPatch,
    FailedToClosePatch,
    FailedToOpenGui,
}

impl IoError {
    /// The text that describes the error.
    pub open spec fn message_spec(&self) -> Seq<char> {
        match self {
            IoError::FailedToOpenPatch => "Failed to open patch for unknown reason."@,
            IoError::FailedToClosePatch => "Failed to close patch for unknown reason."@,
            IoError::FailedToOpenGui => "Failed to open gui for unknown reason."@,
        }
    }

    /// Returns the text that describes the error.
    pub fn message(&self) -> (m: String)
        ensures
            m@ == self.message_spec(),
    {
        match self {
            IoError::FailedToOpenPatch => String::from_str("Failed to open patch for unknown reason."),
            IoError::FailedToClosePatch => String::from_str("Failed to close patch for unknown reason."),
            IoError::FailedToOpenGui => String::from_str("Failed to open gui for unknown reason."),
        }
    }
}

/// Errors that happen when a message finds no receiver.
#[derive(Debug, Clone, PartialEq, Eq)]
pub enum SendError {
    MissingDestination(String),
}

impl SendError {
    /// The text that describes the error: it names the receiver.
    pub open spec fn message_spec(&self) -> Seq<char> {
        match self {
            SendError::MissingDestination(receiver) => "No destination found for receiver: `"@
                + receiver@ + "` in loaded pd patch."@,
        }
    }

    /// Returns the text that describes the error.
    pub fn message(&self) -> (m: String)
        ensures
            m@ == self.message_spec(),
    {
        match self {
            SendError::MissingDestination(receiver) => {
                let m = String::from_str("No destination found for receiver: `");
                let m = m.concat(receiver.as_str());
                m.concat("` in loaded pd patch.")
            },
        }
    }
}

/// Errors that happen when subscribing to a sender fails.
#[derive(Debug, Clone, PartialEq, Eq)]
pub enum SubscriptionError {
    FailedToSubscribeToSender(String),
}

impl SubscriptionError {
    /// The text that describes the error: it names the sender.
    pub open spec fn message_spec(&self) -> Seq<char> {
        match self {
            SubscriptionError::FailedToSubscribeToSender(sender) =>
                "Failed to subscribe to sender: `"@ + sender@ + "` in loaded pd patch."@,
        }
    }

    /// Returns the text that describes the error.
    pub fn message(&self) -> (m: String)
        ensures
            m@ == self.message_spec(),
    {
        match self {
            SubscriptionError::FailedToSubscribeToSender(sender) => {
                let m = String::from_str("Failed to subscribe to sender: `");
                let m = m.concat(sender.as_str());
                m.concat("` in loaded pd patch.")
            },
        }
    }
}

/// Errors about sizes: of a message being composed, or of an array.
#[derive(Debug, Clone, Copy, PartialEq, Eq)]
pub enum SizeError {
    TooLarge,
    CouldNotDetermine,
}

impl SizeError {
    /// The text that describes the error.
    pub open spec fn message_spec(&self) -> Seq<char> {
        match self {
            SizeError::TooLarge => "The requested size is too large."@,
            SizeError::CouldNotDetermine => "Could not determine the requested size."@,
        }
    }

    /// Returns the text that describes the error.
    pub fn message(&self) -> (m: String)
        ensures
            m@ == self.message_spec(),
    {
        match self {
            SizeError::TooLarge => String::from_str("The requested size is too large."),
            SizeError::CouldNotDetermine => String::from_str("Could not determine the requested size."),
        }
    }
}

/// Errors about paths in the file system.
#[derive(Debug, Clone, PartialEq, Eq)]
pub enum FileSystemError {
    PathDoesNotExist(String),
}

impl FileSystemError {
    /// The text that describes the error: it names the path.
    pub open spec fn message_spec(&self) -> Seq<char> {
        match self {
            FileSystemError::PathDoesNotExist(path) =>
                "The path you have provided does not exist in the file system: `"@ + path@ + "`."@,
        }
    }

    /// Returns the text that describes the error.
    pub fn message(&self) -> (m: String)
        ensures
            m@ == self.message_spec(),
    {
        match self {
            FileSystemError::PathDoesNotExist(path) => {
                let m = String::from_str("The path you have provided does not exist in the file system: `");
                let m = m.concat(path.as_str());
                m.concat("`.")
            },
        }
    }
}

/// Every error that an operation of this library can report.
#[derive(Debug, Clone, PartialEq, Eq)]
pub enum LibpdError {
    InitializationError(InitializationError),
    IoError(IoError),
    SendError(SendError),
    SubscriptionError(SubscriptionError),
    SizeError(SizeError),
    FileSystemError(FileSystemError),
}

impl LibpdError {
    /// The text that describes the error: that of the error it wraps.
    pub open spec fn message_spec(&self) -> Seq<char> {
        match self {
            LibpdError::InitializationError(e) => e.message_spec(),
            LibpdError::IoError(e) => e.message_spec(),
            LibpdError::SendError(e) => e.message_spec(),
            LibpdError::SubscriptionError(e) => e.message_spec(),
            LibpdError::SizeError(e) => e.message_spec(),
            LibpdError::FileSystemError(e) => e.message_spec(),
        }
    }

    /// Returns the text that describes the error.
    pub fn message(&self) -> (m: String)
        ensures
            m@ == self.message_spec(),
    {
        match self {
            LibpdError::InitializationError(e) => e.message(),
            LibpdError::IoError(e) => e.message(),
            LibpdError::SendError(e) => e.message(),
            LibpdError::SubscriptionError(e) => e.message(),
            LibpdError::SizeError(e) => e.message(),
            LibpdError::FileSystemError(e) => e.message(),
        }
    }
}

} // verus!
