use crate::error::{
    FileSystemError, InitializationError, IoError, LibpdError, SendError, SizeError,
    SubscriptionError,
};
use vstd::prelude::*;

verus! {

/// What initializing libpd's message queues reports, given the status code
/// that libpd returned: `0` is success, `-1` means pd was already
/// initialized, `-2` means the ring buffers could not be set up, and any
/// other code is an unknown failure.
pub fn init_outcome(code: i32) -> (r: Result<(), LibpdError>)
    ensures
        code == 0 <==> r == Ok::<(), LibpdError>(()),
        code == -1 <==> r == Err::<(), LibpdError>(
            LibpdError::InitializationError(InitializationError::AlreadyInitialized),
        ),
        code == -2 <==> r == Err::<(), LibpdError>(
            LibpdError::InitializationError(InitializationError::RingBufferInitializationError),
        ),
        (code != 0 && code != -1 && code != -2) <==> r == Err::<(), LibpdError>(
            LibpdError::InitializationError(InitializationError::InitializationFailed),
        ),
{
    match code {
        0 => Ok(()),
        -1 => Err(LibpdError::InitializationError(InitializationError::AlreadyInitialized)),
        -2 => Err(
            LibpdError::InitializationError(InitializationError::RingBufferInitializationError),
        ),
        _ => Err(LibpdError::InitializationError(InitializationError::InitializationFailed)),
    }
}

/// Whether a path may be added to libpd's search paths: only a path that
/// exists may; for any other the error names the path.
pub fn search_path_check(path_exists: bool, path: &str) -> (r: Result<(), LibpdError>)
    ensures
        path_exists <==> r == Ok::<(), LibpdError>(()),
        !path_exists ==> (r matches Err(LibpdError::FileSystemError(
            FileSystemError::PathDoesNotExist(p),
        )) && p@ == path@),
{
    if !path_exists {
        return Err(LibpdError::FileSystemError(FileSystemError::PathDoesNotExist(path.to_owned())));
    }
    Ok(())
}

/// Whether a patch handle may be closed: a null handle refers to no
/// opened patch and is refused.
pub fn close_patch_check(handle_is_null: bool) -> (r: Result<(), LibpdError>)
    ensures
        !handle_is_null <==> r == Ok::<(), LibpdError>(()),
        handle_is_null ==> r == Err::<(), LibpdError>(
            LibpdError::IoError(IoError::FailedToClosePatch),
        ),
{
    if handle_is_null {
        Err(LibpdError::IoError(IoError::FailedToClosePatch))
    } else {
        Ok(())
    }
}

/// What initializing audio reports, given libpd's status code: `0` is
/// success, anything else a failed audio initialization.
pub fn audio_init_outcome(code: i32) -> (r: Result<(), LibpdError>)
    ensures
        code == 0 <==> r == Ok::<(), LibpdError>(()),
        code != 0 ==> r == Err::<(), LibpdError>(
            LibpdError::InitializationError(InitializationError::AudioInitializationFailed),
        ),
{
    match code {
        0 => Ok(()),
        _ => Err(LibpdError::InitializationError(InitializationError::AudioInitializationFailed)),
    }
}

/// The size of a named array, given what libpd returned for it: a size
/// that is not negative, or a negative code when the array does not exist.
pub fn array_size_outcome(code: i32) -> (r: Result<i32, LibpdError>)
    ensures
        code >= 0 <==> r == Ok::<i32, LibpdError>(code),
        code < 0 <==> r == Err::<i32, LibpdError>(
            LibpdError::SizeError(SizeError::CouldNotDetermine),
        ),
{
    if code >= 0 {
        Ok(code)
    } else {
        Err(LibpdError::SizeError(SizeError::CouldNotDetermine))
    }
}

/// What resizing a named array reports, given libpd's status code: `0` is
/// success, anything else means the array was not found.
pub fn resize_array_outcome(code: i32) -> (r: Result<(), LibpdError>)
    ensures
        code == 0 <==> r == Ok::<(), LibpdError>(()),
        code != 0 ==> r == Err::<(), LibpdError>(
            LibpdError::SizeError(SizeError::CouldNotDetermine),
        ),
{
    match code {
        0 => Ok(()),
        _ => Err(LibpdError::SizeError(SizeError::CouldNotDetermine)),
    }
}

/// What sending to a receiver reports, given libpd's status code: `0` is
/// success, anything else means no receiver of that name exists, and the
/// error names the receiver.
pub fn send_outcome(code: i32, receiver: &str) -> (r: Result<(), LibpdError>)
    ensures
        code == 0 <==> r == Ok::<(), LibpdError>(()),
        code != 0 ==> (r matches Err(LibpdError::SendError(SendError::MissingDestination(name)))
            && name@ == receiver@),
{
    match code {
        0 => Ok(()),
        _ => Err(LibpdError::SendError(SendError::MissingDestination(receiver.to_owned()))),
    }
}

/// What starting the composition of a message reports, given libpd's status
/// code: `0` is success, anything else means the length is too large.
pub fn start_message_outcome(code: i32) -> (r: Result<(), LibpdError>)
    ensures
        code == 0 <==> r == Ok::<(), LibpdError>(()),
        code != 0 ==> r == Err::<(), LibpdError>(LibpdError::SizeError(SizeError::TooLarge)),
{
    match code {
        0 => Ok(()),
        _ => Err(LibpdError::SizeError(SizeError::TooLarge)),
    }
}

/// What subscribing to a sender reports, given whether the handle that libpd
/// returned is null: a null handle is a failed subscription, and the error
/// names the sender.
pub fn subscription_outcome(handle_is_null: bool, sender: &str) -> (r: Result<(), LibpdError>)
    ensures
        !handle_is_null <==> r == Ok::<(), LibpdError>(()),
        handle_is_null ==> (r matches Err(LibpdError::SubscriptionError(
            SubscriptionError::FailedToSubscribeToSender(name),
        )) && name@ == sender@),
{
    if handle_is_null {
        Err(
            LibpdError::SubscriptionError(
                SubscriptionError::FailedToSubscribeToSender(sender.to_owned()),
            ),
        )
    } else {
        Ok(())
    }
}

/// Whether a subscription handle must be released: a null handle holds
/// no subscription, so nothing is released for it.
pub fn unsubscribe_needed(handle_is_null: bool) -> (r: bool)
    ensures
        r <==> !handle_is_null,
{
    !handle_is_null
}

/// The kinds of atom that lists and messages from pd carry.
#[derive(Debug, Clone, Copy, PartialEq, Eq)]
pub enum AtomKind {
    Float,
    Symbol,
}

/// The kind of an atom received from pd, given libpd's answers to "is it a
/// float" and "is it a symbol" (`1` means yes): a float when it says so,
/// else a symbol when it says so, else `None` (the atom is skipped).
pub fn atom_kind(is_float: i32, is_symbol: i32) -> (r: Option<AtomKind>)
    ensures
        is_float == 1 ==> r == Some(AtomKind::Float),
        is_float != 1 && is_symbol == 1 ==> r == Some(AtomKind::Symbol),
        is_float != 1 && is_symbol != 1 ==> r == None::<AtomKind>,
{
    if is_float == 1 {
        Some(AtomKind::Float)
    } else if is_symbol == 1 {
        Some(AtomKind::Symbol)
    } else {
        None
    }
}

/// Whether a source to listen from exists, given libpd's answer: exactly
/// the code `1` means it does.
pub fn source_exists_outcome(code: i32) -> (r: bool)
    ensures
        r <==> code == 1,
{
    code == 1
}

/// What starting the pd GUI reports. `code` is `None` when the path to pd
/// does not exist (and pd was not asked), else libpd's status code, where
/// `0` is success. Every failure is the same error.
pub fn gui_start_outcome(code: Option<i32>) -> (r: Result<(), LibpdError>)
    ensures
        code == Some(0i32) <==> r == Ok::<(), LibpdError>(()),
        code != Some(0i32) ==> r == Err::<(), LibpdError>(
            LibpdError::IoError(IoError::FailedToOpenGui),
        ),
{
    match code {
        Some(0) => Ok(()),
        _ => Err(LibpdError::IoError(IoError::FailedToOpenGui)),
    }
}

/// What polling the GUI reports, given libpd's answer: exactly the code `1`
/// means the poll found something.
pub fn poll_gui_outcome(code: i32) -> (r: Option<()>)
    ensures
        r == Some(()) <==> code == 1,
{
    match code {
        1 => Some(()),
        _ => None,
    }
}

/// The flag that switches verbose printing on (`1`) or off (`0`).
pub open spec fn verbose_flag_spec(active: bool) -> i32 {
    if active {
        1
    } else {
        0
    }
}

/// Whether a verbose-printing flag means that verbose printing is on.
pub open spec fn verbose_state_spec(flag: i32) -> bool {
    flag == 1
}

/// The flag that libpd takes to switch verbose printing on or off.
pub fn verbose_flag(active: bool) -> (flag: i32)
    ensures
        flag == verbose_flag_spec(active),
{
    if active {
        1
    } else {
        0
    }
}

/// Whether verbose printing is on, given the flag that libpd reports.
pub fn verbose_state_outcome(flag: i32) -> (active: bool)
    ensures
        active == verbose_state_spec(flag),
{
    flag == 1
}

/// Reading back the flag that switched verbose printing gives the state
/// that was asked for.
pub proof fn lemma_verbose_round_trip(active: bool)
    ensures
        verbose_state_spec(verbose_flag_spec(active)) == active,
{
}

} // verus!
