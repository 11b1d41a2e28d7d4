//! Recording: the command that ends one, and the rule that one recording
//! runs at a time.

use vstd::prelude::*;
use vstd::string::*;

verus! {

/// The sample rate at which audio is recorded, in Hz.
pub const SAMPLE_RATE: u32 = 16000;

/// The number of channels that are recorded.
pub const CHANNELS: u16 = 1;

/// What can be asked of the thread that records.
#[derive(Clone, Copy, Debug, PartialEq, Eq, Structural)]
pub enum RecordingCommand {
    Stop,
}

/// Why a recording could not be started or stopped.
#[derive(Debug, PartialEq, Eq)]
pub enum RecordingError {
    /// A recording is running already.
    AlreadyRecording,
    /// No recording is running.
    NotRecording,
    /// The recorder could not start, with its words.
    Recorder(String),
}

/// Model of a [`RecordingError`].
pub enum RecordingErrorModel {
    AlreadyRecording,
    NotRecording,
    Recorder(Seq<char>),
}

impl View for RecordingError {
    type V = RecordingErrorModel;

    open spec fn view(&self) -> RecordingErrorModel {
        match self {
            RecordingError::AlreadyRecording => RecordingErrorModel::AlreadyRecording,
            RecordingError::NotRecording => RecordingErrorModel::NotRecording,
            RecordingError::Recorder(detail) => RecordingErrorModel::Recorder(detail@),
        }
    }
}

/// The message for each error.
pub open spec fn recording_message(error: RecordingErrorModel) -> Seq<char> {
    match error {
        RecordingErrorModel::AlreadyRecording => "Recording already in progress"@,
        RecordingErrorModel::NotRecording => "No recording in progress"@,
        RecordingErrorModel::Recorder(detail) => "Failed to start recording: "@ + detail,
    }
}

impl RecordingError {
    /// The message for the user.
    pub fn message(&self) -> (text: String)
        ensures
            text@ == recording_message(self@),
    {
        match self {
            RecordingError::AlreadyRecording => String::from_str("Recording already in progress"),
            RecordingError::NotRecording => String::from_str("No recording in progress"),
            RecordingError::Recorder(detail) => {
                let mut text = String::from_str("Failed to start recording: ");
                text.append(detail.as_str());
                text
            },
        }
    }
}

/// The place for the handle of the recording that runs. `H` is that handle.
#[derive(Debug)]
pub struct RecordingSlot<H> {
    current: Option<H>,
}

impl<H> RecordingSlot<H> {
    /// The handle of the recording that runs, if one does.
    pub closed spec fn running(&self) -> Option<H> {
        self.current
    }

    /// A slot with no recording.
    pub fn new() -> (slot: Self)
        ensures
            slot.running() is None,
    {
        RecordingSlot { current: None }
    }

    /// Whether a recording runs.
    pub fn is_recording(&self) -> (recording: bool)
        ensures
            recording == self.running().is_some(),
    {
        self.current.is_some()
    }

    /// Starts a recording with `open`, unless one runs already: then `open`
    /// is not called. An error of `open` is passed on, and no recording
    /// runs then.
    pub fn start<F: FnOnce() -> Result<H, String>>(&mut self, open: F) -> (result: Result<(), RecordingError>)
        requires
            open.requires(()),
        ensures
            old(self).running() is Some ==> final(self).running() == old(self).running() && (result
                matches Err(error) && error@ == RecordingErrorModel::AlreadyRecording),
            old(self).running() is None ==> exists|opened: Result<H, String>| #[trigger]
                open.ensures((), opened) && match opened {
                    Ok(handle) => result is Ok && final(self).running() == Some(handle),
                    Err(detail) => final(self).running() is None && (result matches Err(error) && error@
                        == RecordingErrorModel::Recorder(detail@)),
                },
    {
        if self.current.is_some() {
            return Err(RecordingError::AlreadyRecording);
        }
        match open() {
            Ok(handle) => {
                self.current = Some(handle);
                Ok(())
            },
            Err(detail) => Err(RecordingError::Recorder(detail)),
        }
    }

    /// Takes the handle of the recording that runs, to stop it.
    pub fn stop(&mut self) -> (result: Result<H, RecordingError>)
        ensures
            final(self).running() is None,
            match old(self).running() {
                Some(handle) => result == Ok::<H, RecordingError>(handle),
                None => result matches Err(error) && error@ == RecordingErrorModel::NotRecording,
            },
    {
        match self.current.take() {
            Some(handle) => Ok(handle),
            None => Err(RecordingError::NotRecording),
        }
    }
}

} // verus!
