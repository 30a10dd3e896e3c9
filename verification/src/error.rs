//! What can go wrong, none of it fatal: the worst outcome is that playback
//! stays stopped.

use vstd::prelude::*;
use vstd::string::*;

verus! {

/// Why the decoder could not open a file.
#[derive(Clone, Copy, Debug, PartialEq, Eq, Structural)]
pub enum DecodeCause {
    /// The file is not in the lossless format that the player reads.
    WrongFormat,
    /// The stream is damaged.
    CorruptStream,
    /// There is no file at the track's path.
    MissingFile,
}

/// A failure that the player reports and then goes on from.
#[derive(Debug)]
pub enum PlayerError {
    /// The decoder could not open or parse the track.
    DecodeError(DecodeCause),
    /// A file was opened by name whose extension the player does not handle;
    /// the extension is kept, without its dot.
    UnsupportedExtension(String),
    /// The playlist file could not be written.
    IoError,
    /// Play was asked for with no track queued.
    EmptyPlaylist,
}

/// A [`PlayerError`] with its text as a sequence of characters.
pub enum ErrorView {
    DecodeError(DecodeCause),
    UnsupportedExtension(Seq<char>),
    IoError,
    EmptyPlaylist,
}

impl View for PlayerError {
    type V = ErrorView;

    open spec fn view(&self) -> ErrorView {
        match self {
            PlayerError::DecodeError(cause) => ErrorView::DecodeError(*cause),
            PlayerError::UnsupportedExtension(extension) => ErrorView::UnsupportedExtension(
                extension@,
            ),
            PlayerError::IoError => ErrorView::IoError,
            PlayerError::EmptyPlaylist => ErrorView::EmptyPlaylist,
        }
    }
}

impl ErrorView {
    /// The sentence shown to the user for this error.
    pub open spec fn message(self) -> Seq<char> {
        match self {
            ErrorView::DecodeError(DecodeCause::WrongFormat) => "Cannot play the file: it is not a FLAC stream"@,
            ErrorView::DecodeError(DecodeCause::CorruptStream) => "Cannot play the file: the stream is corrupt"@,
            ErrorView::DecodeError(DecodeCause::MissingFile) => "Cannot play the file: it does not exist"@,
            ErrorView::UnsupportedExtension(extension) => "Cannot open file with extension ."@
                + extension,
            ErrorView::IoError => "Cannot write the playlist file"@,
            ErrorView::EmptyPlaylist => "The playlist is empty"@,
        }
    }
}

impl PlayerError {
    /// The sentence shown to the user for this error.
    pub fn message(&self) -> (text: String)
        ensures
            text@ == self@.message(),
    {
        match self {
            PlayerError::DecodeError(DecodeCause::WrongFormat) => {
                "Cannot play the file: it is not a FLAC stream".to_owned()
            },
            PlayerError::DecodeError(DecodeCause::CorruptStream) => {
                "Cannot play the file: the stream is corrupt".to_owned()
            },
            PlayerError::DecodeError(DecodeCause::MissingFile) => {
                "Cannot play the file: it does not exist".to_owned()
            },
            PlayerError::UnsupportedExtension(extension) => {
                let mut text = "Cannot open file with extension .".to_owned();
                text.append(extension.as_str());
                text
            },
            PlayerError::IoError => "Cannot write the playlist file".to_owned(),
            PlayerError::EmptyPlaylist => "The playlist is empty".to_owned(),
        }
    }
}

} // verus!
