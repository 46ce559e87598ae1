//! Transfers to and from an FTP server.

use vstd::prelude::*;

use crate::text::opt_view;
use crate::workspace::ftp_files::{ftp_protocol, FtpRuntime, RemoteTransferProtocol};
use crate::workspace::ftp_form::FtpSecurity;

verus! {

#[derive(Clone, Copy, PartialEq, Eq, Structural, Debug)]
pub enum SftpTransferDirection {
    Upload,
    Download,
}

/// What becomes of a local file that is there already.
#[derive(Clone, Copy, PartialEq, Eq, Structural, Debug)]
pub enum LocalDownloadDisposition {
    CreateNew,
    Overwrite,
    ResumeVerified,
}

#[derive(Clone, Copy, PartialEq, Eq, Structural, Debug)]
pub enum BackgroundTransferKind {
    File,
    Directory,
}

#[derive(Clone, Copy, PartialEq, Eq, Structural, Debug)]
pub enum RemoteTransferStrategy {
    File,
    DirectoryRecursive,
}

#[derive(Clone, Copy, PartialEq, Eq, Structural, Debug)]
pub enum BackgroundTransferState {
    Completed,
    Cancelled,
    Error,
}

/// What the list of transfers says of one that starts.
pub struct BackgroundTransfer {
    pub name: String,
    pub direction: SftpTransferDirection,
    pub kind: BackgroundTransferKind,
    pub strategy: RemoteTransferStrategy,
    pub protocol: RemoteTransferProtocol,
}

/// Why a transfer does not start.
#[derive(Clone, Copy, PartialEq, Eq, Structural, Debug)]
pub enum FtpTransferError {
    /// The local file is there already.
    AlreadyExists,
    /// The server cannot go on with part of a file.
    InvalidInput,
}

/// How a transfer ends early, and what its error says.
pub struct FtpTransferFailure {
    pub cancelled: bool,
    pub words: String,
}

/// What the host does for a transfer.
#[derive(Clone, Copy, PartialEq, Eq, Structural, Debug)]
pub enum FtpTransferCommand {
    UploadFile,
    DownloadFile { replace: bool },
    UploadDirectory,
    DownloadDirectory,
}

/// How far a transfer is.
#[derive(Clone, Copy, PartialEq, Eq, Structural, Debug)]
pub struct TransferProgress {
    pub completed: u64,
    pub total: Option<u64>,
}

/// How a transfer ended.
pub struct TransferEnd {
    pub state: BackgroundTransferState,
    /// What the list of transfers says of an error.
    pub error: Option<String>,
    /// How many bytes were transferred, where all were.
    pub bytes: Option<u64>,
    /// Whether a file that was begun on the server is to be removed.
    pub clean_up: bool,
    /// What the caller hears.
    pub result: Result<(), String>,
}

impl FtpRuntime {
    /// What is shown of a transfer: the name of the file, where its path has one.
    pub open spec fn describes(
        self,
        transfer: BackgroundTransfer,
        direction: SftpTransferDirection,
        directory: bool,
        remote: Seq<char>,
        file_name: Option<Seq<char>>,
    ) -> bool {
        &&& transfer.name@ == match file_name {
            Some(name) => name,
            None => remote,
        }
        &&& transfer.direction == direction
        &&& transfer.kind == if directory {
            BackgroundTransferKind::Directory
        } else {
            BackgroundTransferKind::File
        }
        &&& transfer.strategy == if directory {
            RemoteTransferStrategy::DirectoryRecursive
        } else {
            RemoteTransferStrategy::File
        }
        &&& transfer.protocol == ftp_protocol(Some(self.security))
    }

    /// What the list of transfers says of one that starts. `file_name` is the last part of the
    /// remote path, where it has one.
    pub fn describe_transfer(
        &self,
        direction: SftpTransferDirection,
        directory: bool,
        remote: &str,
        file_name: Option<&str>,
    ) -> (res: BackgroundTransfer)
        ensures
            self.describes(
                res,
                direction,
                directory,
                remote@,
                match file_name {
                    Some(name) => Some(name@),
                    None => None,
                },
            ),
    {
        let name = match file_name {
            Some(name) => name.to_owned(),
            None => remote.to_owned(),
        };
        BackgroundTransfer {
            name,
            direction,
            kind: if directory {
                BackgroundTransferKind::Directory
            } else {
                BackgroundTransferKind::File
            },
            strategy: if directory {
                RemoteTransferStrategy::DirectoryRecursive
            } else {
                RemoteTransferStrategy::File
            },
            protocol: if self.security == FtpSecurity::ExplicitTls {
                RemoteTransferProtocol::Ftps
            } else {
                RemoteTransferProtocol::Ftp
            },
        }
    }

    /// What is shown of a transfer that starts; one that is no longer registered does not start.
    pub fn begin_transfer(
        &self,
        registered: bool,
        direction: SftpTransferDirection,
        directory: bool,
        remote: &str,
        file_name: Option<&str>,
    ) -> (res: Result<BackgroundTransfer, String>)
        ensures
            match res {
                Ok(transfer) => registered && self.describes(
                    transfer,
                    direction,
                    directory,
                    remote@,
                    match file_name {
                        Some(name) => Some(name@),
                        None => None,
                    },
                ),
                Err(error) => !registered && error@ == "FTP transfer is no longer registered"@,
            },
    {
        if !registered {
            return Err("FTP transfer is no longer registered".to_owned());
        }
        Ok(self.describe_transfer(direction, directory, remote, file_name))
    }

    /// Whether the host has to find out if the local file is there.
    pub fn asks_for_local_file(&self, direction: SftpTransferDirection, directory: bool, disposition: LocalDownloadDisposition) -> (res: bool)
        ensures
            res == (direction == SftpTransferDirection::Download && !directory && disposition
                == LocalDownloadDisposition::CreateNew),
    {
        direction == SftpTransferDirection::Download && !directory && disposition
            == LocalDownloadDisposition::CreateNew
    }

    /// What the host does for a transfer. `present` says whether the local file is there.
    pub fn plan_transfer(
        &self,
        direction: SftpTransferDirection,
        directory: bool,
        disposition: LocalDownloadDisposition,
        present: bool,
    ) -> (res: Result<FtpTransferCommand, FtpTransferError>)
        ensures
            res == if direction == SftpTransferDirection::Download && !directory && disposition
                == LocalDownloadDisposition::CreateNew && present {
                Err::<FtpTransferCommand, FtpTransferError>(FtpTransferError::AlreadyExists)
            } else if disposition == LocalDownloadDisposition::ResumeVerified {
                Err(FtpTransferError::InvalidInput)
            } else {
                Ok(
                    match (direction, directory) {
                        (SftpTransferDirection::Upload, false) => FtpTransferCommand::UploadFile,
                        (SftpTransferDirection::Upload, true) => FtpTransferCommand::UploadDirectory,
                        (SftpTransferDirection::Download, false) => FtpTransferCommand::DownloadFile {
                            replace: disposition != LocalDownloadDisposition::CreateNew,
                        },
                        (SftpTransferDirection::Download, true) => FtpTransferCommand::DownloadDirectory,
                    },
                )
            },
    {
        if self.asks_for_local_file(direction, directory, disposition) && present {
            return Err(FtpTransferError::AlreadyExists);
        }
        if disposition == LocalDownloadDisposition::ResumeVerified {
            return Err(FtpTransferError::InvalidInput);
        }
        match (direction, directory) {
            (SftpTransferDirection::Upload, false) => Ok(FtpTransferCommand::UploadFile),
            (SftpTransferDirection::Upload, true) => Ok(FtpTransferCommand::UploadDirectory),
            (SftpTransferDirection::Download, false) => Ok(
                FtpTransferCommand::DownloadFile {
                    replace: disposition != LocalDownloadDisposition::CreateNew,
                },
            ),
            (SftpTransferDirection::Download, true) => Ok(FtpTransferCommand::DownloadDirectory),
        }
    }
}

/// The time that so many bytes take at a limit of bytes per second, in nanoseconds.
pub open spec fn time_for(completed: u64, limit: u64) -> int {
    let time = completed as int * 1000000000 / limit as int;
    if time > u64::MAX {
        u64::MAX as int
    } else {
        time
    }
}

/// How long a transfer waits so that it keeps to the limit; without a limit it never does.
pub fn pause(completed: u64, limit: u64, elapsed_nanos: u64) -> (res: Option<u64>)
    ensures
        res == if limit > 0 && time_for(completed, limit) >= elapsed_nanos {
            Some((time_for(completed, limit) - elapsed_nanos) as u64)
        } else {
            None
        },
{
    if limit == 0 {
        return None;
    }
    let time: u128 = completed as u128 * 1000000000 / limit as u128;
    let capped: u64 = if time > u64::MAX as u128 {
        u64::MAX
    } else {
        time as u64
    };
    if capped >= elapsed_nanos {
        Some(capped - elapsed_nanos)
    } else {
        None
    }
}

/// A transfer that keeps its pauses is never faster than the limit.
pub proof fn law_transfers_keep_to_the_limit(completed: u64, limit: u64, elapsed_nanos: u64)
    requires
        limit > 0,
        time_for(completed, limit) < u64::MAX,
    ensures
        ({
            let waited = if time_for(completed, limit) >= elapsed_nanos {
                time_for(completed, limit) - elapsed_nanos
            } else {
                0
            };
            elapsed_nanos + waited >= completed as int * 1000000000 / limit as int
        }),
{
}

/// Whether the user hears of the progress: not more often than every fifty milliseconds, but
/// always of the end.
pub fn is_due(progress: TransferProgress, since_last_millis: u64) -> (res: bool)
    ensures
        res == (since_last_millis >= 50 || progress.total == Some(progress.completed)),
{
    if since_last_millis >= 50 {
        return true;
    }
    match progress.total {
        Some(total) => total == progress.completed,
        None => false,
    }
}

/// Ends a transfer. `connected` says whether a session of its own was opened for it: only then can it
/// have left something behind. The list of transfers says nothing of a cancelled one, but its caller
/// hears of it.
pub fn end_transfer(result: Result<u64, FtpTransferFailure>, connected: bool) -> (res: TransferEnd)
    ensures
        match result {
            Ok(bytes) => res == (TransferEnd {
                state: BackgroundTransferState::Completed,
                error: None,
                bytes: Some(bytes),
                clean_up: false,
                result: Ok(()),
            }),
            Err(failure) => {
                &&& res.state == if failure.cancelled {
                    BackgroundTransferState::Cancelled
                } else {
                    BackgroundTransferState::Error
                }
                &&& res.bytes is None
                &&& res.clean_up == connected
                &&& res.result == Err::<(), String>(failure.words)
                &&& opt_view(res.error) == if failure.cancelled {
                    None
                } else {
                    Some(failure.words@)
                }
            },
        },
{
    match result {
        Ok(bytes) => TransferEnd {
            state: BackgroundTransferState::Completed,
            error: None,
            bytes: Some(bytes),
            clean_up: false,
            result: Ok(()),
        },
        Err(failure) => TransferEnd {
            state: if failure.cancelled {
                BackgroundTransferState::Cancelled
            } else {
                BackgroundTransferState::Error
            },
            error: if failure.cancelled {
                None
            } else {
                Some(failure.words.clone())
            },
            bytes: None,
            clean_up: connected,
            result: Err(failure.words),
        },
    }
}

} // verus!
