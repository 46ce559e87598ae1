//! Files on an FTP server: previews, listings and transfers.

use vstd::prelude::*;

use crate::encoding::{base64_of, encode_base64};
use crate::numerals::{octal, permissions, zero_padded};
use crate::text;
use crate::text::opt_view;
use crate::workspace::app::WorkspaceApp;
use crate::workspace::ftp_form::FtpSecurity;

verus! {

/// The size of the largest file that is shown.
pub const PREVIEW_LIMIT: u64 = 10485760;

/// How many bytes of a file are shown at once.
pub const HEX_CHUNK: usize = 65536;

/// A connection to an FTP server.
pub struct FtpRuntime {
    pub security: FtpSecurity,
}

/// Why a file could not be read.
pub enum FtpReadError {
    TooLarge,
    Other(String),
}

/// A file that was read as text.
pub struct DecodedText {
    pub data: String,
    pub language: Option<String>,
    pub encoding: String,
    pub has_bom: bool,
}

/// What is shown of a file. Of one that is neither a picture nor text, the bytes from `start` to
/// `end` are.
pub enum PreviewContent {
    TooLarge { size: u64, max_size: u64, recommend_download: bool },
    Image { data: String, mime_type: &'static str },
    Text { text: DecodedText, mime_type: &'static str },
    Hex { start: usize, end: usize, total_size: u64, has_more: bool },
}

/// A letter of the Latin alphabet in lower case.
pub open spec fn lower(c: char) -> char {
    if 'A' <= c && c <= 'Z' {
        ((c as u32) + 32) as char
    } else {
        c
    }
}

/// A text in lower case, as far as it is ASCII.
pub open spec fn lower_case(text: Seq<char>) -> Seq<char> {
    text.map_values(|c: char| lower(c))
}

fn lowered(c: char) -> (res: char)
    ensures
        res == lower(c),
{
    match c {
        'A' => 'a',
        'B' => 'b',
        'C' => 'c',
        'D' => 'd',
        'E' => 'e',
        'F' => 'f',
        'G' => 'g',
        'H' => 'h',
        'I' => 'i',
        'J' => 'j',
        'K' => 'k',
        'L' => 'l',
        'M' => 'm',
        'N' => 'n',
        'O' => 'o',
        'P' => 'p',
        'Q' => 'q',
        'R' => 'r',
        'S' => 's',
        'T' => 't',
        'U' => 'u',
        'V' => 'v',
        'W' => 'w',
        'X' => 'x',
        'Y' => 'y',
        'Z' => 'z',
        _ => c,
    }
}

fn is_in_any_case(text: &str, name: &str) -> (res: bool)
    ensures
        res == (lower_case(text@) == name@),
{
    let chars = text::chars_of(text);
    let wanted = text::chars_of(name);
    if chars.len() != wanted.len() {
        assert(lower_case(text@).len() != name@.len());
        return false;
    }
    let mut at: usize = 0;
    while at < chars.len()
        invariant
            at <= chars.len(),
            chars@ == text@,
            wanted@ == name@,
            chars@.len() == wanted@.len(),
            forall|i: int| 0 <= i < at ==> lower(#[trigger] text@[i]) == name@[i],
        decreases chars.len() - at,
    {
        if lowered(chars[at]) != wanted[at] {
            assert(lower_case(text@)[at as int] != name@[at as int]);
            return false;
        }
        at = at + 1;
    }
    assert(lower_case(text@) =~= name@);
    true
}

/// The type of the picture that a file with this extension holds.
pub open spec fn picture_type(extension: Seq<char>) -> Option<Seq<char>> {
    let name = lower_case(extension);
    if name == "png"@ {
        Some("image/png"@)
    } else if name == "jpg"@ || name == "jpeg"@ {
        Some("image/jpeg"@)
    } else if name == "gif"@ {
        Some("image/gif"@)
    } else if name == "webp"@ {
        Some("image/webp"@)
    } else if name == "bmp"@ {
        Some("image/bmp"@)
    } else {
        None
    }
}

fn find_picture_type(extension: &str) -> (res: Option<&'static str>)
    ensures
        match res {
            Some(name) => picture_type(extension@) == Some(name@),
            None => picture_type(extension@) is None,
        },
{
    if is_in_any_case(extension, "png") {
        Some("image/png")
    } else if is_in_any_case(extension, "jpg") || is_in_any_case(extension, "jpeg") {
        Some("image/jpeg")
    } else if is_in_any_case(extension, "gif") {
        Some("image/gif")
    } else if is_in_any_case(extension, "webp") {
        Some("image/webp")
    } else if is_in_any_case(extension, "bmp") {
        Some("image/bmp")
    } else {
        None
    }
}

/// Where the shown bytes begin.
pub open spec fn hex_start(size: int, offset: u64) -> int {
    if offset > size {
        size
    } else {
        offset as int
    }
}

/// Where the shown bytes end.
pub open spec fn hex_end(size: int, offset: u64) -> int {
    let start = hex_start(size, offset);
    if start + HEX_CHUNK > size {
        size
    } else {
        start + HEX_CHUNK
    }
}

/// A file entry of the store's listing.
#[derive(Clone, Copy, PartialEq, Eq, Structural, Debug)]
pub enum FtpEntryKind {
    File,
    Directory,
    Symlink,
}

/// What the server says of a file. `modified` counts the seconds since 1970.
pub struct FtpEntry {
    pub name: String,
    pub kind: FtpEntryKind,
    pub size: Option<u64>,
    pub modified: Option<u64>,
    pub permissions: Option<u32>,
}

#[derive(Clone, Copy, PartialEq, Eq, Structural, Debug)]
pub enum SftpFileType {
    File,
    Directory,
}

/// A file as the file view lists it.
pub struct SftpFileEntry {
    pub path: String,
    pub name: String,
    pub file_type: SftpFileType,
    pub size: u64,
    pub size_known: bool,
    pub modified: Option<i64>,
    pub permissions: Option<String>,
    pub is_symlink: bool,
}

pub struct RemoteSftpListing {
    pub cwd: String,
    pub files: Vec<SftpFileEntry>,
}

/// A path without the slashes at its end.
pub open spec fn without_end_slashes(path: Seq<char>) -> Seq<char>
    decreases path.len(),
{
    if path.len() > 0 && path.last() == '/' {
        without_end_slashes(path.drop_last())
    } else {
        path
    }
}

fn drop_end_slashes(path: &str) -> (res: String)
    ensures
        res@ == without_end_slashes(path@),
{
    let chars = text::chars_of(path);
    let mut end: usize = chars.len();
    assert(path@.take(end as int) =~= path@);
    while end > 0 && chars[end - 1] == '/'
        invariant
            end <= chars.len(),
            chars@ == path@,
            without_end_slashes(path@) == without_end_slashes(path@.take(end as int)),
        decreases end,
    {
        assert(path@.take(end as int).drop_last() =~= path@.take(end - 1));
        assert(path@.take(end as int).last() == path@[end - 1]);
        end = end - 1;
    }
    proof {
        if end > 0 {
            assert(path@.take(end as int).last() == path@[end - 1]);
        }
        assert(path@.subrange(0, end as int) =~= path@.take(end as int));
    }
    path.substring_char(0, end).to_owned()
}

/// A file of a directory as the file view lists it.
pub open spec fn is_listed(file: SftpFileEntry, entry: FtpEntry, directory: Seq<char>) -> bool {
    &&& file.path@ == without_end_slashes(directory) + "/"@ + entry.name@
    &&& file.name@ == entry.name@
    &&& file.file_type == if entry.kind == FtpEntryKind::Directory {
        SftpFileType::Directory
    } else {
        SftpFileType::File
    }
    &&& file.size == match entry.size {
        Some(size) => size,
        None => 0,
    }
    &&& file.size_known == entry.size is Some
    &&& file.modified == match entry.modified {
        Some(seconds) => Some(seconds as i64),
        None => None,
    }
    &&& opt_view(file.permissions) == match entry.permissions {
        Some(mode) => Some(zero_padded(octal(mode as nat), 4)),
        None => None,
    }
    &&& file.is_symlink == (entry.kind == FtpEntryKind::Symlink)
}

fn list_entry(entry: &FtpEntry, directory: &str) -> (res: SftpFileEntry)
    ensures
        is_listed(res, *entry, directory@),
{
    let start = drop_end_slashes(directory);
    let start = text::joined(start.as_str(), "/");
    SftpFileEntry {
        path: text::joined(start.as_str(), entry.name.as_str()),
        name: entry.name.clone(),
        file_type: if entry.kind == FtpEntryKind::Directory {
            SftpFileType::Directory
        } else {
            SftpFileType::File
        },
        size: match entry.size {
            Some(size) => size,
            None => 0,
        },
        size_known: entry.size.is_some(),
        modified: match entry.modified {
            Some(seconds) => Some(seconds as i64),
            None => None,
        },
        permissions: match entry.permissions {
            Some(mode) => Some(permissions(mode)),
            None => None,
        },
        is_symlink: entry.kind == FtpEntryKind::Symlink,
    }
}

/// What the store says after a file was written.
pub struct SftpPreviewSaveResult {
    pub size: u64,
    pub encoding_used: String,
    pub atomic_write: bool,
}

/// Why a file could not be written, with what the error says.
pub enum FtpSaveError {
    /// No session could be opened for it.
    NotConnected(String),
    NotWritten(String),
}

/// How an attempt to write a file ended, and whether a file that was begun on the server is to be
/// removed.
pub struct FtpSaveEnd {
    pub result: Result<SftpPreviewSaveResult, String>,
    pub clean_up: bool,
}

impl FtpRuntime {
    /// What is shown of a file. `extension` is that of its name, `read` what reading it gave, and
    /// `decoded` its text, where its bytes are likely to be one.
    pub fn preview(
        &self,
        extension: &str,
        offset: u64,
        read: Result<Vec<u8>, FtpReadError>,
        decoded: Option<DecodedText>,
    ) -> (res: Result<PreviewContent, String>)
        requires
            read is Ok ==> read->Ok_0@.len() <= usize::MAX / 4,
        ensures
            match read {
                Ok(bytes) => match res {
                    Ok(content) => match picture_type(extension@) {
                        Some(kind) => match content {
                            PreviewContent::Image { data, mime_type } => data@ == base64_of(bytes@)
                                && mime_type@ == kind,
                            _ => false,
                        },
                        None => match decoded {
                            Some(decoded) => match content {
                                PreviewContent::Text { text, mime_type } => text == decoded
                                    && mime_type@ == "text/plain"@,
                                _ => false,
                            },
                            None => content == (PreviewContent::Hex {
                                start: hex_start(bytes@.len() as int, offset) as usize,
                                end: hex_end(bytes@.len() as int, offset) as usize,
                                total_size: bytes@.len() as u64,
                                has_more: hex_end(bytes@.len() as int, offset) < bytes@.len(),
                            }),
                        },
                    },
                    Err(_) => false,
                },
                Err(FtpReadError::TooLarge) => res == Ok::<PreviewContent, String>(
                    PreviewContent::TooLarge {
                        size: (PREVIEW_LIMIT + 1) as u64,
                        max_size: PREVIEW_LIMIT,
                        recommend_download: true,
                    },
                ),
                Err(FtpReadError::Other(error)) => match res {
                    Err(message) => message@ == error@,
                    Ok(_) => false,
                },
            },
    {
        let bytes = match read {
            Ok(bytes) => bytes,
            Err(FtpReadError::TooLarge) => {
                return Ok(
                    PreviewContent::TooLarge {
                        size: PREVIEW_LIMIT + 1,
                        max_size: PREVIEW_LIMIT,
                        recommend_download: true,
                    },
                );
            },
            Err(FtpReadError::Other(error)) => {
                return Err(error);
            },
        };
        match find_picture_type(extension) {
            Some(mime_type) => {
                return Ok(PreviewContent::Image { data: encode_base64(&bytes), mime_type });
            },
            None => {},
        }
        match decoded {
            Some(text) => {
                return Ok(PreviewContent::Text { text, mime_type: "text/plain" });
            },
            None => {},
        }
        let size: usize = bytes.len();
        let start: usize = if offset > size as u64 {
            size
        } else {
            offset as usize
        };
        let end: usize = if size - start < HEX_CHUNK {
            size
        } else {
            start + HEX_CHUNK
        };
        Ok(
            PreviewContent::Hex {
                start,
                end,
                total_size: size as u64,
                has_more: end < size,
            },
        )
    }

    /// Ends an attempt to write a file. Only one that got as far as writing can have left something
    /// behind.
    pub fn save(&self, size: u64, encoding: &str, written: Result<(), FtpSaveError>) -> (res: FtpSaveEnd)
        ensures
            res.clean_up == (written is Err && written->Err_0 is NotWritten),
            match written {
                Ok(_) => match res.result {
                    Ok(saved) => saved.size == size && saved.encoding_used@ == encoding@
                        && !saved.atomic_write,
                    Err(_) => false,
                },
                Err(FtpSaveError::NotConnected(error)) => res.result
                    == Err::<SftpPreviewSaveResult, String>(error),
                Err(FtpSaveError::NotWritten(error)) => res.result
                    == Err::<SftpPreviewSaveResult, String>(error),
            },
    {
        match written {
            Ok(_) => FtpSaveEnd {
                result: Ok(
                    SftpPreviewSaveResult {
                        size,
                        encoding_used: encoding.to_owned(),
                        atomic_write: false,
                    },
                ),
                clean_up: false,
            },
            Err(FtpSaveError::NotConnected(error)) => FtpSaveEnd { result: Err(error), clean_up: false },
            Err(FtpSaveError::NotWritten(error)) => FtpSaveEnd { result: Err(error), clean_up: true },
        }
    }

    /// The directory that is listed: without a path the one that the server starts in.
    pub open spec fn listed_directory(path: Seq<char>, home: Seq<char>) -> Seq<char> {
        if path.len() == 0 {
            home
        } else {
            path
        }
    }

    /// The files of a directory, as the file view lists them.
    pub fn listing(&self, path: &str, home: &str, entries: &Vec<FtpEntry>) -> (res: RemoteSftpListing)
        ensures
            res.cwd@ == Self::listed_directory(path@, home@),
            res.files@.len() == entries@.len(),
            forall|i: int|
                0 <= i < entries@.len() ==> is_listed(
                    #[trigger] res.files@[i],
                    entries@[i],
                    Self::listed_directory(path@, home@),
                ),
    {
        let cwd = if path.is_empty() {
            home.to_owned()
        } else {
            path.to_owned()
        };
        let mut files: Vec<SftpFileEntry> = Vec::new();
        let mut at: usize = 0;
        while at < entries.len()
            invariant
                at <= entries.len(),
                files@.len() == at,
                forall|i: int|
                    0 <= i < at ==> is_listed(#[trigger] files@[i], entries@[i], cwd@),
            decreases entries.len() - at,
        {
            files.push(list_entry(&entries[at], cwd.as_str()));
            at = at + 1;
        }
        RemoteSftpListing { cwd, files }
    }
}

#[derive(Clone, Copy, PartialEq, Eq, Structural, Debug)]
pub enum RemoteTransferProtocol {
    Sftp,
    Scp,
    Ftp,
    Ftps,
}

/// Where files are.
pub enum SftpRemoteId {
    Node(String),
    Standalone(String),
    Ftp(String),
}

pub open spec fn ftp_protocol(security: Option<FtpSecurity>) -> RemoteTransferProtocol {
    if security == Some(FtpSecurity::ExplicitTls) {
        RemoteTransferProtocol::Ftps
    } else {
        RemoteTransferProtocol::Ftp
    }
}

impl WorkspaceApp {
    /// The protocol that files of a place are transferred with: that of the FTP session, otherwise
    /// the configured one.
    pub fn transfer_protocol_for_remote(&self, remote: &SftpRemoteId, configured: RemoteTransferProtocol) -> (res: RemoteTransferProtocol)
        requires
            self.ftp_sessions.wf(),
        ensures
            res == match *remote {
                SftpRemoteId::Ftp(id) => ftp_protocol(
                    if self.ftp_sessions@.dom().contains(id@) {
                        Some(self.ftp_sessions@[id@].security)
                    } else {
                        None
                    },
                ),
                _ => configured,
            },
    {
        match remote {
            SftpRemoteId::Ftp(id) => {
                let tls = match self.ftp_sessions.get(id) {
                    Some(runtime) => runtime.security == FtpSecurity::ExplicitTls,
                    None => false,
                };
                if tls {
                    RemoteTransferProtocol::Ftps
                } else {
                    RemoteTransferProtocol::Ftp
                }
            },
            _ => configured,
        }
    }
}

} // verus!
