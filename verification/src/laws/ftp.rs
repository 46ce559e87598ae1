//! Files on an FTP server.

use vstd::prelude::*;

use crate::encoding::base64_of;
use crate::workspace::app::WorkspaceApp;
use crate::workspace::ftp_files::{
    DecodedText, FtpEntry, FtpEntryKind, FtpReadError, FtpRuntime, FtpSaveEnd, FtpSaveError,
    PreviewContent, RemoteSftpListing, RemoteTransferProtocol, SftpFileType, SftpRemoteId,
};
use crate::workspace::ftp_form::FtpSecurity;
use crate::workspace::ftp_transfers::{
    end_transfer, is_due, pause, BackgroundTransfer, BackgroundTransferKind,
    BackgroundTransferState, FtpTransferCommand, FtpTransferError, FtpTransferFailure,
    LocalDownloadDisposition, SftpTransferDirection, TransferEnd, TransferProgress,
};

verus! {

/// Whether a text is a name in small letters, whatever the case of its own letters.
pub open spec fn reads_as(written: Seq<char>, name: Seq<char>) -> bool {
    &&& written.len() == name.len()
    &&& forall|i: int|
        0 <= i < name.len() ==> {
            ||| #[trigger] written[i] == name[i]
            ||| 65 <= written[i] as int <= 90 && written[i] as int + 32 == name[i] as int
        }
}

pub open spec fn is_small(name: Seq<char>) -> bool {
    forall|i: int| 0 <= i < name.len() ==> 97 <= (#[trigger] name[i]) as int <= 122
}

proof fn lemma_reads_as(written: Seq<char>, name: Seq<char>)
    requires
        is_small(name),
    ensures
        reads_as(written, name) <==> crate::workspace::ftp_files::lower_case(written) == name,
{
    let low = crate::workspace::ftp_files::lower_case(written);
    if reads_as(written, name) {
        assert forall|i: int| 0 <= i < name.len() implies low[i] == name[i] by {
            assert(97 <= name[i] as int <= 122);
            let c = written[i];
            if c != name[i] {
                assert('A' <= c && c <= 'Z');
                assert(((c as u32) + 32) as char == name[i]);
            }
        }
        assert(low =~= name);
    }
    if low == name {
        assert forall|i: int| 0 <= i < name.len() implies ({
            ||| #[trigger] written[i] == name[i]
            ||| 65 <= written[i] as int <= 90 && written[i] as int + 32 == name[i] as int
        }) by {
            assert(low[i] == crate::workspace::ftp_files::lower(written[i]));
        }
    }
}

proof fn lemma_picture_names()
    ensures
        is_small("png"@),
        is_small("jpg"@),
        is_small("jpeg"@),
        is_small("gif"@),
        is_small("webp"@),
        is_small("bmp"@),
        "png"@ != "jpg"@,
        "png"@ != "gif"@,
        "png"@ != "bmp"@,
        "jpg"@ != "gif"@,
        "jpg"@ != "bmp"@,
        "gif"@ != "bmp"@,
        "jpeg"@ != "webp"@,
        "png"@.len() == 3,
        "jpg"@.len() == 3,
        "gif"@.len() == 3,
        "bmp"@.len() == 3,
        "jpeg"@.len() == 4,
        "webp"@.len() == 4,
        "image/png"@ == "image/"@ + "png"@,
        "image/jpeg"@ == "image/"@ + "jpeg"@,
        "image/gif"@ == "image/"@ + "gif"@,
        "image/webp"@ == "image/"@ + "webp"@,
        "image/bmp"@ == "image/"@ + "bmp"@,
{
    reveal_strlit("png");
    reveal_strlit("jpg");
    reveal_strlit("jpeg");
    reveal_strlit("gif");
    reveal_strlit("webp");
    reveal_strlit("bmp");
    reveal_strlit("image/");
    reveal_strlit("image/png");
    reveal_strlit("image/jpeg");
    reveal_strlit("image/gif");
    reveal_strlit("image/webp");
    reveal_strlit("image/bmp");
    assert("png"@[0] == 'p' && "jpg"@[0] == 'j' && "gif"@[0] == 'g' && "bmp"@[0] == 'b');
    assert("jpeg"@[0] == 'j' && "webp"@[0] == 'w');
    assert("image/png"@ =~= "image/"@ + "png"@);
    assert("image/jpeg"@ =~= "image/"@ + "jpeg"@);
    assert("image/gif"@ =~= "image/"@ + "gif"@);
    assert("image/webp"@ =~= "image/"@ + "webp"@);
    assert("image/bmp"@ =~= "image/"@ + "bmp"@);
}

/// A file with the ending of a picture, in any case, is shown as one, whole and of that kind; `jpg`
/// is `jpeg` for short.
pub proof fn law_pictures_are_shown_as_pictures(
    runtime: &FtpRuntime,
    extension: &str,
    offset: u64,
    bytes: Vec<u8>,
    decoded: Option<DecodedText>,
    res: Result<PreviewContent, String>,
    name: Seq<char>,
)
    requires
        call_ensures(
            FtpRuntime::preview,
            (runtime, extension, offset, Ok::<Vec<u8>, FtpReadError>(bytes), decoded),
            res,
        ),
        name == "png"@ || name == "jpg"@ || name == "jpeg"@ || name == "gif"@ || name == "webp"@
            || name == "bmp"@,
        reads_as(extension@, name),
    ensures
        res is Ok,
        res->Ok_0 is Image,
        res->Ok_0->Image_data@ == base64_of(bytes@),
        res->Ok_0->Image_mime_type@ == if name == "jpg"@ {
            "image/jpeg"@
        } else {
            "image/"@ + name
        },
{
    lemma_picture_names();
    lemma_reads_as(extension@, name);
}

/// Any other file that was read is shown as text where it is one, and else byte by byte: from the
/// place that was asked for, as far as it has bytes, and no more than fit on a page.
pub proof fn law_other_files_are_shown_as_text_or_bytes(
    runtime: &FtpRuntime,
    extension: &str,
    offset: u64,
    bytes: Vec<u8>,
    decoded: Option<DecodedText>,
    res: Result<PreviewContent, String>,
)
    requires
        call_ensures(
            FtpRuntime::preview,
            (runtime, extension, offset, Ok::<Vec<u8>, FtpReadError>(bytes), decoded),
            res,
        ),
        bytes@.len() <= usize::MAX,
        !reads_as(extension@, "png"@),
        !reads_as(extension@, "jpg"@),
        !reads_as(extension@, "jpeg"@),
        !reads_as(extension@, "gif"@),
        !reads_as(extension@, "webp"@),
        !reads_as(extension@, "bmp"@),
    ensures
        res is Ok,
        decoded is Some ==> res->Ok_0 is Text && res->Ok_0->Text_text == decoded->0,
        decoded is None ==> {
            let size = bytes@.len() as int;
            let shown = res->Ok_0;
            &&& shown is Hex
            &&& offset <= size ==> shown->Hex_start == offset
            &&& offset > size ==> shown->Hex_start == size
            &&& shown->Hex_start <= shown->Hex_end <= size
            &&& shown->Hex_end - shown->Hex_start == 65536 || shown->Hex_end == size
            &&& shown->Hex_end - shown->Hex_start <= 65536
            &&& shown->Hex_total_size == size
            &&& shown->Hex_has_more <==> shown->Hex_end < size
        },
{
    lemma_picture_names();
    lemma_reads_as(extension@, "png"@);
    lemma_reads_as(extension@, "jpg"@);
    lemma_reads_as(extension@, "jpeg"@);
    lemma_reads_as(extension@, "gif"@);
    lemma_reads_as(extension@, "webp"@);
    lemma_reads_as(extension@, "bmp"@);
}

/// A file of more than ten mebibytes is not shown but recommended for download, and any other error
/// is said in its own words.
pub proof fn law_large_files_are_not_shown(
    runtime: &FtpRuntime,
    extension: &str,
    offset: u64,
    error: FtpReadError,
    decoded: Option<DecodedText>,
    res: Result<PreviewContent, String>,
)
    requires
        call_ensures(
            FtpRuntime::preview,
            (runtime, extension, offset, Err::<Vec<u8>, FtpReadError>(error), decoded),
            res,
        ),
    ensures
        error is TooLarge ==> res is Ok && res->Ok_0 is TooLarge && res->Ok_0->TooLarge_max_size
            == 10 * 1024 * 1024 && res->Ok_0->TooLarge_size == 10 * 1024 * 1024 + 1
            && res->Ok_0->TooLarge_recommend_download,
        error is Other ==> res is Err && res->Err_0@ == error->Other_0@,
{
}

/// A save says what was saved; where nothing was written its error comes back, and what a write has
/// left behind is taken back.
pub proof fn law_saves_say_what_was_saved(
    runtime: &FtpRuntime,
    size: u64,
    encoding: &str,
    written: Result<(), FtpSaveError>,
    res: FtpSaveEnd,
)
    requires
        call_ensures(FtpRuntime::save, (runtime, size, encoding, written), res),
    ensures
        res.result is Ok <==> written is Ok,
        res.result is Ok ==> res.result->Ok_0.size == size && res.result->Ok_0.encoding_used@
            == encoding@ && !res.result->Ok_0.atomic_write,
        res.clean_up <==> written is Err && written->Err_0 is NotWritten,
        written is Err && written->Err_0 is NotWritten ==> res.result->Err_0
            == written->Err_0->NotWritten_0,
        written is Err && written->Err_0 is NotConnected ==> res.result->Err_0
            == written->Err_0->NotConnected_0,
{
}

/// A listing has every entry once, in its order, under the directory that was asked for.
pub proof fn law_listings_are_complete(
    runtime: &FtpRuntime,
    path: &str,
    home: &str,
    entries: &Vec<FtpEntry>,
    res: RemoteSftpListing,
    at: int,
)
    requires
        call_ensures(FtpRuntime::listing, (runtime, path, home, entries), res),
        0 <= at < entries@.len(),
    ensures
        res.files@.len() == entries@.len(),
        res.cwd@ == if path@.len() == 0 {
            home@
        } else {
            path@
        },
        ({
            let file = res.files@[at];
            let entry = entries@[at];
            &&& file.name@ == entry.name@
            &&& file.file_type == SftpFileType::Directory <==> entry.kind == FtpEntryKind::Directory
            &&& file.is_symlink <==> entry.kind == FtpEntryKind::Symlink
            &&& file.size_known <==> entry.size is Some
            &&& entry.size is Some ==> file.size == entry.size->0
            &&& entry.size is None ==> file.size == 0
            &&& file.modified is Some <==> entry.modified is Some
            &&& file.permissions is Some <==> entry.permissions is Some
            &&& res.cwd@.len() > 0 && res.cwd@.last() != '/' ==> file.path@ == res.cwd@ + "/"@
                + entry.name@
            &&& res.cwd@ == "/"@ ==> file.path@ == "/"@ + entry.name@
        }),
{
    let cwd = res.cwd@;
    assert(crate::workspace::ftp_files::is_listed(res.files@[at], entries@[at], cwd));
    assert(crate::text::opt_view(res.files@[at].permissions) is Some
        <==> res.files@[at].permissions is Some);
    if cwd == "/"@ {
        reveal_strlit("/");
        assert(cwd.last() == '/');
        assert(cwd.drop_last() =~= Seq::empty());
        assert(crate::workspace::ftp_files::without_end_slashes(cwd.drop_last())
            == Seq::<char>::empty());
        assert(Seq::<char>::empty() + "/"@ + entries@[at].name@ =~= "/"@ + entries@[at].name@);
    }
}

/// An encrypted session transfers over the encrypted protocol, and what is no such session as it is
/// configured.
pub proof fn law_encryption_follows_the_session(
    app: &WorkspaceApp,
    remote: &SftpRemoteId,
    configured: RemoteTransferProtocol,
    res: RemoteTransferProtocol,
)
    requires
        call_ensures(WorkspaceApp::transfer_protocol_for_remote, (app, remote, configured), res),
    ensures
        !(remote is Ftp) ==> res == configured,
        remote is Ftp ==> (res == RemoteTransferProtocol::Ftps <==> app.ftp_sessions@.dom().contains(
            remote->Ftp_0@,
        ) && app.ftp_sessions@[remote->Ftp_0@].security == FtpSecurity::ExplicitTls),
        remote is Ftp ==> res == RemoteTransferProtocol::Ftps || res == RemoteTransferProtocol::Ftp,
{
}

/// A transfer moves what it says in the direction it says. A download that is to make a new file
/// never replaces one.
pub proof fn law_transfers_do_what_was_asked(
    runtime: &FtpRuntime,
    direction: SftpTransferDirection,
    directory: bool,
    disposition: LocalDownloadDisposition,
    present: bool,
    res: Result<FtpTransferCommand, FtpTransferError>,
    asks: bool,
)
    requires
        call_ensures(FtpRuntime::plan_transfer, (runtime, direction, directory, disposition, present), res),
        call_ensures(FtpRuntime::asks_for_local_file, (runtime, direction, directory, disposition), asks),
    ensures
        res is Ok && res->Ok_0 is DownloadFile ==> (res->Ok_0->DownloadFile_replace <==> disposition
            != LocalDownloadDisposition::CreateNew),
        res is Ok && res->Ok_0 is DownloadFile && present ==> res->Ok_0->DownloadFile_replace,
        res is Ok ==> (res->Ok_0 is UploadFile || res->Ok_0 is UploadDirectory <==> direction
            == SftpTransferDirection::Upload),
        res is Ok ==> (res->Ok_0 is UploadDirectory || res->Ok_0 is DownloadDirectory
            <==> directory),
        disposition == LocalDownloadDisposition::Overwrite ==> res is Ok,
        disposition == LocalDownloadDisposition::ResumeVerified ==> res is Err,
        disposition == LocalDownloadDisposition::CreateNew && !present ==> res is Ok,
        !asks && disposition == LocalDownloadDisposition::CreateNew ==> res is Ok,
        asks && present ==> res == Err::<FtpTransferCommand, FtpTransferError>(
            FtpTransferError::AlreadyExists,
        ),
{
}

/// The list of transfers says what moves, which way and over which protocol.
pub proof fn law_transfers_are_described(
    runtime: &FtpRuntime,
    registered: bool,
    direction: SftpTransferDirection,
    directory: bool,
    remote: &str,
    file_name: Option<&str>,
    res: Result<BackgroundTransfer, String>,
)
    requires
        call_ensures(
            FtpRuntime::begin_transfer,
            (runtime, registered, direction, directory, remote, file_name),
            res,
        ),
    ensures
        res is Ok <==> registered,
        res is Ok ==> {
            let transfer = res->Ok_0;
            &&& transfer.direction == direction
            &&& transfer.kind == BackgroundTransferKind::Directory <==> directory
            &&& transfer.protocol == RemoteTransferProtocol::Ftps <==> runtime.security
                == FtpSecurity::ExplicitTls
            &&& file_name is Some ==> transfer.name@ == file_name->0@
            &&& file_name is None ==> transfer.name@ == remote@
        },
{
}

/// Without a limit no transfer waits; with one it waits just until the bytes that were moved are due.
pub proof fn law_transfers_wait_until_they_are_due(
    completed: u64,
    limit: u64,
    elapsed: u64,
    res: Option<u64>,
)
    requires
        call_ensures(pause, (completed, limit, elapsed), res),
    ensures
        limit == 0 ==> res is None,
        limit > 0 && res is Some && elapsed + res->0 < u64::MAX ==> (elapsed + res->0) * limit
            <= completed * 1000000000 < (elapsed + res->0 + 1) * limit,
        limit > 0 && res is None ==> completed * 1000000000 < elapsed * limit,
{
    if limit > 0 {
        let time = completed as int * 1000000000 / limit as int;
        let rate = limit as int;
        let moved = completed as int * 1000000000;
        assert(time * rate <= moved < (time + 1) * rate) by (nonlinear_arith)
            requires
                time == moved / rate,
                rate > 0,
        ;
        if res is None {
            assert(time < elapsed);
            assert((time + 1) * rate <= elapsed * rate) by (nonlinear_arith)
                requires
                    time + 1 <= elapsed,
                    rate > 0,
            ;
        }
    }
}

/// Progress is shown twenty times a second at most, and always at the end.
pub proof fn law_progress_is_shown_now_and_then(progress: TransferProgress, since: u64, res: bool)
    requires
        call_ensures(is_due, (progress, since), res),
    ensures
        progress.total is Some && progress.total->0 == progress.completed ==> res,
        !(progress.total is Some && progress.total->0 == progress.completed) ==> (res <==> since >= 50),
{
}

/// A transfer that ended says how: completed with its size, cancelled without an error, or failed with
/// one. What it left behind is taken back where it had a connection.
pub proof fn law_transfers_say_how_they_ended(
    result: Result<u64, FtpTransferFailure>,
    connected: bool,
    res: TransferEnd,
)
    requires
        call_ensures(end_transfer, (result, connected), res),
    ensures
        res.state == BackgroundTransferState::Completed <==> result is Ok,
        res.state == BackgroundTransferState::Cancelled <==> result is Err
            && result->Err_0.cancelled,
        res.error is Some <==> result is Err && !result->Err_0.cancelled,
        res.error is Some ==> res.error->0@ == result->Err_0.words@,
        result is Ok ==> res.bytes == Some(result->Ok_0),
        res.result is Ok <==> result is Ok,
        res.clean_up <==> result is Err && connected,
{
    assert(crate::text::opt_view(res.error) is Some <==> res.error is Some);
}

} // verus!
