//! Synchronized data in a local file: export, import, and the preview of either.

use vstd::prelude::*;

use crate::text;

verus! {

/// A moment in a notation of the crate `chrono`.
pub uninterp spec fn moment_text(seconds: i64, notation: Seq<char>) -> Option<Seq<char>>;

/// Writes a moment, in seconds since 1970, as year, month, day, a hyphen, hour, minute and second in
/// UTC.
///
/// This is `DateTime::from_timestamp` and `DateTime::format` of the crate `chrono`. The contract
/// claims no more than that the text depends on the moment and the notation alone; it is `None` for
/// a moment outside the calendar of `chrono`. `format` fails on a notation it does not know, so only
/// the one that is used here is admitted.
#[verifier::external_body]
fn write_moment(seconds: i64, notation: &str) -> (res: Option<String>)
    requires
        notation@ == "%Y%m%d-%H%M%S"@,
    ensures
        text::opt_view(res) == moment_text(seconds, notation@),
{
    chrono::DateTime::from_timestamp(seconds, 0).map(|moment| moment.format(notation).to_string())
}

/// The name of a file that was exported at a moment, as it is written.
pub open spec fn export_name_at(moment: Seq<char>) -> Seq<char> {
    "oxideterm-"@ + moment + ".oxide"@
}

/// Names a file by the moment of its export, as it is written.
pub fn export_name(moment: &str) -> (res: String)
    ensures
        res@ == export_name_at(moment@),
{
    text::joined(text::joined("oxideterm-", moment).as_str(), ".oxide")
}

/// The name that is suggested for a file that is exported now.
pub fn suggested_export_name(seconds: i64) -> (res: Option<String>)
    ensures
        text::opt_view(res) == match moment_text(seconds, "%Y%m%d-%H%M%S"@) {
            Some(moment) => Some(export_name_at(moment)),
            None => None,
        },
{
    match write_moment(seconds, "%Y%m%d-%H%M%S") {
        Some(moment) => Some(export_name(moment.as_str())),
        None => None,
    }
}

#[derive(Clone, Copy, PartialEq, Eq, Structural, Debug)]
pub enum FilePicker {
    /// One existing file.
    Open,
    /// A new file.
    Save,
    Unneeded,
}

/// What is done with a local file.
#[derive(Clone, Copy, PartialEq, Eq, Structural, Debug)]
pub struct LocalFileTask {
    pub exporting: bool,
    pub preview_only: bool,
    /// Whether only what the user selected for the upload is exported.
    pub selection_only: bool,
}

impl LocalFileTask {
    /// Which file the user is asked for. The preview of an export needs none.
    pub open spec fn asks_for(self) -> FilePicker {
        if !self.exporting {
            FilePicker::Open
        } else if !self.preview_only {
            FilePicker::Save
        } else {
            FilePicker::Unneeded
        }
    }

    pub fn picker(&self) -> (res: FilePicker)
        ensures
            res == self.asks_for(),
    {
        if !self.exporting {
            FilePicker::Open
        } else if !self.preview_only {
            FilePicker::Save
        } else {
            FilePicker::Unneeded
        }
    }
}

/// Why nothing was started.
pub enum LocalFileRefusal {
    /// Something else is under way.
    Busy,
    /// The settings could not be kept.
    NotKept,
    /// The secrets that go into the file could not be collected.
    Failed { action: String, error: String },
}

/// What the user did with the file picker.
pub enum PickedFile {
    Nothing,
    File(String),
    Error(String),
}

/// What the host has to do with the file.
pub enum LocalFileWork {
    /// Nothing: the user chose no file.
    Cancelled,
    Failed(String),
    /// Put the data together, write it to the file if there is one, and show a preview if there is
    /// none.
    Export { write_to: Option<String>, password: String },
    /// Read the file and show a preview.
    Import { read_from: String, password: String },
}

/// What comes of the work.
pub enum LocalFileEnd<P> {
    Nothing,
    UploadPreview(P),
    PullPreview(P),
    /// The file was written.
    Exported,
    Failed { action: String, error: String },
}

pub struct CloudSyncFile {
    pub operation_in_flight: bool,
    pub local_file_running: bool,
    pub has_upload_selection: bool,
    pub has_upload_preview: bool,
    pub last_error: Option<String>,
}

/// What a failure is reported under.
pub open spec fn action_name(exporting: bool) -> Seq<char> {
    if exporting {
        "export"@
    } else {
        "import"@
    }
}

fn action(exporting: bool) -> (res: String)
    ensures
        res@ == action_name(exporting),
{
    if exporting {
        "export".to_owned()
    } else {
        "import".to_owned()
    }
}

impl CloudSyncFile {
    /// Whether a local file can be worked on.
    pub open spec fn is_free(self) -> bool {
        !self.operation_in_flight && !self.local_file_running
    }

    pub fn can_start(&self) -> (res: bool)
        ensures
            res == self.is_free(),
    {
        !self.operation_in_flight && !self.local_file_running
    }

    /// Starts to export to or import from a local file, or to preview that. `kept` says whether the
    /// settings were kept, `secrets` what came of collecting the secrets for an export.
    pub fn start_cloud_sync_local_file<S>(
        &mut self,
        exporting: bool,
        preview_only: bool,
        kept: bool,
        secrets: Result<Vec<S>, String>,
    ) -> (res: Result<(LocalFileTask, Vec<S>), LocalFileRefusal>)
        ensures
            res is Ok <==> old(self).is_free() && kept && (exporting ==> secrets is Ok),
            match res {
                Ok((task, collected)) => {
                    &&& task == (LocalFileTask {
                        exporting,
                        preview_only,
                        selection_only: old(self).has_upload_selection && !preview_only,
                    })
                    &&& collected@ == if exporting {
                        secrets->Ok_0@
                    } else {
                        Seq::empty()
                    }
                    &&& *final(self) == (CloudSyncFile { local_file_running: true, ..*old(self) })
                },
                Err(refusal) => {
                    &&& *final(self) == *old(self)
                    &&& match refusal {
                        LocalFileRefusal::Busy => !old(self).is_free(),
                        LocalFileRefusal::NotKept => old(self).is_free() && !kept,
                        LocalFileRefusal::Failed { action, error } => {
                            &&& old(self).is_free() && kept && exporting
                            &&& action@ == "export"@
                            &&& secrets == Result::<Vec<S>, String>::Err(error)
                        },
                    }
                },
            },
    {
        if !self.can_start() {
            return Err(LocalFileRefusal::Busy);
        }
        if !kept {
            return Err(LocalFileRefusal::NotKept);
        }
        let collected: Vec<S> = if exporting {
            match secrets {
                Ok(secrets) => secrets,
                Err(error) => {
                    return Err(LocalFileRefusal::Failed { action: action(true), error });
                },
            }
        } else {
            Vec::new()
        };
        self.local_file_running = true;
        Ok(
            (
                LocalFileTask {
                    exporting,
                    preview_only,
                    selection_only: self.has_upload_selection && !preview_only,
                },
                collected,
            ),
        )
    }

    /// The work is over.
    pub fn finish_local_file<P>(&mut self, task: LocalFileTask, cancelled: bool, result: Result<Option<P>, String>) -> (res: LocalFileEnd<
        P,
    >)
        ensures
            match result {
                Ok(Some(preview)) => {
                    &&& *final(self) == (CloudSyncFile { local_file_running: false, ..*old(self) })
                    &&& res == if task.exporting {
                        LocalFileEnd::UploadPreview(preview)
                    } else {
                        LocalFileEnd::PullPreview(preview)
                    }
                },
                Ok(None) => if task.exporting && !cancelled {
                    &&& res is Exported
                    &&& *final(self) == (CloudSyncFile {
                        local_file_running: false,
                        has_upload_preview: false,
                        has_upload_selection: false,
                        last_error: None,
                        ..*old(self)
                    })
                } else {
                    &&& res is Nothing
                    &&& *final(self) == (CloudSyncFile { local_file_running: false, ..*old(self) })
                },
                Err(error) => {
                    &&& *final(self) == (CloudSyncFile { local_file_running: false, ..*old(self) })
                    &&& res is Failed
                    &&& res->action@ == action_name(task.exporting)
                    &&& res->error == error
                },
            },
    {
        self.local_file_running = false;
        match result {
            Ok(Some(preview)) => {
                if task.exporting {
                    LocalFileEnd::UploadPreview(preview)
                } else {
                    LocalFileEnd::PullPreview(preview)
                }
            },
            Ok(None) => {
                if task.exporting && !cancelled {
                    self.has_upload_preview = false;
                    self.has_upload_selection = false;
                    self.last_error = None;
                    LocalFileEnd::Exported
                } else {
                    LocalFileEnd::Nothing
                }
            },
            Err(error) => LocalFileEnd::Failed { action: action(task.exporting), error },
        }
    }
}

/// Whether a password can lock or unlock a file.
pub open spec fn usable(password: Result<Option<String>, String>) -> bool {
    password is Ok && password->Ok_0 is Some && password->Ok_0->0@.len() > 0
}

impl LocalFileTask {
    /// Whether the user left the file picker without a file.
    pub open spec fn given_up(self, picked: PickedFile) -> bool {
        picked is Nothing && !self.preview_only
    }

    /// What is to be done once the user chose a file and the password was looked up. An import
    /// without a file fails, even as a preview.
    pub fn plan_work(&self, picked: PickedFile, password: Result<Option<String>, String>) -> (res: LocalFileWork)
        ensures
            if self.given_up(picked) {
                res is Cancelled
            } else if picked is Error {
                res is Failed && res->Failed_0 == picked->Error_0
            } else if password is Err {
                res is Failed && res->Failed_0 == password->Err_0
            } else if !usable(password) {
                res is Failed && res->Failed_0@
                    == "missing_sync_password: cloud sync password is required"@
            } else if self.exporting {
                &&& res is Export
                &&& res->Export_password == password->Ok_0->0
                &&& res->write_to == if self.preview_only {
                    None
                } else {
                    Some(picked->File_0)
                }
            } else if picked is Nothing {
                res is Failed && res->Failed_0@ == "missing local file"@
            } else {
                &&& res is Import
                &&& res->Import_password == password->Ok_0->0
                &&& res->read_from == picked->File_0
            },
    {
        let file = match picked {
            PickedFile::Nothing => {
                if !self.preview_only {
                    return LocalFileWork::Cancelled;
                }
                None
            },
            PickedFile::Error(error) => {
                return LocalFileWork::Failed(error);
            },
            PickedFile::File(file) => Some(file),
        };
        let password = match password {
            Err(error) => {
                return LocalFileWork::Failed(error);
            },
            Ok(Some(password)) if !password.as_str().is_empty() => password,
            Ok(_) => {
                return LocalFileWork::Failed(
                    "missing_sync_password: cloud sync password is required".to_owned(),
                );
            },
        };
        if self.exporting {
            let write_to = if self.preview_only {
                None
            } else {
                file
            };
            return LocalFileWork::Export { write_to, password };
        }
        match file {
            Some(read_from) => LocalFileWork::Import { read_from, password },
            None => LocalFileWork::Failed("missing local file".to_owned()),
        }
    }
}

} // verus!
