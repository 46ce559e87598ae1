//! The preview of a remote file, and the editor for it.

use vstd::prelude::*;

use crate::text;
use crate::workspace::app::WorkspaceApp;
use crate::workspace::labels::{Piece, PieceView};

verus! {

pub open spec fn line_view(pieces: Seq<Piece>) -> Seq<PieceView> {
    pieces.map_values(|piece: Piece| piece@)
}

/// What the editor found of what the user looks for.
#[derive(Clone, Copy, PartialEq, Eq, Structural, Debug)]
pub struct FindMatches {
    pub total: usize,
    /// Which of them is selected, counted from one.
    pub current: Option<usize>,
}

/// An open editor.
pub struct PreviewEditor {
    /// Line and column of the caret, counted from zero, where it is in the text.
    pub caret: Option<(usize, usize)>,
    pub matches: FindMatches,
}

/// The preview of a remote file.
pub struct SftpPreview {
    pub loading: bool,
    pub error: Option<String>,
    pub has_content: bool,
    /// Whether the content scrolls by itself.
    pub virtual_text: bool,
    pub editor: Option<PreviewEditor>,
    pub language: Option<String>,
    pub encoding: String,
    pub saving: bool,
    pub dirty: bool,
    /// How the last write was made, if there was one.
    pub last_atomic_write: Option<bool>,
    pub save_error: Option<String>,
    pub network_error: bool,
    pub retry_count: u32,
    pub find_open: bool,
    pub find_query: String,
    pub find_case: bool,
    pub find_focused: bool,
    pub mono_font: String,
}

/// A text in the font for code.
pub struct PreviewText {
    pub font: String,
    pub text: Piece,
}

pub enum PreviewBody {
    Text(PreviewText),
    Content,
}

pub struct PreviewPane {
    pub body: PreviewBody,
    /// Whether the pane scrolls its content, with a margin.
    pub scrolls: bool,
}

#[derive(Clone, Copy, PartialEq, Eq, Structural, Debug)]
pub enum StatusTone {
    Muted,
    Yellow,
    Green,
    Orange,
    Red,
}

pub enum EditorStatus {
    Nothing,
    Text { text: Piece, tone: StatusTone },
    /// The network failed: the message, and a button to try again.
    Retry { message: String, label: Vec<Piece> },
}

pub struct FindBar {
    pub query: String,
    pub case_sensitive: bool,
    pub focused: bool,
    pub match_label: String,
    pub can_step: bool,
}

pub struct EditorPane {
    pub shows_editor: bool,
    pub position: Vec<Piece>,
    pub language: String,
    pub encoding: Vec<Piece>,
    pub status: EditorStatus,
    pub find_bar: Option<FindBar>,
}

/// More matches than this are not counted out.
pub const COUNTED_MATCHES: usize = 999;

impl SftpPreview {
    /// No file is shown.
    pub open spec fn is_new(self, mono_font: String) -> bool {
        &&& self.mono_font == mono_font
        &&& !self.loading
        &&& self.error is None
        &&& !self.has_content
        &&& !self.virtual_text
        &&& self.editor is None
        &&& self.language is None
        &&& self.encoding@.len() == 0
        &&& !self.saving
        &&& !self.dirty
        &&& self.last_atomic_write is None
        &&& self.save_error is None
        &&& !self.network_error
        &&& self.retry_count == 0
        &&& !self.find_open
        &&& self.find_query@.len() == 0
        &&& !self.find_case
        &&& !self.find_focused
    }

    /// A preview of no file.
    pub fn new(mono_font: String) -> (res: SftpPreview)
        ensures
            res.wf(),
            res.is_new(mono_font),
    {
        SftpPreview {
            loading: false,
            error: None,
            has_content: false,
            virtual_text: false,
            editor: None,
            language: None,
            encoding: String::new(),
            saving: false,
            dirty: false,
            last_atomic_write: None,
            save_error: None,
            network_error: false,
            retry_count: 0,
            find_open: false,
            find_query: String::new(),
            find_case: false,
            find_focused: false,
            mono_font,
        }
    }

    /// Where the caret is, counted from one.
    pub open spec fn position(self) -> (int, int) {
        match self.editor {
            Some(editor) => match editor.caret {
                Some((line, column)) => (line + 1, column + 1),
                None => (1, 1),
            },
            None => (1, 1),
        }
    }

    /// The caret's place can be counted from one.
    pub open spec fn wf(self) -> bool {
        self.editor matches Some(editor) ==> editor.caret matches Some((line, column)) ==> line
            < usize::MAX && column < usize::MAX
    }

    /// The status of the text itself.
    pub open spec fn text_status(self) -> Option<(Seq<char>, StatusTone)> {
        if self.saving {
            Some(("sftp.preview.saving"@, StatusTone::Muted))
        } else if self.dirty {
            Some(("sftp.preview.modified"@, StatusTone::Yellow))
        } else {
            match self.last_atomic_write {
                Some(true) => Some(("sftp.preview.saved_atomic"@, StatusTone::Green)),
                Some(false) => Some(("sftp.preview.saved_direct"@, StatusTone::Green)),
                None => None,
            }
        }
    }

    fn own_status(&self) -> (res: EditorStatus)
        ensures
            match self.text_status() {
                Some((key, tone)) => res is Text && res->text@ == PieceView::Translated(key)
                    && res->tone == tone,
                None => res is Nothing,
            },
    {
        if self.saving {
            return EditorStatus::Text {
                text: Piece::Translated("sftp.preview.saving".to_owned()),
                tone: StatusTone::Muted,
            };
        }
        if self.dirty {
            return EditorStatus::Text {
                text: Piece::Translated("sftp.preview.modified".to_owned()),
                tone: StatusTone::Yellow,
            };
        }
        match self.last_atomic_write {
            Some(atomic) => {
                let key = if atomic {
                    "sftp.preview.saved_atomic"
                } else {
                    "sftp.preview.saved_direct"
                };
                EditorStatus::Text { text: Piece::Translated(key.to_owned()), tone: StatusTone::Green }
            },
            None => EditorStatus::Nothing,
        }
    }

    /// What the button to try again says: how often it was tried, if it was.
    pub open spec fn retry_label(self) -> Seq<PieceView> {
        if self.retry_count > 0 {
            seq![
                PieceView::Translated("sftp.preview.retry"@),
                PieceView::Plain(" ("@ + text::decimal(self.retry_count as nat) + ")"@),
            ]
        } else {
            seq![PieceView::Translated("sftp.preview.retry"@)]
        }
    }

    /// A failed save takes the place of any other status.
    pub fn render_sftp_editor_status(&self) -> (res: EditorStatus)
        ensures
            match self.save_error {
                Some(error) => if self.network_error {
                    res is Retry && res->message == error && line_view(res->label@) == self.retry_label()
                } else {
                    res is Text && res->text@ == PieceView::Plain(error@) && res->tone == StatusTone::Red
                },
                None => match self.text_status() {
                    Some((key, tone)) => res is Text && res->text@ == PieceView::Translated(key)
                        && res->tone == tone,
                    None => res is Nothing,
                },
            },
    {
        match &self.save_error {
            Some(error) => {
                if !self.network_error {
                    return EditorStatus::Text { text: Piece::Plain(error.clone()), tone: StatusTone::Red };
                }
                let mut label: Vec<Piece> = Vec::new();
                label.push(Piece::Translated("sftp.preview.retry".to_owned()));
                if self.retry_count > 0 {
                    let count = text::joined(" (", text::number(self.retry_count as u64).as_str());
                    label.push(Piece::Plain(text::joined(count.as_str(), ")")));
                }
                assert(line_view(label@) =~= self.retry_label());
                EditorStatus::Retry { message: error.clone(), label }
            },
            None => self.own_status(),
        }
    }

    /// What the find bar says about the matches.
    pub open spec fn match_label(self) -> Seq<char> {
        match self.editor {
            Some(editor) => if self.find_query@.len() == 0 {
                ""@
            } else if editor.matches.total > COUNTED_MATCHES {
                "999+"@
            } else {
                text::decimal(
                    match editor.matches.current {
                        Some(current) => current as nat,
                        None => 0,
                    },
                ) + "/"@ + text::decimal(editor.matches.total as nat)
            },
            None => ""@,
        }
    }

    pub fn render_sftp_preview_find_bar(&self) -> (res: FindBar)
        ensures
            res.query == self.find_query,
            res.case_sensitive == self.find_case,
            res.focused == self.find_focused,
            res.match_label@ == self.match_label(),
            res.can_step == (self.editor matches Some(editor) && editor.matches.total > 0),
    {
        let (match_label, can_step) = match &self.editor {
            Some(editor) => {
                let total: usize = editor.matches.total;
                let label = if self.find_query.as_str().is_empty() {
                    "".to_owned()
                } else if total > COUNTED_MATCHES {
                    "999+".to_owned()
                } else {
                    let current: usize = match editor.matches.current {
                        Some(current) => current,
                        None => 0,
                    };
                    let start = text::joined(text::number(current as u64).as_str(), "/");
                    text::joined(start.as_str(), text::number(total as u64).as_str())
                };
                (label, total > 0)
            },
            None => ("".to_owned(), false),
        };
        FindBar {
            query: self.find_query.clone(),
            case_sensitive: self.find_case,
            focused: self.find_focused,
            match_label,
            can_step,
        }
    }

    /// Where the caret is, as a line.
    pub open spec fn position_line(self) -> Seq<PieceView> {
        seq![
            PieceView::Translated("sftp.preview.line"@),
            PieceView::Plain(" "@ + text::decimal(self.position().0 as nat) + ", "@),
            PieceView::Translated("sftp.preview.column"@),
            PieceView::Plain(" "@ + text::decimal(self.position().1 as nat)),
        ]
    }

    fn write_position(&self) -> (res: Vec<Piece>)
        requires
            self.wf(),
        ensures
            line_view(res@) == self.position_line(),
    {
        let (line, column): (usize, usize) = match &self.editor {
            Some(editor) => match editor.caret {
                Some((line, column)) => (line + 1, column + 1),
                None => (1, 1),
            },
            None => (1, 1),
        };
        let mut pieces: Vec<Piece> = Vec::new();
        pieces.push(Piece::Translated("sftp.preview.line".to_owned()));
        let start = text::joined(" ", text::number(line as u64).as_str());
        pieces.push(Piece::Plain(text::joined(start.as_str(), ", ")));
        pieces.push(Piece::Translated("sftp.preview.column".to_owned()));
        pieces.push(Piece::Plain(text::joined(" ", text::number(column as u64).as_str())));
        assert(line_view(pieces@) =~= self.position_line());
        pieces
    }
}

impl WorkspaceApp {
    /// A text where a preview would be.
    pub fn render_sftp_preview_text(&self, text: Piece) -> (res: PreviewText)
        ensures
            res.font == self.sftp_preview.mono_font,
            res.text == text,
    {
        PreviewText { font: self.sftp_preview.mono_font.clone(), text }
    }

    /// What stands in for the content of a preview, if anything does.
    pub open spec fn preview_notice(self) -> Option<PieceView> {
        if self.sftp_preview.loading {
            Some(PieceView::Translated("sftp.preview.loading"@))
        } else {
            match self.sftp_preview.error {
                Some(error) => Some(PieceView::Plain(error@)),
                None => if self.sftp_preview.has_content {
                    None
                } else {
                    Some(PieceView::Plain(""@))
                },
            }
        }
    }

    pub fn render_sftp_preview_body(&self) -> (res: PreviewPane)
        ensures
            res.scrolls == !self.sftp_preview.virtual_text,
            match self.preview_notice() {
                Some(notice) => res.body is Text && res.body->Text_0.text@ == notice && res.body->Text_0.font
                    == self.sftp_preview.mono_font,
                None => res.body is Content,
            },
    {
        let preview = &self.sftp_preview;
        let body = if preview.loading {
            PreviewBody::Text(
                self.render_sftp_preview_text(Piece::Translated("sftp.preview.loading".to_owned())),
            )
        } else {
            match &preview.error {
                Some(error) => PreviewBody::Text(
                    self.render_sftp_preview_text(Piece::Plain(error.clone())),
                ),
                None => {
                    if preview.has_content {
                        PreviewBody::Content
                    } else {
                        PreviewBody::Text(self.render_sftp_preview_text(Piece::Plain("".to_owned())))
                    }
                },
            }
        };
        PreviewPane { body, scrolls: !preview.virtual_text }
    }

    /// The editor with its status line, and the find bar while the user looks for something.
    pub fn render_sftp_editor_body(&self) -> (res: EditorPane)
        requires
            self.sftp_preview.wf(),
        ensures
            ({
                let preview = self.sftp_preview;
                &&& res.shows_editor == preview.editor is Some
                &&& line_view(res.position@) == preview.position_line()
                &&& res.language@ == match preview.language {
                    Some(language) => language@,
                    None => "text"@,
                }
                &&& line_view(res.encoding@) == seq![
                    PieceView::Translated("sftp.preview.encoding"@),
                    PieceView::Plain(" "@ + preview.encoding@),
                ]
                &&& match preview.save_error {
                    Some(error) => if preview.network_error {
                        res.status is Retry && res.status->message == error && line_view(
                            res.status->label@,
                        ) == preview.retry_label()
                    } else {
                        res.status is Text && res.status->text@ == PieceView::Plain(error@)
                            && res.status->tone == StatusTone::Red
                    },
                    None => match preview.text_status() {
                        Some((key, tone)) => res.status is Text && res.status->text@
                            == PieceView::Translated(key) && res.status->tone == tone,
                        None => res.status is Nothing,
                    },
                }
                &&& res.find_bar is Some == preview.find_open
                &&& res.find_bar matches Some(bar) ==> {
                    &&& bar.query == preview.find_query
                    &&& bar.case_sensitive == preview.find_case
                    &&& bar.focused == preview.find_focused
                    &&& bar.match_label@ == preview.match_label()
                    &&& bar.can_step == (preview.editor matches Some(editor) && editor.matches.total > 0)
                }
            }),
    {
        let preview = &self.sftp_preview;
        let language = match &preview.language {
            Some(language) => language.clone(),
            None => "text".to_owned(),
        };
        let mut encoding: Vec<Piece> = Vec::new();
        encoding.push(Piece::Translated("sftp.preview.encoding".to_owned()));
        encoding.push(Piece::Plain(text::joined(" ", preview.encoding.as_str())));
        assert(line_view(encoding@) =~= seq![
            PieceView::Translated("sftp.preview.encoding"@),
            PieceView::Plain(" "@ + preview.encoding@),
        ]);
        let find_bar = if preview.find_open {
            Some(preview.render_sftp_preview_find_bar())
        } else {
            None
        };
        EditorPane {
            shows_editor: preview.editor.is_some(),
            position: preview.write_position(),
            language,
            encoding,
            status: preview.render_sftp_editor_status(),
            find_bar,
        }
    }
}

} // verus!
