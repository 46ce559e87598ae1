//! The editor of a document beside its preview: which of the two leads when they scroll, and when
//! the preview is made anew.

use vstd::prelude::*;

use crate::workspace::knowledge_toolbar::{
    items_view, list_toolbar, source_toolbar, KnowledgeFormatLabels, ToolbarItem,
};

verus! {

#[derive(Clone, Copy, PartialEq, Eq, Structural, Debug)]
pub enum KnowledgeEditorMode {
    Source,
    Split,
    Preview,
}

/// Why the editor scrolled.
#[derive(Clone, Copy, PartialEq, Eq, Structural, Debug)]
pub enum EditorScrollOrigin {
    User,
    /// The preview made it scroll.
    Synchronization,
    Other,
}

/// A place in the source, and where in the window it is shown.
pub struct SourceAnchor<Y> {
    pub version: u64,
    pub position: usize,
    pub viewport_y: Y,
    pub at_start: bool,
    pub at_end: bool,
}

/// What the user prefers. `source_ratio` is the part of the window that the source takes.
pub struct KnowledgeEditorUiState<F> {
    pub mode: KnowledgeEditorMode,
    pub source_ratio: F,
}

pub struct KnowledgeDocumentEditor<F, Y> {
    pub is_markdown: bool,
    pub mode: KnowledgeEditorMode,
    pub previous_mode: KnowledgeEditorMode,
    pub source_ratio: F,
    pub read_only: bool,
    /// Whether the preview leads and the editor follows.
    pub preview_leads: bool,
    pub observed_buffer_version: u64,
    /// The version that the preview shows, if there is one.
    pub preview_version: Option<u64>,
    pub pending_preview_anchor: Option<SourceAnchor<Y>>,
    pub preview_running: bool,
    pub preview_timer_running: bool,
    pub split_dragging: bool,
    pub labels: KnowledgeFormatLabels,
}

/// What follows when a preview was made.
pub enum PreviewStep<Y> {
    Nothing,
    /// Show it where the editor is.
    SyncFromEditor,
    /// Show it at a place.
    Request(SourceAnchor<Y>),
    /// Show it where it is.
    Show,
    /// It is out of date: make one of this version.
    Load(u64),
}

/// An anchor after one change of the text, where `mapped` is its new position.
pub open spec fn moved_anchor<Y>(
    anchor: SourceAnchor<Y>,
    before_version: u64,
    after_version: u64,
    mapped: usize,
) -> SourceAnchor<Y> {
    if anchor.version == before_version {
        SourceAnchor { position: mapped, version: after_version, ..anchor }
    } else {
        anchor
    }
}

impl<F: Copy, Y> KnowledgeDocumentEditor<F, Y> {
    /// The toolbar over the source.
    pub fn render_source_toolbar(&self) -> (res: Vec<ToolbarItem>)
        ensures
            items_view(res@) == source_toolbar(self.labels),
    {
        list_toolbar(&self.labels)
    }

    /// What the user prefers, as it is kept. Only for documents that have a preview.
    pub open spec fn preferences(self) -> Option<KnowledgeEditorUiState<F>> {
        if self.is_markdown {
            Some(KnowledgeEditorUiState { mode: self.mode, source_ratio: self.source_ratio })
        } else {
            None
        }
    }

    pub fn emit_preferences(&self) -> (res: Option<KnowledgeEditorUiState<F>>)
        ensures
            res == self.preferences(),
    {
        if self.is_markdown {
            Some(KnowledgeEditorUiState { mode: self.mode, source_ratio: self.source_ratio })
        } else {
            None
        }
    }

    /// Takes over what the user prefers. Says which version is to be previewed, if any.
    pub fn initialize_preview(&mut self, preferences: KnowledgeEditorUiState<F>) -> (res: Option<u64>)
        ensures
            ({
                let mode = if old(self).is_markdown {
                    preferences.mode
                } else {
                    old(self).mode
                };
                let loads = old(self).is_markdown && mode != KnowledgeEditorMode::Source
                    && !old(self).preview_running;
                &&& *final(self) == (KnowledgeDocumentEditor {
                    mode,
                    previous_mode: if old(self).is_markdown {
                        preferences.mode
                    } else {
                        old(self).previous_mode
                    },
                    source_ratio: if old(self).is_markdown {
                        preferences.source_ratio
                    } else {
                        old(self).source_ratio
                    },
                    read_only: mode == KnowledgeEditorMode::Preview,
                    preview_running: old(self).preview_running || loads,
                    ..*old(self)
                })
                &&& res == if loads {
                    Some(old(self).observed_buffer_version)
                } else {
                    None
                }
            }),
    {
        if self.is_markdown {
            self.mode = preferences.mode;
            self.previous_mode = preferences.mode;
            self.source_ratio = preferences.source_ratio;
        }
        self.read_only = self.mode == KnowledgeEditorMode::Preview;
        if self.mode != KnowledgeEditorMode::Source && self.is_markdown {
            self.load_preview()
        } else {
            None
        }
    }

    /// Makes a preview of the text as it is, unless one is being made. Says which version that is.
    pub fn load_preview(&mut self) -> (res: Option<u64>)
        ensures
            *final(self) == (KnowledgeDocumentEditor { preview_running: true, ..*old(self) }),
            res == if old(self).preview_running {
                None
            } else {
                Some(old(self).observed_buffer_version)
            },
    {
        if self.preview_running {
            return None;
        }
        self.preview_running = true;
        Some(self.observed_buffer_version)
    }

    /// The text changed: a preview is made after a while.
    pub fn schedule_preview(&mut self)
        ensures
            *final(self) == (KnowledgeDocumentEditor { preview_timer_running: true, ..*old(self) }),
    {
        self.preview_timer_running = true;
    }

    pub fn on_preview_timer(&mut self) -> (res: Option<u64>)
        ensures
            *final(self) == (KnowledgeDocumentEditor {
                preview_timer_running: false,
                preview_running: true,
                ..*old(self)
            }),
            res == if old(self).preview_running {
                None
            } else {
                Some(old(self).observed_buffer_version)
            },
    {
        self.preview_timer_running = false;
        self.load_preview()
    }

    /// A preview of a version was made. One that is out of date is not shown: another one is made,
    /// unless a timer does that or nobody looks at it.
    pub fn on_preview_loaded(&mut self, version: u64) -> (res: PreviewStep<Y>)
        ensures
            if old(self).observed_buffer_version == version {
                if old(self).mode == KnowledgeEditorMode::Split && !old(self).preview_leads {
                    &&& res is SyncFromEditor
                    &&& *final(self) == (KnowledgeDocumentEditor {
                        preview_running: false,
                        preview_version: Some(version),
                        ..*old(self)
                    })
                } else {
                    &&& res == match old(self).pending_preview_anchor {
                        Some(anchor) => PreviewStep::Request(anchor),
                        None => PreviewStep::Show,
                    }
                    &&& *final(self) == (KnowledgeDocumentEditor {
                        preview_running: false,
                        preview_version: Some(version),
                        pending_preview_anchor: None,
                        ..*old(self)
                    })
                }
            } else if !old(self).preview_timer_running && old(self).mode != KnowledgeEditorMode::Source {
                &&& res == PreviewStep::<Y>::Load(old(self).observed_buffer_version)
                &&& *final(self) == (KnowledgeDocumentEditor { preview_running: true, ..*old(self) })
            } else {
                &&& res is Nothing
                &&& *final(self) == (KnowledgeDocumentEditor { preview_running: false, ..*old(self) })
            },
            final(self).preview_version == old(self).preview_version || final(self).preview_version
                == Some(old(self).observed_buffer_version),
    {
        self.preview_running = false;
        if self.observed_buffer_version == version {
            self.preview_version = Some(version);
            if self.mode == KnowledgeEditorMode::Split && !self.preview_leads {
                return PreviewStep::SyncFromEditor;
            }
            let mut anchor: Option<SourceAnchor<Y>> = None;
            std::mem::swap(&mut anchor, &mut self.pending_preview_anchor);
            return match anchor {
                Some(anchor) => PreviewStep::Request(anchor),
                None => PreviewStep::Show,
            };
        }
        if !self.preview_timer_running && self.mode != KnowledgeEditorMode::Source {
            match self.load_preview() {
                Some(version) => PreviewStep::Load(version),
                None => PreviewStep::Nothing,
            }
        } else {
            PreviewStep::Nothing
        }
    }

    /// The editor scrolled. Says whether the preview has to follow. A user who scrolls the editor
    /// takes the lead back to it.
    pub fn on_viewport_changed(&mut self, origin: EditorScrollOrigin) -> (res: bool)
        ensures
            ({
                let counts = old(self).mode == KnowledgeEditorMode::Split && origin
                    != EditorScrollOrigin::Synchronization;
                let leads = old(self).preview_leads && !(counts && origin == EditorScrollOrigin::User);
                &&& *final(self) == (KnowledgeDocumentEditor { preview_leads: leads, ..*old(self) })
                &&& res == (counts && !leads)
            }),
    {
        if self.mode != KnowledgeEditorMode::Split || origin == EditorScrollOrigin::Synchronization {
            return false;
        }
        if origin == EditorScrollOrigin::User {
            self.preview_leads = false;
        }
        !self.preview_leads
    }

    /// The preview scrolled. Says whether the editor has to follow: only to a place in the text as it
    /// is.
    pub fn on_preview_scrolled(&mut self, anchor_version: u64) -> (res: bool)
        ensures
            res == (old(self).mode == KnowledgeEditorMode::Split && anchor_version
                == old(self).observed_buffer_version),
            *final(self) == (KnowledgeDocumentEditor {
                preview_leads: old(self).preview_leads || res,
                ..*old(self)
            }),
    {
        if self.mode != KnowledgeEditorMode::Split || anchor_version != self.observed_buffer_version {
            return false;
        }
        self.preview_leads = true;
        true
    }

    /// The preview is to be shown where the editor is.
    pub fn sync_from_editor(&mut self, anchor: SourceAnchor<Y>)
        ensures
            *final(self) == (KnowledgeDocumentEditor {
                pending_preview_anchor: Some(anchor),
                ..*old(self)
            }),
    {
        self.pending_preview_anchor = Some(anchor);
    }

    /// The text changes: the place to come back to is kept, or taken from where the preview is. The
    /// editor leads.
    pub fn begin_remap(&mut self, shown: Option<SourceAnchor<Y>>)
        ensures
            *final(self) == (KnowledgeDocumentEditor {
                pending_preview_anchor: match old(self).pending_preview_anchor {
                    Some(anchor) => Some(anchor),
                    None => shown,
                },
                preview_leads: false,
                ..*old(self)
            }),
    {
        if self.pending_preview_anchor.is_none() {
            self.pending_preview_anchor = shown;
        }
        self.preview_leads = false;
    }

    /// One change of the text moved the place to come back to, if it was a place in the text before
    /// that change.
    pub fn remap_preview_anchor(&mut self, before_version: u64, after_version: u64, mapped: usize)
        ensures
            *final(self) == (KnowledgeDocumentEditor {
                pending_preview_anchor: match old(self).pending_preview_anchor {
                    Some(anchor) => Some(moved_anchor(anchor, before_version, after_version, mapped)),
                    None => None,
                },
                ..*old(self)
            }),
    {
        let mut pending: Option<SourceAnchor<Y>> = None;
        std::mem::swap(&mut pending, &mut self.pending_preview_anchor);
        self.pending_preview_anchor = match pending {
            Some(anchor) => {
                if anchor.version == before_version {
                    Some(
                        SourceAnchor {
                            version: after_version,
                            position: mapped,
                            viewport_y: anchor.viewport_y,
                            at_start: anchor.at_start,
                            at_end: anchor.at_end,
                        },
                    )
                } else {
                    Some(anchor)
                }
            },
            None => None,
        };
    }

    /// The user let go of the line between source and preview: what they prefer now is to be kept.
    pub fn finish_split_resize(&mut self) -> (res: Option<KnowledgeEditorUiState<F>>)
        ensures
            *final(self) == (KnowledgeDocumentEditor { split_dragging: false, ..*old(self) }),
            res == if old(self).split_dragging {
                old(self).preferences()
            } else {
                None
            },
    {
        if self.split_dragging {
            self.split_dragging = false;
            self.emit_preferences()
        } else {
            None
        }
    }
}

} // verus!
