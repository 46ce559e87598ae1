//! The toolbar over the source of a document.

use vstd::prelude::*;

use crate::text;

verus! {

/// What a button does with the source.
#[derive(Clone, Copy, PartialEq, Eq, Structural, Debug)]
pub enum KnowledgeFormatAction {
    Undo,
    Redo,
    Heading(u8),
    Bold,
    Italic,
    Strike,
    InlineCode,
    Quote,
    BulletList,
    OrderedList,
    TaskList,
    CodeBlock,
    Link,
    Image,
    Table,
    HorizontalRule,
    InlineMath,
    DisplayMath,
}

#[derive(Clone, Copy, PartialEq, Eq, Structural, Debug)]
pub enum ToolbarIcon {
    RotateCcw,
    RefreshCw,
    ListChecks,
    Code2,
    Link2,
    Image,
    FileSpreadsheet,
}

/// What a button shows.
pub enum KnowledgeFormatGlyph {
    Icon(ToolbarIcon),
    Text(String),
}

/// What a button shows, in words.
pub enum GlyphView {
    Icon(ToolbarIcon),
    Text(Seq<char>),
}

/// What the buttons are called in the user's language.
pub struct KnowledgeFormatLabels {
    pub undo: String,
    pub redo: String,
    pub heading: String,
    pub bold: String,
    pub italic: String,
    pub strike: String,
    pub inline_code: String,
    pub quote: String,
    pub bullet_list: String,
    pub ordered_list: String,
    pub task_list: String,
    pub code_block: String,
    pub link: String,
    pub image: String,
    pub table: String,
    pub horizontal_rule: String,
    pub inline_math: String,
    pub display_math: String,
}

pub enum ToolbarItem {
    Separator,
    Button {
        id: String,
        glyph: KnowledgeFormatGlyph,
        label: String,
        action: KnowledgeFormatAction,
    },
}

/// An item of the toolbar, in words.
pub enum ItemView {
    Separator,
    Button { id: Seq<char>, glyph: GlyphView, label: Seq<char>, action: KnowledgeFormatAction },
}

impl ToolbarItem {
    pub open spec fn view(self) -> ItemView {
        match self {
            ToolbarItem::Separator => ItemView::Separator,
            ToolbarItem::Button { id, glyph, label, action } => ItemView::Button {
                id: id@,
                glyph: match glyph {
                    KnowledgeFormatGlyph::Icon(icon) => GlyphView::Icon(icon),
                    KnowledgeFormatGlyph::Text(text) => GlyphView::Text(text@),
                },
                label: label@,
                action,
            },
        }
    }
}

pub open spec fn items_view(items: Seq<ToolbarItem>) -> Seq<ItemView> {
    items.map_values(|item: ToolbarItem| item@)
}

/// A button with an icon.
pub open spec fn icon_button(name: Seq<char>, icon: ToolbarIcon, label: Seq<char>, action: KnowledgeFormatAction) -> ItemView {
    ItemView::Button { id: "knowledge-format-"@ + name, glyph: GlyphView::Icon(icon), label, action }
}

/// A button with a text.
pub open spec fn text_button(name: Seq<char>, shown: Seq<char>, label: Seq<char>, action: KnowledgeFormatAction) -> ItemView {
    ItemView::Button { id: "knowledge-format-"@ + name, glyph: GlyphView::Text(shown), label, action }
}

/// The button for a heading of a level.
pub open spec fn heading_button(labels: KnowledgeFormatLabels, level: int) -> ItemView {
    let digit = text::decimal(level as nat);
    text_button(
        "heading-"@ + digit,
        "H"@ + digit,
        labels.heading@ + " "@ + digit,
        KnowledgeFormatAction::Heading(level as u8),
    )
}

/// Undo and redo.
pub open spec fn history(labels: KnowledgeFormatLabels) -> Seq<ItemView> {
    seq![
        icon_button("undo"@, ToolbarIcon::RotateCcw, labels.undo@, KnowledgeFormatAction::Undo),
        icon_button("redo"@, ToolbarIcon::RefreshCw, labels.redo@, KnowledgeFormatAction::Redo),
    ]
}

/// Headings of every level.
pub open spec fn headings(labels: KnowledgeFormatLabels) -> Seq<ItemView> {
    Seq::new(6, |at: int| heading_button(labels, at + 1))
}

/// Marks inside a line.
pub open spec fn spans(labels: KnowledgeFormatLabels) -> Seq<ItemView> {
    seq![
        text_button("bold"@, "B"@, labels.bold@, KnowledgeFormatAction::Bold),
        text_button("italic"@, "I"@, labels.italic@, KnowledgeFormatAction::Italic),
        text_button("strike"@, "S"@, labels.strike@, KnowledgeFormatAction::Strike),
        text_button("code"@, "<>"@, labels.inline_code@, KnowledgeFormatAction::InlineCode),
    ]
}

/// Marks for whole lines.
pub open spec fn blocks(labels: KnowledgeFormatLabels) -> Seq<ItemView> {
    seq![
        text_button("quote"@, "”"@, labels.quote@, KnowledgeFormatAction::Quote),
        text_button("bullets"@, "•"@, labels.bullet_list@, KnowledgeFormatAction::BulletList),
        text_button("ordered"@, "1."@, labels.ordered_list@, KnowledgeFormatAction::OrderedList),
        icon_button("task"@, ToolbarIcon::ListChecks, labels.task_list@, KnowledgeFormatAction::TaskList),
        icon_button("code-block"@, ToolbarIcon::Code2, labels.code_block@, KnowledgeFormatAction::CodeBlock),
    ]
}

/// Things to put in.
pub open spec fn inserts(labels: KnowledgeFormatLabels) -> Seq<ItemView> {
    seq![
        icon_button("link"@, ToolbarIcon::Link2, labels.link@, KnowledgeFormatAction::Link),
        icon_button("image"@, ToolbarIcon::Image, labels.image@, KnowledgeFormatAction::Image),
        icon_button("table"@, ToolbarIcon::FileSpreadsheet, labels.table@, KnowledgeFormatAction::Table),
        text_button("horizontal-rule"@, "—"@, labels.horizontal_rule@, KnowledgeFormatAction::HorizontalRule),
    ]
}

/// Formulas.
pub open spec fn formulas(labels: KnowledgeFormatLabels) -> Seq<ItemView> {
    seq![
        text_button("inline-math"@, "$"@, labels.inline_math@, KnowledgeFormatAction::InlineMath),
        text_button("display-math"@, "$$"@, labels.display_math@, KnowledgeFormatAction::DisplayMath),
    ]
}

/// The toolbar: groups of buttons with a line between them.
pub open spec fn source_toolbar(labels: KnowledgeFormatLabels) -> Seq<ItemView> {
    history(labels).push(ItemView::Separator) + headings(labels).push(ItemView::Separator) + spans(
        labels,
    ).push(ItemView::Separator) + blocks(labels).push(ItemView::Separator) + inserts(labels).push(
        ItemView::Separator,
    ) + formulas(labels)
}

fn push_icon(items: &mut Vec<ToolbarItem>, name: &str, icon: ToolbarIcon, label: &String, action: KnowledgeFormatAction)
    ensures
        items_view(final(items)@) == items_view(old(items)@).push(
            icon_button(name@, icon, label@, action),
        ),
{
    items.push(
        ToolbarItem::Button {
            id: text::joined("knowledge-format-", name),
            glyph: KnowledgeFormatGlyph::Icon(icon),
            label: label.clone(),
            action,
        },
    );
    assert(items_view(items@) =~= items_view(old(items)@).push(
        icon_button(name@, icon, label@, action),
    ));
}

fn push_text(items: &mut Vec<ToolbarItem>, name: &str, shown: &str, label: &String, action: KnowledgeFormatAction)
    ensures
        items_view(final(items)@) == items_view(old(items)@).push(
            text_button(name@, shown@, label@, action),
        ),
{
    items.push(
        ToolbarItem::Button {
            id: text::joined("knowledge-format-", name),
            glyph: KnowledgeFormatGlyph::Text(shown.to_owned()),
            label: label.clone(),
            action,
        },
    );
    assert(items_view(items@) =~= items_view(old(items)@).push(
        text_button(name@, shown@, label@, action),
    ));
}

fn push_separator(items: &mut Vec<ToolbarItem>)
    ensures
        items_view(final(items)@) == items_view(old(items)@).push(ItemView::Separator),
{
    items.push(ToolbarItem::Separator);
    assert(items_view(items@) =~= items_view(old(items)@).push(ItemView::Separator));
}

fn push_history(items: &mut Vec<ToolbarItem>, labels: &KnowledgeFormatLabels)
    ensures
        items_view(final(items)@) == items_view(old(items)@) + history(*labels),
{
    push_icon(items, "undo", ToolbarIcon::RotateCcw, &labels.undo, KnowledgeFormatAction::Undo);
    push_icon(items, "redo", ToolbarIcon::RefreshCw, &labels.redo, KnowledgeFormatAction::Redo);
    assert(items_view(items@) =~= items_view(old(items)@) + history(*labels));
}

fn push_headings(items: &mut Vec<ToolbarItem>, labels: &KnowledgeFormatLabels)
    ensures
        items_view(final(items)@) == items_view(old(items)@) + headings(*labels),
{
    let mut level: u8 = 1;
    assert(items_view(items@) =~= items_view(old(items)@) + headings(*labels).take(0));
    while level <= 6
        invariant
            1 <= level <= 7,
            items_view(items@) == items_view(old(items)@) + headings(*labels).take(level - 1),
        decreases 7 - level,
    {
        let digit = text::number(level as u64);
        let label = text::joined(text::joined(labels.heading.as_str(), " ").as_str(), digit.as_str());
        push_text(
            items,
            text::joined("heading-", digit.as_str()).as_str(),
            text::joined("H", digit.as_str()).as_str(),
            &label,
            KnowledgeFormatAction::Heading(level),
        );
        assert(headings(*labels).take(level as int) =~= headings(*labels).take(level - 1).push(
            heading_button(*labels, level as int),
        ));
        assert(items_view(items@) =~= items_view(old(items)@) + headings(*labels).take(level as int));
        level += 1;
    }
    assert(headings(*labels).take(6) =~= headings(*labels));
}

fn push_spans(items: &mut Vec<ToolbarItem>, labels: &KnowledgeFormatLabels)
    ensures
        items_view(final(items)@) == items_view(old(items)@) + spans(*labels),
{
    push_text(items, "bold", "B", &labels.bold, KnowledgeFormatAction::Bold);
    push_text(items, "italic", "I", &labels.italic, KnowledgeFormatAction::Italic);
    push_text(items, "strike", "S", &labels.strike, KnowledgeFormatAction::Strike);
    push_text(items, "code", "<>", &labels.inline_code, KnowledgeFormatAction::InlineCode);
    assert(items_view(items@) =~= items_view(old(items)@) + spans(*labels));
}

fn push_blocks(items: &mut Vec<ToolbarItem>, labels: &KnowledgeFormatLabels)
    ensures
        items_view(final(items)@) == items_view(old(items)@) + blocks(*labels),
{
    push_text(items, "quote", "”", &labels.quote, KnowledgeFormatAction::Quote);
    push_text(items, "bullets", "•", &labels.bullet_list, KnowledgeFormatAction::BulletList);
    push_text(items, "ordered", "1.", &labels.ordered_list, KnowledgeFormatAction::OrderedList);
    push_icon(items, "task", ToolbarIcon::ListChecks, &labels.task_list, KnowledgeFormatAction::TaskList);
    push_icon(items, "code-block", ToolbarIcon::Code2, &labels.code_block, KnowledgeFormatAction::CodeBlock);
    assert(items_view(items@) =~= items_view(old(items)@) + blocks(*labels));
}

fn push_inserts(items: &mut Vec<ToolbarItem>, labels: &KnowledgeFormatLabels)
    ensures
        items_view(final(items)@) == items_view(old(items)@) + inserts(*labels),
{
    push_icon(items, "link", ToolbarIcon::Link2, &labels.link, KnowledgeFormatAction::Link);
    push_icon(items, "image", ToolbarIcon::Image, &labels.image, KnowledgeFormatAction::Image);
    push_icon(items, "table", ToolbarIcon::FileSpreadsheet, &labels.table, KnowledgeFormatAction::Table);
    push_text(items, "horizontal-rule", "—", &labels.horizontal_rule, KnowledgeFormatAction::HorizontalRule);
    assert(items_view(items@) =~= items_view(old(items)@) + inserts(*labels));
}

fn push_formulas(items: &mut Vec<ToolbarItem>, labels: &KnowledgeFormatLabels)
    ensures
        items_view(final(items)@) == items_view(old(items)@) + formulas(*labels),
{
    push_text(items, "inline-math", "$", &labels.inline_math, KnowledgeFormatAction::InlineMath);
    push_text(items, "display-math", "$$", &labels.display_math, KnowledgeFormatAction::DisplayMath);
    assert(items_view(items@) =~= items_view(old(items)@) + formulas(*labels));
}

pub(crate) fn list_toolbar(labels: &KnowledgeFormatLabels) -> (res: Vec<ToolbarItem>)
    ensures
        items_view(res@) == source_toolbar(*labels),
{
    let mut items: Vec<ToolbarItem> = Vec::new();
    push_history(&mut items, labels);
    push_separator(&mut items);
    push_headings(&mut items, labels);
    push_separator(&mut items);
    push_spans(&mut items, labels);
    push_separator(&mut items);
    push_blocks(&mut items, labels);
    push_separator(&mut items);
    push_inserts(&mut items, labels);
    push_separator(&mut items);
    push_formulas(&mut items, labels);
    assert(items_view(items@) =~= source_toolbar(*labels));
    items
}

} // verus!
