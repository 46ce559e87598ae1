//! Texts that are looked up in the user's language.

use vstd::prelude::*;

verus! {

/// A piece of a line: looked up in the user's language, or as it is.
pub enum Piece {
    Translated(String),
    Plain(String),
}

/// A piece of a line, in words.
pub enum PieceView {
    Translated(Seq<char>),
    Plain(Seq<char>),
}

impl Piece {
    pub open spec fn view(self) -> PieceView {
        match self {
            Piece::Translated(key) => PieceView::Translated(key@),
            Piece::Plain(text) => PieceView::Plain(text@),
        }
    }
}

/// A text under a key, with the values of its placeholders.
pub struct Label {
    pub key: String,
    pub values: Vec<(String, String)>,
}

/// A text under a key, in words.
pub struct LabelView {
    pub key: Seq<char>,
    pub values: Seq<(Seq<char>, Seq<char>)>,
}

pub open spec fn values_view(values: Seq<(String, String)>) -> Seq<(Seq<char>, Seq<char>)> {
    values.map_values(|value: (String, String)| (value.0@, value.1@))
}

/// A text without placeholders.
pub open spec fn bare(key: Seq<char>) -> LabelView {
    LabelView { key, values: Seq::empty() }
}

impl Label {
    pub open spec fn view(self) -> LabelView {
        LabelView { key: self.key@, values: values_view(self.values@) }
    }

    pub fn new(key: &str) -> (res: Label)
        ensures
            res@ == bare(key@),
    {
        let res = Label { key: key.to_owned(), values: Vec::new() };
        assert(values_view(res.values@) =~= Seq::<(Seq<char>, Seq<char>)>::empty());
        res
    }

    /// The text with a value for one more placeholder.
    pub fn with(self, name: &str, value: String) -> (res: Label)
        ensures
            res@ == (LabelView {
                values: self@.values.push((name@, value@)),
                ..self@
            }),
    {
        let mut res = self;
        let ghost before = res.values@;
        res.values.push((name.to_owned(), value));
        assert(values_view(res.values@) =~= values_view(before).push((name@, value@)));
        res
    }
}

} // verus!
