//! Where the application keeps its files: beside its settings.

use vstd::prelude::*;

use crate::text;

verus! {

/// A part of a path.
pub enum PathPart {
    /// A drive or share.
    Prefix(String),
    Root,
    Current,
    Parent,
    Name(String),
}

/// A part of a path, in words.
pub enum PartView {
    Prefix(Seq<char>),
    Root,
    Current,
    Parent,
    Name(Seq<char>),
}

impl PathPart {
    pub open spec fn view(self) -> PartView {
        match self {
            PathPart::Prefix(prefix) => PartView::Prefix(prefix@),
            PathPart::Root => PartView::Root,
            PathPart::Current => PartView::Current,
            PathPart::Parent => PartView::Parent,
            PathPart::Name(name) => PartView::Name(name@),
        }
    }

    pub fn same(&self, other: &PathPart) -> (res: bool)
        ensures
            res == (self@ == other@),
    {
        match (self, other) {
            (PathPart::Prefix(a), PathPart::Prefix(b)) => text::same(a.as_str(), b.as_str()),
            (PathPart::Root, PathPart::Root) => true,
            (PathPart::Current, PathPart::Current) => true,
            (PathPart::Parent, PathPart::Parent) => true,
            (PathPart::Name(a), PathPart::Name(b)) => text::same(a.as_str(), b.as_str()),
            _ => false,
        }
    }

    fn duplicate(&self) -> (res: PathPart)
        ensures
            res@ == self@,
    {
        match self {
            PathPart::Prefix(prefix) => PathPart::Prefix(prefix.clone()),
            PathPart::Root => PathPart::Root,
            PathPart::Current => PathPart::Current,
            PathPart::Parent => PathPart::Parent,
            PathPart::Name(name) => PathPart::Name(name.clone()),
        }
    }
}

pub open spec fn path_view(parts: Seq<PathPart>) -> Seq<PartView> {
    parts.map_values(|part: PathPart| part@)
}

/// The directory of a file. A root, a prefix and the empty path are in no directory; the current
/// one stands in for it.
pub open spec fn directory_of(path: Seq<PartView>) -> Seq<PartView> {
    if path.len() == 0 || path.last() is Root || path.last() is Prefix {
        seq![PartView::Current]
    } else {
        path.drop_last()
    }
}

/// A file beside another one.
pub open spec fn beside(path: Seq<PartView>, name: Seq<char>) -> Seq<PartView> {
    directory_of(path).push(PartView::Name(name))
}

fn sibling(path: &Vec<PathPart>, name: &str) -> (res: Vec<PathPart>)
    ensures
        path_view(res@) == beside(path_view(path@), name@),
{
    let mut res: Vec<PathPart> = Vec::new();
    let bare = path.len() == 0 || match &path[path.len() - 1] {
        PathPart::Root => true,
        PathPart::Prefix(_) => true,
        _ => false,
    };
    if bare {
        res.push(PathPart::Current);
        res.push(PathPart::Name(name.to_owned()));
        assert(path_view(res@) =~= beside(path_view(path@), name@));
        return res;
    }
    let mut i: usize = 0;
    while i + 1 < path.len()
        invariant
            path@.len() > 0,
            i < path@.len(),
            path_view(res@) == path_view(path@).take(i as int),
        decreases path.len() - i,
    {
        let ghost before = res@;
        res.push(path[i].duplicate());
        assert(path_view(res@) =~= path_view(before).push(path@[i as int]@));
        assert(path_view(path@).take(i + 1) =~= path_view(path@).take(i as int).push(path@[i as int]@));
        i += 1;
    }
    assert(path_view(path@).take(i as int) =~= path_view(path@).drop_last());
    let ghost directory = path_view(res@);
    res.push(PathPart::Name(name.to_owned()));
    assert(path_view(res@) =~= directory.push(PartView::Name(name@)));
    res
}

/// Where connections are kept.
pub fn default_connections_path(settings: &Vec<PathPart>) -> (res: Vec<PathPart>)
    ensures
        path_view(res@) == beside(path_view(settings@), "connections.json"@),
{
    sibling(settings, "connections.json")
}

/// Where forwards are kept.
pub fn default_saved_forwards_path(settings: &Vec<PathPart>) -> (res: Vec<PathPart>)
    ensures
        path_view(res@) == beside(path_view(settings@), "forwards.json"@),
{
    sibling(settings, "forwards.json")
}

/// Where the tree of sessions is kept.
pub fn default_session_tree_path(settings: &Vec<PathPart>) -> (res: Vec<PathPart>)
    ensures
        path_view(res@) == beside(path_view(settings@), "session_tree.json"@),
{
    sibling(settings, "session_tree.json")
}

/// Where conversations are kept.
pub fn default_ai_conversations_path(settings: &Vec<PathPart>) -> (res: Vec<PathPart>)
    ensures
        path_view(res@) == beside(path_view(settings@), "chat_history.redb"@),
{
    sibling(settings, "chat_history.redb")
}

/// Nothing that is kept beside the settings is kept in the same file as anything else.
pub proof fn law_files_are_kept_apart(settings: Seq<PartView>)
    ensures
        beside(settings, "connections.json"@) != beside(settings, "forwards.json"@),
        beside(settings, "connections.json"@) != beside(settings, "session_tree.json"@),
        beside(settings, "connections.json"@) != beside(settings, "chat_history.redb"@),
        beside(settings, "forwards.json"@) != beside(settings, "session_tree.json"@),
        beside(settings, "forwards.json"@) != beside(settings, "chat_history.redb"@),
        beside(settings, "session_tree.json"@) != beside(settings, "chat_history.redb"@),
{
    reveal_strlit("connections.json");
    reveal_strlit("forwards.json");
    reveal_strlit("session_tree.json");
    reveal_strlit("chat_history.redb");
    lemma_names_tell_apart(settings, "connections.json"@, "forwards.json"@);
    lemma_names_tell_apart(settings, "connections.json"@, "session_tree.json"@);
    lemma_names_tell_apart(settings, "connections.json"@, "chat_history.redb"@);
    lemma_names_tell_apart(settings, "forwards.json"@, "session_tree.json"@);
    lemma_names_tell_apart(settings, "forwards.json"@, "chat_history.redb"@);
    lemma_names_tell_apart(settings, "session_tree.json"@, "chat_history.redb"@);
    assert("connections.json"@.len() == 16);
    assert("forwards.json"@.len() == 13);
    assert("session_tree.json"@.len() == 17);
    assert("chat_history.redb"@.len() == 17);
    assert("session_tree.json"@[0] == 's');
    assert("chat_history.redb"@[0] == 'c');
}

proof fn lemma_names_tell_apart(settings: Seq<PartView>, a: Seq<char>, b: Seq<char>)
    ensures
        beside(settings, a) == beside(settings, b) ==> a == b,
{
    assert(beside(settings, a).last() == PartView::Name(a));
    assert(beside(settings, b).last() == PartView::Name(b));
}

} // verus!
