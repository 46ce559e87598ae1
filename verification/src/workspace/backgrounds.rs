//! Pictures behind the windows.

use vstd::prelude::*;

use crate::text;
use crate::workspace::paths::{path_view, PartView, PathPart};

verus! {

/// The pictures that come with the application. They are put in place at the start, and the user
/// cannot delete them.
pub open spec fn bundled() -> Seq<Seq<char>> {
    seq!["oxide-ambient-v1.png"@, "oxide-nocturne-v1.webp"@, "oxide-verdant-v1.webp"@]
}

/// How many pictures come with the application.
pub const BUNDLED_COUNT: usize = 3;

fn bundled_name(at: usize) -> (res: &'static str)
    requires
        at < BUNDLED_COUNT,
    ensures
        res@ == bundled()[at as int],
{
    if at == 0 {
        "oxide-ambient-v1.png"
    } else if at == 1 {
        "oxide-nocturne-v1.webp"
    } else {
        "oxide-verdant-v1.webp"
    }
}

/// What follows when pictures are put in place one after the other.
pub enum InstallStep<E> {
    Install(String),
    Done,
    Failed(E),
}

/// Says which picture is put in place next: `installed` are, and `last` is what came of the last one.
/// The first failure ends it.
pub fn ensure_bundled_workspace_backgrounds<E>(installed: usize, last: Result<(), E>) -> (res: InstallStep<E>)
    ensures
        match last {
            Err(error) => res == InstallStep::Failed(error),
            Ok(_) => if installed < bundled().len() {
                res is Install && res->Install_0@ == bundled()[installed as int]
            } else {
                res is Done
            },
        },
{
    match last {
        Err(error) => InstallStep::Failed(error),
        Ok(_) => {
            if installed < BUNDLED_COUNT {
                InstallStep::Install(bundled_name(installed).to_owned())
            } else {
                InstallStep::Done
            }
        },
    }
}

/// Whether a path is the one of a picture that comes with the application.
pub open spec fn is_bundled(directory: Seq<PartView>, image: Seq<PartView>) -> bool {
    exists|at: int| 0 <= at < bundled().len() && image == directory.push(
        PartView::Name(#[trigger] bundled()[at]),
    )
}

/// Whether a picture is one that comes with the application.
pub fn is_bundled_workspace_background(background_directory: &Vec<PathPart>, image_path: &Vec<PathPart>) -> (res: bool)
    ensures
        res == is_bundled(path_view(background_directory@), path_view(image_path@)),
{
    let ghost directory = path_view(background_directory@);
    let ghost image = path_view(image_path@);
    if image_path.len() == 0 || image_path.len() - 1 != background_directory.len() {
        return false;
    }
    let depth: usize = background_directory.len();
    let mut i: usize = 0;
    while i < depth
        invariant
            i <= depth == directory.len(),
            depth == background_directory@.len(),
            image_path@.len() == depth + 1,
            directory == path_view(background_directory@),
            image == path_view(image_path@),
            forall|j: int| 0 <= j < i ==> directory[j] == image[j],
        decreases depth - i,
    {
        if !background_directory[i].same(&image_path[i]) {
            assert(directory[i as int] != image[i as int]);
            assert forall|at: int| 0 <= at < bundled().len() implies image != directory.push(
                PartView::Name(#[trigger] bundled()[at]),
            ) by {
                assert(directory.push(PartView::Name(bundled()[at]))[i as int] == directory[i as int]);
            }
            return false;
        }
        assert(directory[i as int] == image[i as int]);
        i += 1;
    }
    assert(image.drop_last() =~= directory);
    let name = match &image_path[depth] {
        PathPart::Name(name) => name,
        _ => {
            assert(!(image.last() is Name));
            assert forall|at: int| 0 <= at < bundled().len() implies image != directory.push(
                PartView::Name(#[trigger] bundled()[at]),
            ) by {
                assert(directory.push(PartView::Name(bundled()[at])).last() is Name);
            }
            return false;
        },
    };
    assert(image.last() == PartView::Name(name@));
    let mut at: usize = 0;
    while at < BUNDLED_COUNT
        invariant
            at <= BUNDLED_COUNT,
            directory == path_view(background_directory@),
            image == path_view(image_path@),
            image.last() == PartView::Name(name@),
            image.drop_last() == directory,
            image.len() == directory.len() + 1,
            forall|j: int| 0 <= j < at ==> name@ != #[trigger] bundled()[j],
        decreases BUNDLED_COUNT - at,
    {
        if text::same(name.as_str(), bundled_name(at)) {
            assert(image =~= directory.push(PartView::Name(bundled()[at as int])));
            return true;
        }
        at += 1;
    }
    assert forall|j: int| 0 <= j < bundled().len() implies image != directory.push(
        PartView::Name(#[trigger] bundled()[j]),
    ) by {
        assert(directory.push(PartView::Name(bundled()[j])).last() == PartView::Name(bundled()[j]));
    }
    false
}

/// Every picture that comes with the application is protected, and nothing else beside it is.
pub proof fn law_bundled_pictures_are_protected(directory: Seq<PartView>, name: Seq<char>)
    ensures
        is_bundled(directory, directory.push(PartView::Name(name))) <==> bundled().contains(name),
{
    let image = directory.push(PartView::Name(name));
    if bundled().contains(name) {
        let at = choose|at: int| 0 <= at < bundled().len() && bundled()[at] == name;
        assert(image == directory.push(PartView::Name(bundled()[at])));
    }
    if is_bundled(directory, image) {
        let at = choose|at: int| 0 <= at < bundled().len() && image == directory.push(
            PartView::Name(#[trigger] bundled()[at]),
        );
        assert(image.last() == PartView::Name(name));
        assert(directory.push(PartView::Name(bundled()[at])).last() == PartView::Name(bundled()[at]));
        assert(bundled()[at] == name);
    }
}

/// How a picture fills a window, as the user chose it.
#[derive(Clone, Copy, PartialEq, Eq, Structural, Debug)]
pub enum TerminalBackgroundFit {
    Cover,
    Contain,
    Fill,
    Tile,
}

/// How a picture is drawn.
#[derive(Clone, Copy, PartialEq, Eq, Structural, Debug)]
pub enum ObjectFit {
    Cover,
    Contain,
    Fill,
    Natural,
}

pub fn workspace_background_object_fit(fit: TerminalBackgroundFit) -> (res: ObjectFit)
    ensures
        res == match fit {
            TerminalBackgroundFit::Cover => ObjectFit::Cover,
            TerminalBackgroundFit::Contain => ObjectFit::Contain,
            TerminalBackgroundFit::Fill => ObjectFit::Fill,
            TerminalBackgroundFit::Tile => ObjectFit::Natural,
        },
{
    match fit {
        TerminalBackgroundFit::Cover => ObjectFit::Cover,
        TerminalBackgroundFit::Contain => ObjectFit::Contain,
        TerminalBackgroundFit::Fill => ObjectFit::Fill,
        TerminalBackgroundFit::Tile => ObjectFit::Natural,
    }
}

/// Whether content gets a picture of its own behind it: terminals draw theirs themselves.
pub fn draws_content_background(background_key: Option<&str>, has_preferences: bool) -> (res: bool)
    ensures
        res == (has_preferences && background_key is Some && background_key->0@ != "terminal"@
            && background_key->0@ != "local_terminal"@),
{
    match background_key {
        Some(key) => has_preferences && !text::same(key, "terminal") && !text::same(key, "local_terminal"),
        None => false,
    }
}

/// The pictures of a window.
pub struct WorkspaceWindowBackgroundEntity<I> {
    /// Pictures that are no longer drawn, but still hold room in the graphics memory.
    pub retired: Vec<I>,
    pub byte_limit: usize,
    pub decode_timer_running: bool,
}

/// What the host has to do after a look at the decoder.
#[derive(Clone, Copy, PartialEq, Eq, Structural, Debug)]
pub struct DecodeStep {
    pub redraw: bool,
    pub start_timer: bool,
}

impl<I> WorkspaceWindowBackgroundEntity<I> {
    /// Hands out the pictures that are to be dropped from the graphics memory, each once.
    pub fn drop_retired_images(&mut self) -> (res: Vec<I>)
        ensures
            res@ == old(self).retired@,
            final(self).retired@.len() == 0,
            *final(self) == (WorkspaceWindowBackgroundEntity { retired: final(self).retired, ..*old(self) }),
    {
        let mut retired: Vec<I> = Vec::new();
        std::mem::swap(&mut retired, &mut self.retired);
        retired
    }

    /// The layer is drawn: says which pictures are to be dropped, and whether a timer is to be started
    /// because something is still being decoded.
    pub fn render_layer(&mut self, byte_limit: usize, pending: bool) -> (res: (Vec<I>, bool))
        ensures
            res.0@ == old(self).retired@,
            res.1 == (pending && !old(self).decode_timer_running),
            final(self).retired@.len() == 0,
            *final(self) == (WorkspaceWindowBackgroundEntity {
                retired: final(self).retired,
                byte_limit,
                decode_timer_running: old(self).decode_timer_running || pending,
            }),
    {
        self.byte_limit = byte_limit;
        let dropped = self.drop_retired_images();
        let start = if pending {
            self.schedule_decode_completion()
        } else {
            false
        };
        (dropped, start)
    }

    /// Starts the timer after which the decoder is looked at, unless it runs.
    pub fn schedule_decode_completion(&mut self) -> (res: bool)
        ensures
            res == !old(self).decode_timer_running,
            *final(self) == (WorkspaceWindowBackgroundEntity { decode_timer_running: true, ..*old(self) }),
    {
        if self.decode_timer_running {
            return false;
        }
        self.decode_timer_running = true;
        true
    }

    /// The timer ran out. `completed` says whether a picture was decoded, `pending` whether another
    /// one still is.
    pub fn on_decode_timer(&mut self, completed: bool, pending: bool) -> (res: (DecodeStep, Vec<I>))
        ensures
            res.0 == (DecodeStep { redraw: completed, start_timer: pending }),
            completed ==> res.1@ == old(self).retired@ && final(self).retired@.len() == 0,
            !completed ==> res.1@.len() == 0 && final(self).retired == old(self).retired,
            *final(self) == (WorkspaceWindowBackgroundEntity {
                decode_timer_running: pending,
                retired: final(self).retired,
                ..*old(self)
            }),
    {
        self.decode_timer_running = false;
        let dropped = if completed {
            self.drop_retired_images()
        } else {
            Vec::new()
        };
        if pending {
            self.schedule_decode_completion();
        }
        (DecodeStep { redraw: completed, start_timer: pending }, dropped)
    }
}

} // verus!
