//! Walking a remote tree.
use vstd::prelude::*;

use crate::json::{array_view, object_view, Json, JsonView};
use crate::laws::requests::lemma_fields;
use crate::path::join;
use crate::protocol::{Params, Request};
use crate::remote::walk::{
    string_list, walk_request, FileWalk, WalkAction, WalkEvent, WalkPhase,
};
use crate::remote::RemoteFileSystem;

verus! {

/// A walk asks for the tree below its root and names every directory that is to be
/// left out, each once and in order; it then waits for the first batch.
pub proof fn law_walk_names_every_skipped_directory(
    fs: &RemoteFileSystem,
    root: &str,
    skip_dirs: &Vec<String>,
    start: (Request, FileWalk),
)
    requires
        call_ensures(RemoteFileSystem::walk_files, (fs, root, skip_dirs), start),
    ensures
        start.0.method@ == "walk_files"@,
        start.0.params matches Params::Fields(fields) && {
            &&& fields@.len() == 2
            &&& fields@[0].0@ == "path"@
            &&& fields@[0].1@ == JsonView::Str(root@)
            &&& fields@[1].0@ == "skip_dirs"@
            &&& fields@[1].1 matches Json::Array(names)
            &&& names@.len() == skip_dirs@.len()
            &&& forall|i: int|
                0 <= i < names@.len() ==> (#[trigger] names@[i])@ == JsonView::Str(
                    skip_dirs@[i]@,
                )
        },
        start.1@.root == root@,
        start.1@.phase is Receiving,
{
    lemma_fields(start.0);
    assert(start.0@ == walk_request(root@, skip_dirs@));
    if let Params::Fields(fields) = start.0.params {
        assert(object_view(fields@).len() == 2);
        assert(object_view(fields@)[0] == (fields@[0].0@, fields@[0].1@));
        assert(object_view(fields@)[1] == (fields@[1].0@, fields@[1].1@));
        assert(fields@[1].1@ == JsonView::Array(string_list(skip_dirs@)));
        if let Json::Array(names) = fields@[1].1 {
            assert(array_view(names@) == string_list(skip_dirs@));
            assert forall|i: int| 0 <= i < names@.len() implies (#[trigger] names@[i])@
                == JsonView::Str(skip_dirs@[i]@) by {
                assert(array_view(names@)[i] == names@[i]@);
            }
        }
    }
}

/// Whether the walk goes on to the item behind `next`: it asks whether it is
/// cancelled before it looks at that item, or waits for the next batch where there
/// is none.
pub open spec fn goes_on(
    walk: FileWalk,
    action: WalkAction,
    root: Seq<char>,
    files: Seq<JsonView>,
    next: int,
) -> bool {
    &&& walk@.root == root
    &&& next < files.len() ==> {
        &&& walk@.phase == (WalkPhase::AtFile { files, next })
        &&& action is Poll
    }
    &&& next >= files.len() ==> {
        &&& walk@.phase is Receiving
        &&& action is Receive
    }
}

/// Whether the walk is over with this action.
pub open spec fn ends(walk: FileWalk) -> bool {
    walk@.phase is Ended
}

/// A batch is looked at once it is known that the walk is not cancelled; the end of
/// the stream ends the walk in good order.
pub proof fn law_walk_takes_in_batches(
    walk: FileWalk,
    batch: Json,
    taken: (FileWalk, WalkAction),
    closed: (FileWalk, WalkAction),
)
    requires
        walk@.phase is Receiving,
        call_ensures(FileWalk::advance, (walk, WalkEvent::Batch(batch)), taken),
        call_ensures(FileWalk::advance, (walk, WalkEvent::Closed), closed),
    ensures
        taken.1 is Poll,
        taken.0@.root == walk@.root,
        taken.0@.phase == (WalkPhase::Received { files: batch@.array_field("files"@) }),
        closed.1 is Finish,
        ends(closed.0),
{
}

/// The first file of a batch is looked at first; a batch without files is passed
/// over.
pub proof fn law_walk_begins_a_batch_at_its_first_file(
    walk: FileWalk,
    files: Option<Seq<JsonView>>,
    moved: (FileWalk, WalkAction),
)
    requires
        walk@.phase == (WalkPhase::Received { files }),
        call_ensures(FileWalk::advance, (walk, WalkEvent::Polled(false)), moved),
    ensures
        match files {
            Some(list) => goes_on(moved.0, moved.1, walk@.root, list, 0),
            None => goes_on(moved.0, moved.1, walk@.root, Seq::empty(), 0),
        },
{
}

/// A file is visited by the name that the agent gave and by its place below the
/// root; what is no name is passed over.
pub proof fn law_walk_visits_the_file_it_stands_at(
    walk: FileWalk,
    files: Seq<JsonView>,
    next: int,
    root: &str,
    relative: &str,
    place: String,
    moved: (FileWalk, WalkAction),
)
    requires
        walk@.phase == (WalkPhase::AtFile { files, next }),
        walk@.root == root@,
        call_ensures(FileWalk::advance, (walk, WalkEvent::Polled(false)), moved),
        call_ensures(join, (root, relative), place),
    ensures
        files[next].as_str() == Some(relative@) ==> {
            &&& moved.1 matches WalkAction::Visit { path, relative: name }
            &&& name@ == relative@
            &&& path@ == place@
            &&& moved.0@.root == walk@.root
            &&& moved.0@.phase == (WalkPhase::Visiting { files, next })
        },
        files[next].as_str() is None ==> goes_on(
            moved.0,
            moved.1,
            walk@.root,
            files,
            next + 1,
        ),
{
}

/// A visited file is followed by the next one, for as long as more are wanted.
pub proof fn law_walk_follows_a_visit_by_the_next_file(
    walk: FileWalk,
    files: Seq<JsonView>,
    next: int,
    more: (FileWalk, WalkAction),
    enough: (FileWalk, WalkAction),
)
    requires
        walk@.phase == (WalkPhase::Visiting { files, next }),
        call_ensures(FileWalk::advance, (walk, WalkEvent::Visited(true)), more),
        call_ensures(FileWalk::advance, (walk, WalkEvent::Visited(false)), enough),
    ensures
        goes_on(more.0, more.1, walk@.root, files, next + 1),
        enough.1 is Stop,
        ends(enough.0),
{
}

/// A walk that is found cancelled stops, behind a batch and before every file.
pub proof fn law_cancelled_walk_stops(walk: FileWalk, moved: (FileWalk, WalkAction))
    requires
        walk@.phase is Received || walk@.phase is AtFile,
        call_ensures(FileWalk::advance, (walk, WalkEvent::Polled(true)), moved),
    ensures
        moved.1 is Stop,
        ends(moved.0),
{
}

} // verus!
