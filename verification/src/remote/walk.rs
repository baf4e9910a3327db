//! Walking a remote tree: the agent walks and streams batches of relative paths,
//! and each path is handed on as it comes.
//!
//! [`FileWalk`] decides what to do next; its host does it and reports what
//! happened. Whether the walk was cancelled is asked anew before each batch and
//! before each file.
use vstd::prelude::*;

use crate::json::{array_view, object_view, Json, JsonView};
use crate::path::{join, joined};
use crate::protocol::{Params, ParamsView, Request, RequestView};
use crate::remote::RemoteFileSystem;

verus! {

/// What happened at the host's side.
#[derive(Debug)]
pub enum WalkEvent {
    /// A batch came in.
    Batch(Json),
    /// The stream of batches ended.
    Closed,
    /// Whether the walk was found cancelled.
    Polled(bool),
    /// A file was visited; whether more are wanted.
    Visited(bool),
}

/// What the host is to do next.
#[derive(Debug, PartialEq, Eq)]
pub enum WalkAction {
    /// Wait for the next batch, or for the end of the stream.
    Receive,
    /// Look whether the walk was cancelled.
    Poll,
    /// Visit the file at `path`, which is `relative` to the root.
    Visit { path: String, relative: String },
    /// Take the agent's final answer; the walk is over.
    Finish,
    /// Hang up, so that the agent stops; the walk is over.
    Stop,
}

/// The mathematical value of a [`WalkEvent`].
pub enum WalkEventView {
    Batch(JsonView),
    Closed,
    Polled(bool),
    Visited(bool),
}

/// The mathematical value of a [`WalkAction`].
pub enum WalkActionView {
    Receive,
    Poll,
    Visit { path: Seq<char>, relative: Seq<char> },
    Finish,
    Stop,
}

impl WalkEvent {
    pub open spec fn view(&self) -> WalkEventView {
        match self {
            WalkEvent::Batch(data) => WalkEventView::Batch(data@),
            WalkEvent::Closed => WalkEventView::Closed,
            WalkEvent::Polled(cancelled) => WalkEventView::Polled(*cancelled),
            WalkEvent::Visited(more) => WalkEventView::Visited(*more),
        }
    }
}

impl WalkAction {
    pub open spec fn view(&self) -> WalkActionView {
        match self {
            WalkAction::Receive => WalkActionView::Receive,
            WalkAction::Poll => WalkActionView::Poll,
            WalkAction::Visit { path, relative } => WalkActionView::Visit {
                path: path@,
                relative: relative@,
            },
            WalkAction::Finish => WalkActionView::Finish,
            WalkAction::Stop => WalkActionView::Stop,
        }
    }
}

/// How far a walk has come.
#[allow(inconsistent_fields)]
pub enum WalkPhase {
    /// Waiting for a batch.
    Receiving,
    /// A batch came in; `files` is its list, where it has one.
    Received { files: Option<Seq<JsonView>> },
    /// About to look at item `next` of `files`.
    AtFile { files: Seq<JsonView>, next: int },
    /// Item `next` of `files` is being visited.
    Visiting { files: Seq<JsonView>, next: int },
    /// Over.
    Ended,
}

/// The mathematical value of a [`FileWalk`].
pub struct WalkView {
    pub root: Seq<char>,
    pub phase: WalkPhase,
}

impl WalkView {
    /// Whether `event` can happen now.
    pub open spec fn expects(self, event: WalkEventView) -> bool {
        match self.phase {
            WalkPhase::Receiving => event is Batch || event is Closed,
            WalkPhase::Received { .. } => event is Polled,
            WalkPhase::AtFile { .. } => event is Polled,
            WalkPhase::Visiting { .. } => event is Visited,
            WalkPhase::Ended => false,
        }
    }

    pub open spec fn at(self, phase: WalkPhase) -> WalkView {
        WalkView { phase, ..self }
    }

    /// On to item `next` of `files`, or to the next batch behind the last.
    pub open spec fn onward(self, files: Seq<JsonView>, next: int) -> (WalkView, WalkActionView) {
        if next < files.len() {
            (self.at(WalkPhase::AtFile { files, next }), WalkActionView::Poll)
        } else {
            (self.at(WalkPhase::Receiving), WalkActionView::Receive)
        }
    }

    /// The state after `event`, and what to do then.
    pub open spec fn after(self, event: WalkEventView) -> (WalkView, WalkActionView) {
        match (self.phase, event) {
            (WalkPhase::Receiving, WalkEventView::Batch(data)) => (
                self.at(WalkPhase::Received { files: data.array_field("files"@) }),
                WalkActionView::Poll,
            ),
            (WalkPhase::Receiving, _) => (self.at(WalkPhase::Ended), WalkActionView::Finish),
            (_, WalkEventView::Polled(true)) => (self.at(WalkPhase::Ended), WalkActionView::Stop),
            (WalkPhase::Received { files }, _) => match files {
                Some(list) => self.onward(list, 0),
                None => (self.at(WalkPhase::Receiving), WalkActionView::Receive),
            },
            (WalkPhase::AtFile { files, next }, _) => match files[next].as_str() {
                Some(relative) => (
                    self.at(WalkPhase::Visiting { files, next }),
                    WalkActionView::Visit { path: joined(self.root, relative), relative },
                ),
                None => self.onward(files, next + 1),
            },
            (WalkPhase::Visiting { files, next }, WalkEventView::Visited(true)) => self.onward(
                files,
                next + 1,
            ),
            _ => (self.at(WalkPhase::Ended), WalkActionView::Stop),
        }
    }
}

enum State {
    Receiving,
    Received(Json),
    AtFile(Json, usize),
    Visiting(Json, usize),
    Ended,
}

/// A walk in progress.
pub struct FileWalk {
    root: String,
    state: State,
}

spec fn files_of(data: Json) -> Seq<JsonView> {
    data@.array_field("files"@)->0
}

fn list_len(data: &Json) -> (n: usize)
    requires
        data@.array_field("files"@) is Some,
    ensures
        n == files_of(*data).len(),
{
    match data.array_field("files") {
        Some(files) => files.len(),
        None => 0,
    }
}

impl FileWalk {
    spec fn phase(&self) -> WalkPhase {
        match self.state {
            State::Receiving => WalkPhase::Receiving,
            State::Received(data) => WalkPhase::Received { files: data@.array_field("files"@) },
            State::AtFile(data, next) => WalkPhase::AtFile {
                files: files_of(data),
                next: next as int,
            },
            State::Visiting(data, next) => WalkPhase::Visiting {
                files: files_of(data),
                next: next as int,
            },
            State::Ended => WalkPhase::Ended,
        }
    }

    pub closed spec fn view(&self) -> WalkView {
        WalkView { root: self.root@, phase: self.phase() }
    }

    /// A walk stands at an item of a list that its batch really has.
    #[verifier::type_invariant]
    spec fn wf(self) -> bool {
        match self.state {
            State::AtFile(data, next) | State::Visiting(data, next) => {
                &&& data@.array_field("files"@) is Some
                &&& next < files_of(data).len()
            },
            _ => true,
        }
    }

    /// What to do at item `next` of the list of `data`, or behind it.
    fn go_on(root: String, data: Json, next: usize) -> (moved: (FileWalk, WalkAction))
        requires
            data@.array_field("files"@) is Some,
        ensures
            (moved.0@, moved.1@) == (WalkView { root: root@, phase: WalkPhase::Ended }).onward(
                files_of(data),
                next as int,
            ),
    {
        if next < list_len(&data) {
            (FileWalk { root, state: State::AtFile(data, next) }, WalkAction::Poll)
        } else {
            (FileWalk { root, state: State::Receiving }, WalkAction::Receive)
        }
    }

    /// Takes in what happened, and says what to do next.
    pub fn advance(self, event: WalkEvent) -> (moved: (FileWalk, WalkAction))
        requires
            self@.expects(event@),
        ensures
            (moved.0@, moved.1@) == self@.after(event@),
    {
        proof {
            use_type_invariant(&self);
        }
        let root = self.root;
        match (self.state, event) {
            (State::Receiving, WalkEvent::Batch(data)) => {
                (FileWalk { root, state: State::Received(data) }, WalkAction::Poll)
            },
            (State::Receiving, _) => {
                (FileWalk { root, state: State::Ended }, WalkAction::Finish)
            },
            (_, WalkEvent::Polled(true)) => {
                (FileWalk { root, state: State::Ended }, WalkAction::Stop)
            },
            (State::Received(data), _) => {
                if data.array_field("files").is_some() {
                    Self::go_on(root, data, 0)
                } else {
                    (FileWalk { root, state: State::Receiving }, WalkAction::Receive)
                }
            },
            (State::AtFile(data, next), _) => {
                let relative: Option<String> = match data.array_field("files") {
                    Some(files) => match files[next].as_str() {
                        Some(text) => Some(text.to_owned()),
                        None => None,
                    },
                    None => None,
                };
                match relative {
                    Some(relative) => {
                        let path = join(root.as_str(), relative.as_str());
                        (
                            FileWalk { root, state: State::Visiting(data, next) },
                            WalkAction::Visit { path, relative },
                        )
                    },
                    None => {
                        let n = list_len(&data);
                        assert(next < n);
                        Self::go_on(root, data, next + 1)
                    },
                }
            },
            (State::Visiting(data, next), WalkEvent::Visited(true)) => {
                let n = list_len(&data);
                assert(next < n);
                Self::go_on(root, data, next + 1)
            },
            _ => (FileWalk { root, state: State::Ended }, WalkAction::Stop),
        }
    }
}

/// The texts of `names`, as JSON strings.
pub open spec fn string_list(names: Seq<String>) -> Seq<JsonView> {
    Seq::new(names.len(), |i: int| JsonView::Str(names[i]@))
}

/// The request that starts a walk.
pub open spec fn walk_request(root: Seq<char>, skip_dirs: Seq<String>) -> RequestView {
    RequestView {
        method: "walk_files"@,
        params: ParamsView::Fields(
            seq![
                ("path"@, JsonView::Str(root)),
                ("skip_dirs"@, JsonView::Array(string_list(skip_dirs))),
            ],
        ),
    }
}

impl RemoteFileSystem {
    /// Asks for all files below `root`, leaving out directories called as in
    /// `skip_dirs`. The walk that is returned waits for the first batch.
    pub fn walk_files(&self, root: &str, skip_dirs: &Vec<String>) -> (start: (Request, FileWalk))
        ensures
            start.0@ == walk_request(root@, skip_dirs@),
            start.1@ == (WalkView { root: root@, phase: WalkPhase::Receiving }),
    {
        let mut names: Vec<Json> = Vec::new();
        let mut i: usize = 0;
        while i < skip_dirs.len()
            invariant
                i <= skip_dirs.len(),
                array_view(names@) == string_list(skip_dirs@).take(i as int),
            decreases skip_dirs.len() - i,
        {
            let ghost before = names@;
            names.push(Json::Str(skip_dirs[i].clone()));
            assert(array_view(names@) =~= array_view(before).push(
                JsonView::Str(skip_dirs@[i as int]@),
            ));
            i += 1;
        }
        assert(array_view(names@) =~= string_list(skip_dirs@));
        let fields = vec![
            ("path".to_owned(), Json::Str(root.to_owned())),
            ("skip_dirs".to_owned(), Json::Array(names)),
        ];
        assert(object_view(fields@) =~= seq![
            ("path"@, JsonView::Str(root@)),
            ("skip_dirs"@, JsonView::Array(string_list(skip_dirs@))),
        ]);
        (
            Request { method: "walk_files", params: Params::Fields(fields) },
            FileWalk { root: root.to_owned(), state: State::Receiving },
        )
    }
}

/// The files that a list names from item `from` on, with their place below
/// `root`. Items that are no strings name none.
pub open spec fn files_from(root: Seq<char>, files: Seq<JsonView>, from: int) -> Seq<
    (Seq<char>, Seq<char>),
>
    decreases files.len() - from,
{
    if from < 0 || from >= files.len() {
        Seq::empty()
    } else {
        match files[from].as_str() {
            Some(relative) => seq![(joined(root, relative), relative)] + files_from(
                root,
                files,
                from + 1,
            ),
            None => files_from(root, files, from + 1),
        }
    }
}

/// The files that a batch names.
pub open spec fn files_in(root: Seq<char>, batch: JsonView) -> Seq<(Seq<char>, Seq<char>)> {
    match batch.array_field("files"@) {
        Some(files) => files_from(root, files, 0),
        None => Seq::empty(),
    }
}

/// The files that the batches name, in order.
pub open spec fn files_in_all(root: Seq<char>, batches: Seq<JsonView>) -> Seq<
    (Seq<char>, Seq<char>),
>
    decreases batches.len(),
{
    if batches.len() == 0 {
        Seq::empty()
    } else {
        files_in(root, batches[0]) + files_in_all(root, batches.skip(1))
    }
}

impl WalkView {
    /// The files that are still to be visited of the batch at hand.
    pub open spec fn pending(self) -> Seq<(Seq<char>, Seq<char>)> {
        match self.phase {
            WalkPhase::Received { files } => match files {
                Some(list) => files_from(self.root, list, 0),
                None => Seq::empty(),
            },
            WalkPhase::AtFile { files, next } => files_from(self.root, files, next),
            _ => Seq::empty(),
        }
    }

    /// How many steps the batch at hand can still take.
    pub open spec fn steps_left(self) -> int {
        match self.phase {
            WalkPhase::Receiving => 0,
            WalkPhase::Received { files } => match files {
                Some(list) => 2 + list.len() as int,
                None => 1,
            },
            WalkPhase::AtFile { files, next } => if next < files.len() {
                1 + files.len() - next
            } else {
                0
            },
            WalkPhase::Visiting { .. } => 0,
            WalkPhase::Ended => 0,
        }
    }

    /// The visits of a walk that is never cancelled, whose agent sends `batches`
    /// and then ends the stream, and whose host wants `limit` files and says so
    /// at the last of them.
    pub open spec fn visits(self, batches: Seq<JsonView>, limit: nat) -> Seq<
        (Seq<char>, Seq<char>),
    >
        decreases batches.len(), self.steps_left(),
    {
        match self.phase {
            WalkPhase::Receiving => if batches.len() == 0 {
                Seq::empty()
            } else {
                self.after(WalkEventView::Batch(batches[0])).0.visits(batches.skip(1), limit)
            },
            WalkPhase::Received { .. } => self.after(WalkEventView::Polled(false)).0.visits(
                batches,
                limit,
            ),
            WalkPhase::AtFile { files, next } => if next < 0 || next >= files.len() {
                Seq::empty()
            } else {
                let (moved, action) = self.after(WalkEventView::Polled(false));
                match action {
                    WalkActionView::Visit { path, relative } => if limit <= 1 {
                        seq![(path, relative)]
                    } else {
                        seq![(path, relative)] + moved.after(WalkEventView::Visited(true)).0.visits(
                            batches,
                            (limit - 1) as nat,
                        )
                    },
                    _ => moved.visits(batches, limit),
                }
            },
            _ => Seq::empty(),
        }
    }
}

/// A walk that is not cancelled visits exactly the files that the agent names,
/// in the agent's order, each once, up to the number that its host wants.
pub proof fn law_walk_visits_all(walk: WalkView, batches: Seq<JsonView>, limit: nat)
    requires
        limit > 0,
        walk.phase is Receiving || walk.phase is Received || walk.phase is AtFile,
        walk.phase matches WalkPhase::AtFile { files, next } ==> 0 <= next < files.len(),
    ensures
        ({
            let all = walk.pending() + files_in_all(walk.root, batches);
            walk.visits(batches, limit) == if limit < all.len() {
                all.take(limit as int)
            } else {
                all
            }
        }),
    decreases batches.len(), walk.steps_left(),
{
    let all = walk.pending() + files_in_all(walk.root, batches);
    match walk.phase {
        WalkPhase::Receiving => {
            if batches.len() > 0 {
                let moved = walk.after(WalkEventView::Batch(batches[0])).0;
                law_walk_visits_all(moved, batches.skip(1), limit);
                assert(all =~= moved.pending() + files_in_all(walk.root, batches.skip(1)));
            } else {
                assert(all =~= Seq::empty());
            }
        },
        WalkPhase::Received { files } => {
            let moved = walk.after(WalkEventView::Polled(false)).0;
            law_walk_visits_all(moved, batches, limit);
            assert(moved.pending() =~= walk.pending());
        },
        WalkPhase::AtFile { files, next } => {
            let (moved, action) = walk.after(WalkEventView::Polled(false));
            match files[next].as_str() {
                Some(relative) => {
                    let visit = (joined(walk.root, relative), relative);
                    let on = moved.after(WalkEventView::Visited(true)).0;
                    let rest = on.pending() + files_in_all(walk.root, batches);
                    assert(on.pending() =~= files_from(walk.root, files, next + 1));
                    assert(all =~= seq![visit] + rest);
                    if limit > 1 {
                        law_walk_visits_all(on, batches, (limit - 1) as nat);
                        if limit < all.len() {
                            assert(all.take(limit as int) =~= seq![visit] + rest.take(
                                limit - 1,
                            ));
                        }
                    } else if limit < all.len() {
                        assert(all.take(1) =~= seq![visit]);
                    } else {
                        assert(all =~= seq![visit]);
                    }
                },
                None => {
                    law_walk_visits_all(moved, batches, limit);
                    assert(walk.pending() == files_from(walk.root, files, next + 1));
                    assert(moved.pending() =~= walk.pending());
                },
            }
        },
        _ => {},
    }
}

/// A walk found cancelled, or told that no more files are wanted, is over: it
/// hangs up and visits nothing more.
pub proof fn law_walk_stops(walk: WalkView, event: WalkEventView)
    requires
        walk.expects(event),
        event == WalkEventView::Polled(true) || event == WalkEventView::Visited(false),
    ensures
        walk.after(event).1 is Stop,
        walk.after(event).0.phase is Ended,
{
}

} // verus!
