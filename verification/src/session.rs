//! One sync pass as a state machine. The session decides what happens
//! next; its driver does the work that the session asks for (probing and
//! listing the local tree, reading files, emitting chunks, pausing) and
//! hands back what came of it.

use vstd::prelude::*;
use vstd::string::StringExecFns;
use crate::monitor::ChunkData;
use crate::sync::{
    base64_standard, chunk_bytes, chunk_count, chunk_start, join_remote, joined_path,
    FileTransfer, SDSyncEngine, SyncError, CHUNK_PAUSE_MS,
};

verus! {

/// One entry of a local directory, as its listing yields it.
#[derive(Debug, Clone)]
pub enum LocalEntry {
    File { name: String, local_path: String },
    Dir { name: String, local_path: String },
    /// An entry whose name is not valid Unicode.
    Unnamed,
    /// The point at which the listing broke off.
    Unreadable,
}

/// What is to be done with an entry once its turn comes.
#[derive(Debug, Clone, Copy, PartialEq, Eq, Structural)]
pub enum TaskKind {
    /// List the directory and treat its entries next.
    List,
    /// Read the file and send it.
    Send,
    /// End the pass with this error.
    Fail(SyncError),
}

struct Task {
    kind: TaskKind,
    local: String,
    remote: String,
}

/// A task as the contracts see it.
#[verifier::ext_equal]
pub struct TaskView {
    pub kind: TaskKind,
    pub local: Seq<char>,
    pub remote: Seq<char>,
}

impl View for Task {
    type V = TaskView;

    closed spec fn view(&self) -> TaskView {
        TaskView { kind: self.kind, local: self.local@, remote: self.remote@ }
    }
}

/// The task that an entry of the remote directory `dir` gives rise to.
pub open spec fn task_of(dir: Seq<char>, entry: LocalEntry) -> TaskView {
    match entry {
        LocalEntry::File { name, local_path } => TaskView {
            kind: TaskKind::Send,
            local: local_path@,
            remote: joined_path(dir, name@),
        },
        LocalEntry::Dir { name, local_path } => TaskView {
            kind: TaskKind::List,
            local: local_path@,
            remote: joined_path(dir, name@),
        },
        LocalEntry::Unnamed => TaskView {
            kind: TaskKind::Fail(SyncError::InvalidName),
            local: Seq::<char>::empty(),
            remote: Seq::<char>::empty(),
        },
        LocalEntry::Unreadable => TaskView {
            kind: TaskKind::Fail(SyncError::ListFailed),
            local: Seq::<char>::empty(),
            remote: Seq::<char>::empty(),
        },
    }
}

/// The tasks of a listing, last entry first: tasks are taken from the end,
/// so the entries are treated in the order of the listing.
pub open spec fn tasks_of(dir: Seq<char>, entries: Seq<LocalEntry>) -> Seq<TaskView> {
    Seq::new(entries.len(), |i: int| task_of(dir, entries[entries.len() - 1 - i]))
}

/// Where a session stands.
#[derive(Debug, Clone, Copy, PartialEq, Eq, Structural)]
pub enum Phase {
    Fresh,
    /// Waiting to hear whether the local root exists.
    Probing,
    /// Waiting for a directory's listing.
    Listing,
    /// Waiting for a file's bytes.
    Reading,
    /// Waiting to hear whether a chunk was put on the queue.
    Emitting,
    /// Waiting for the pause after a chunk to end.
    Pausing,
    Finished,
}

/// What the driver reports.
pub enum SyncEvent {
    Begin,
    /// Whether the local root exists.
    Probed(bool),
    /// A directory's entries, or `None` where it could not be listed.
    Listed(Option<Vec<LocalEntry>>),
    /// A file's bytes, or `None` where it could not be read.
    Loaded(Option<Vec<u8>>),
    /// What came of emitting a chunk.
    Emitted(Result<(), SyncError>),
    Paused,
}

/// What the driver is asked to do.
pub enum SyncAction {
    /// Find out whether the local root exists.
    Probe(String),
    /// List a local directory.
    List(String),
    /// Read a local file.
    Load(String),
    /// Put a chunk on the connection's queue.
    Emit(ChunkData),
    /// Wait for so many milliseconds.
    Pause(u64),
    /// Stop: the pass has ended.
    Finish(Result<(), SyncError>),
}

/// An event as the contracts see it.
#[verifier::ext_equal]
pub enum EventView {
    Begin,
    Probed(bool),
    Listed(Option<Seq<LocalEntry>>),
    Loaded(Option<Seq<u8>>),
    Emitted(Result<(), SyncError>),
    Paused,
}

/// An action as the contracts see it.
#[verifier::ext_equal]
pub enum ActionView {
    Probe(Seq<char>),
    List(Seq<char>),
    Load(Seq<char>),
    Emit { path: Seq<char>, offset: nat, data: Seq<char> },
    Pause(u64),
    Finish(Result<(), SyncError>),
}

impl View for SyncEvent {
    type V = EventView;

    open spec fn view(&self) -> EventView {
        match *self {
            SyncEvent::Begin => EventView::Begin,
            SyncEvent::Probed(exists) => EventView::Probed(exists),
            SyncEvent::Listed(Some(entries)) => EventView::Listed(Some(entries@)),
            SyncEvent::Listed(None) => EventView::Listed(None),
            SyncEvent::Loaded(Some(data)) => EventView::Loaded(Some(data@)),
            SyncEvent::Loaded(None) => EventView::Loaded(None),
            SyncEvent::Emitted(outcome) => EventView::Emitted(outcome),
            SyncEvent::Paused => EventView::Paused,
        }
    }
}

impl View for SyncAction {
    type V = ActionView;

    open spec fn view(&self) -> ActionView {
        match *self {
            SyncAction::Probe(local) => ActionView::Probe(local@),
            SyncAction::List(local) => ActionView::List(local@),
            SyncAction::Load(local) => ActionView::Load(local@),
            SyncAction::Emit(chunk) => ActionView::Emit {
                path: chunk.path@,
                offset: chunk.offset as nat,
                data: chunk.data@,
            },
            SyncAction::Pause(millis) => ActionView::Pause(millis),
            SyncAction::Finish(outcome) => ActionView::Finish(outcome),
        }
    }
}

/// The state of a session.
#[verifier::ext_equal]
pub struct SessionState {
    pub phase: Phase,
    /// The configured local root.
    pub root: Option<Seq<char>>,
    /// The entries still to be treated; the next one is the last.
    pub tasks: Seq<TaskView>,
    /// The remote path of the directory whose listing is awaited.
    pub listing: Seq<char>,
    /// The remote path of the file being read or sent.
    pub path: Seq<char>,
    /// The bytes of the file being sent.
    pub data: Seq<u8>,
    /// How many chunks of the file have been handed out.
    pub sent: nat,
}

/// The state in which a session begins.
pub open spec fn fresh(root: Option<Seq<char>>) -> SessionState {
    SessionState {
        phase: Phase::Fresh,
        root,
        tasks: Seq::<TaskView>::empty(),
        listing: Seq::<char>::empty(),
        path: Seq::<char>::empty(),
        data: Seq::<u8>::empty(),
        sent: 0,
    }
}

/// Ends the pass with `outcome`.
pub open spec fn finish(state: SessionState, outcome: Result<(), SyncError>) -> (
    SessionState,
    ActionView,
) {
    (SessionState { phase: Phase::Finished, ..state }, ActionView::Finish(outcome))
}

/// Takes up the next task, or ends the pass where none is left.
pub open spec fn dispatch(state: SessionState) -> (SessionState, ActionView) {
    if state.tasks.len() == 0 {
        finish(state, Ok(()))
    } else {
        let task = state.tasks.last();
        let rest = SessionState { tasks: state.tasks.drop_last(), ..state };
        match task.kind {
            TaskKind::List => (
                SessionState { phase: Phase::Listing, listing: task.remote, ..rest },
                ActionView::List(task.local),
            ),
            TaskKind::Send => (
                SessionState {
                    phase: Phase::Reading,
                    path: task.remote,
                    data: Seq::<u8>::empty(),
                    sent: 0,
                    ..rest
                },
                ActionView::Load(task.local),
            ),
            TaskKind::Fail(error) => finish(rest, Err(error)),
        }
    }
}

/// Hands out the next chunk of the file being sent, or takes up the next
/// task where the file has been sent whole.
pub open spec fn pump(state: SessionState) -> (SessionState, ActionView) {
    if state.sent < chunk_count(state.data.len()) {
        (
            SessionState { phase: Phase::Emitting, sent: state.sent + 1, ..state },
            ActionView::Emit {
                path: state.path,
                offset: chunk_start(state.sent),
                data: base64_standard(chunk_bytes(state.data, state.sent)),
            },
        )
    } else {
        dispatch(state)
    }
}

/// The step of the session: the state and the action that follow a state
/// and an event.
pub open spec fn next(state: SessionState, event: EventView) -> (SessionState, ActionView) {
    match (state.phase, event) {
        (Phase::Fresh, EventView::Begin) => match state.root {
            Some(root) => (
                SessionState { phase: Phase::Probing, ..state },
                ActionView::Probe(root),
            ),
            None => finish(state, Ok(())),
        },
        (Phase::Probing, EventView::Probed(exists)) => match state.root {
            Some(root) => if exists {
                (
                    SessionState { phase: Phase::Listing, listing: seq!['/'], ..state },
                    ActionView::List(root),
                )
            } else {
                finish(state, Err(SyncError::RootMissing))
            },
            None => finish(state, Err(SyncError::OutOfTurn)),
        },
        (Phase::Listing, EventView::Listed(Some(entries))) => dispatch(
            SessionState { tasks: state.tasks + tasks_of(state.listing, entries), ..state },
        ),
        (Phase::Listing, EventView::Listed(None)) => finish(state, Err(SyncError::ListFailed)),
        (Phase::Reading, EventView::Loaded(Some(data))) => pump(
            SessionState { data, sent: 0, ..state },
        ),
        (Phase::Reading, EventView::Loaded(None)) => finish(state, Err(SyncError::ReadFailed)),
        (Phase::Emitting, EventView::Emitted(Ok(()))) => (
            SessionState { phase: Phase::Pausing, ..state },
            ActionView::Pause(CHUNK_PAUSE_MS),
        ),
        (Phase::Emitting, EventView::Emitted(Err(error))) => finish(state, Err(error)),
        (Phase::Pausing, EventView::Paused) => pump(state),
        _ => finish(state, Err(SyncError::OutOfTurn)),
    }
}

spec fn task_views(tasks: Seq<Task>) -> Seq<TaskView> {
    tasks.map_values(|task: Task| task@)
}

fn task_for(dir: &String, entry: LocalEntry) -> (task: Task)
    ensures
        task@ == task_of(dir@, entry),
{
    match entry {
        LocalEntry::File { name, local_path } => Task {
            kind: TaskKind::Send,
            local: local_path,
            remote: join_remote(dir, &name),
        },
        LocalEntry::Dir { name, local_path } => Task {
            kind: TaskKind::List,
            local: local_path,
            remote: join_remote(dir, &name),
        },
        LocalEntry::Unnamed => Task {
            kind: TaskKind::Fail(SyncError::InvalidName),
            local: String::new(),
            remote: String::new(),
        },
        LocalEntry::Unreadable => Task {
            kind: TaskKind::Fail(SyncError::ListFailed),
            local: String::new(),
            remote: String::new(),
        },
    }
}

fn push_tasks(tasks: &mut Vec<Task>, dir: &String, entries: Vec<LocalEntry>)
    ensures
        task_views(final(tasks)@) == task_views(old(tasks)@) + tasks_of(dir@, entries@),
{
    let mut entries = entries;
    let ghost listed = entries@;
    while entries.len() > 0
        invariant
            entries@.len() <= listed.len(),
            entries@ == listed.take(entries@.len() as int),
            task_views(tasks@) == task_views(old(tasks)@) + tasks_of(dir@, listed).take(
                listed.len() - entries@.len(),
            ),
        decreases entries@.len(),
    {
        let ghost before = task_views(tasks@);
        let ghost left = entries@.len();
        let popped = entries.pop();
        match popped {
            Some(entry) => {
                let task = task_for(dir, entry);
                tasks.push(task);
                assert(task_views(tasks@) =~= before.push(task@));
                assert(task_views(tasks@) =~= task_views(old(tasks)@) + tasks_of(
                    dir@,
                    listed,
                ).take(listed.len() - left + 1));
            },
            None => {},
        }
    }
}

/// The local root as a session holds it.
pub open spec fn root_of(local_path: Option<String>) -> Option<Seq<char>> {
    match local_path {
        Some(path) => Some(path@),
        None => None,
    }
}

/// One sync pass.
pub struct SyncSession {
    phase: Phase,
    root: Option<String>,
    tasks: Vec<Task>,
    listing: String,
    transfer: FileTransfer,
}

impl View for SyncSession {
    type V = SessionState;

    closed spec fn view(&self) -> SessionState {
        SessionState {
            phase: self.phase,
            root: root_of(self.root),
            tasks: task_views(self.tasks@),
            listing: self.listing@,
            path: self.transfer.path(),
            data: self.transfer.bytes(),
            sent: self.transfer.handed_out(),
        }
    }
}

impl SyncSession {
    /// A session for the local root `root`; without a root there is
    /// nothing to sync.
    pub fn new(root: Option<String>) -> (session: Self)
        ensures
            session@ == fresh(root_of(root)),
    {
        SyncSession {
            phase: Phase::Fresh,
            root,
            tasks: Vec::new(),
            listing: String::new(),
            transfer: FileTransfer::new(String::new(), Vec::new()),
        }
    }

    /// Where the session stands.
    pub fn phase(&self) -> (phase: Phase)
        ensures
            phase == self@.phase,
    {
        self.phase
    }

    fn finish(&mut self, outcome: Result<(), SyncError>) -> (action: SyncAction)
        ensures
            final(self)@ == finish(old(self)@, outcome).0,
            action@ == finish(old(self)@, outcome).1,
    {
        self.phase = Phase::Finished;
        SyncAction::Finish(outcome)
    }

    fn dispatch(&mut self) -> (action: SyncAction)
        ensures
            final(self)@ == dispatch(old(self)@).0,
            action@ == dispatch(old(self)@).1,
    {
        match self.tasks.pop() {
            None => self.finish(Ok(())),
            Some(task) => {
                match task.kind {
                    TaskKind::List => {
                        self.phase = Phase::Listing;
                        self.listing = task.remote;
                        SyncAction::List(task.local)
                    },
                    TaskKind::Send => {
                        self.phase = Phase::Reading;
                        self.transfer = FileTransfer::new(task.remote, Vec::new());
                        SyncAction::Load(task.local)
                    },
                    TaskKind::Fail(error) => self.finish(Err(error)),
                }
            },
        }
    }

    fn pump(&mut self) -> (action: SyncAction)
        ensures
            final(self)@ == pump(old(self)@).0,
            action@ == pump(old(self)@).1,
    {
        match self.transfer.next_chunk() {
            Some(chunk) => {
                self.phase = Phase::Emitting;
                SyncAction::Emit(chunk)
            },
            None => self.dispatch(),
        }
    }

    /// Takes an event and says what is to be done next.
    pub fn step(&mut self, event: SyncEvent) -> (action: SyncAction)
        ensures
            final(self)@ == next(old(self)@, event@).0,
            action@ == next(old(self)@, event@).1,
    {
        match self.phase {
            Phase::Fresh => match event {
                SyncEvent::Begin => match &self.root {
                    Some(root) => {
                        let local = root.clone();
                        self.phase = Phase::Probing;
                        SyncAction::Probe(local)
                    },
                    None => self.finish(Ok(())),
                },
                _ => self.finish(Err(SyncError::OutOfTurn)),
            },
            Phase::Probing => match event {
                SyncEvent::Probed(exists) => match &self.root {
                    Some(root) => {
                        let local = root.clone();
                        if exists {
                            proof {
                                reveal_strlit("/");
                            }
                            self.phase = Phase::Listing;
                            self.listing = String::from_str("/");
                            SyncAction::List(local)
                        } else {
                            self.finish(Err(SyncError::RootMissing))
                        }
                    },
                    None => self.finish(Err(SyncError::OutOfTurn)),
                },
                _ => self.finish(Err(SyncError::OutOfTurn)),
            },
            Phase::Listing => match event {
                SyncEvent::Listed(Some(entries)) => {
                    push_tasks(&mut self.tasks, &self.listing, entries);
                    self.dispatch()
                },
                SyncEvent::Listed(None) => self.finish(Err(SyncError::ListFailed)),
                _ => self.finish(Err(SyncError::OutOfTurn)),
            },
            Phase::Reading => match event {
                SyncEvent::Loaded(Some(data)) => {
                    let mut transfer = FileTransfer::new(String::new(), Vec::new());
                    core::mem::swap(&mut self.transfer, &mut transfer);
                    self.transfer = FileTransfer::new(transfer.into_path(), data);
                    self.pump()
                },
                SyncEvent::Loaded(None) => self.finish(Err(SyncError::ReadFailed)),
                _ => self.finish(Err(SyncError::OutOfTurn)),
            },
            Phase::Emitting => match event {
                SyncEvent::Emitted(Ok(())) => {
                    self.phase = Phase::Pausing;
                    SyncAction::Pause(CHUNK_PAUSE_MS)
                },
                SyncEvent::Emitted(Err(error)) => self.finish(Err(error)),
                _ => self.finish(Err(SyncError::OutOfTurn)),
            },
            Phase::Pausing => match event {
                SyncEvent::Paused => self.pump(),
                _ => self.finish(Err(SyncError::OutOfTurn)),
            },
            Phase::Finished => self.finish(Err(SyncError::OutOfTurn)),
        }
    }
}

impl SDSyncEngine {
    /// A session over the engine's local root.
    pub fn begin(&self) -> (session: SyncSession)
        ensures
            session@ == fresh(root_of(self.settings().local_path)),
    {
        match self.local_root() {
            Some(path) => SyncSession::new(Some(path.clone())),
            None => SyncSession::new(None),
        }
    }

    /// Steps the session. Where the step asks for a chunk to be emitted,
    /// the chunk is put on the engine's queue and the session is stepped
    /// once more with what came of it, so the driver is never asked to
    /// emit.
    pub fn advance(&self, session: &mut SyncSession, event: SyncEvent) -> (action: SyncAction)
        ensures
            action@ !is Emit,
            next(old(session)@, event@).1 !is Emit ==> final(session)@ == next(
                old(session)@,
                event@,
            ).0 && action@ == next(old(session)@, event@).1,
            next(old(session)@, event@).1 is Emit ==> exists|outcome: Result<(), SyncError>|
                final(session)@ == #[trigger] next(
                    next(old(session)@, event@).0,
                    EventView::Emitted(outcome),
                ).0 && action@ == next(
                    next(old(session)@, event@).0,
                    EventView::Emitted(outcome),
                ).1,
    {
        let asked = session.step(event);
        match asked {
            SyncAction::Emit(chunk) => {
                proof {
                    emit_only_when_emitting(old(session)@, event@);
                }
                let outcome = self.send_chunk(&chunk);
                session.step(SyncEvent::Emitted(outcome))
            },
            other => other,
        }
    }
}

/// A step that asks for a chunk to be emitted leaves the session waiting
/// for the outcome, and what follows the outcome is a pause or the end.
pub proof fn emit_only_when_emitting(state: SessionState, event: EventView)
    requires
        next(state, event).1 is Emit,
    ensures
        next(state, event).0.phase == Phase::Emitting,
        forall|outcome: Result<(), SyncError>|
            !(#[trigger] next(next(state, event).0, EventView::Emitted(outcome)).1 is Emit),
{
}

/// What taking up a task asks of the driver.
pub open spec fn asked_by(task: TaskView) -> ActionView {
    match task.kind {
        TaskKind::List => ActionView::List(task.local),
        TaskKind::Send => ActionView::Load(task.local),
        TaskKind::Fail(error) => ActionView::Finish(Err(error)),
    }
}

/// The entries of a listing are treated in the order of the listing, and
/// before anything that was waiting: the first entry is taken up at once,
/// and the others wait on top of the tasks that were there. An empty
/// listing leaves the tasks as they were and the next of them is taken
/// up.
pub proof fn entries_are_treated_in_order(state: SessionState, entries: Seq<LocalEntry>)
    requires
        state.phase == Phase::Listing,
    ensures
        entries.len() > 0 ==> next(state, EventView::Listed(Some(entries))).1 == asked_by(
            task_of(state.listing, entries[0]),
        ),
        entries.len() > 0 ==> next(state, EventView::Listed(Some(entries))).0.tasks == state.tasks
            + tasks_of(state.listing, entries.drop_first()),
        entries.len() == 0 ==> next(state, EventView::Listed(Some(entries))) == dispatch(state),
{
    if entries.len() > 0 {
        let waiting = state.tasks + tasks_of(state.listing, entries);
        assert(waiting.last() == task_of(state.listing, entries[0]));
        assert(waiting.drop_last() =~= state.tasks + tasks_of(
            state.listing,
            entries.drop_first(),
        ));
    } else {
        assert(state.tasks + tasks_of(state.listing, entries) =~= state.tasks);
    }
}

/// A chunk that the queue does not take ends the pass with the error, and
/// the chunks that were still to come are not emitted.
pub proof fn send_failure_ends_pass(state: SessionState, error: SyncError, event: EventView)
    requires
        state.phase == Phase::Emitting,
    ensures
        next(state, EventView::Emitted(Err(error))).1 == ActionView::Finish(Err(error)),
        next(state, EventView::Emitted(Err(error))).0.phase == Phase::Finished,
        !(next(next(state, EventView::Emitted(Err(error))).0, event).1 is Emit),
{
}

/// A finished session stays finished and asks for nothing more.
pub proof fn finished_is_final(state: SessionState, event: EventView)
    requires
        state.phase == Phase::Finished,
    ensures
        next(state, event).0 == state,
        next(state, event).1 == ActionView::Finish(Err(SyncError::OutOfTurn)),
{
}

} // verus!
