//! A whole sync pass: what a session emits when its driver answers from
//! a given local tree and the queue takes every chunk.

use vstd::prelude::*;
use crate::session::{
    dispatch, fresh, next, pump, task_of, tasks_of, ActionView, EventView, LocalEntry, Phase,
    SessionState, TaskView,
};
use crate::sync::{
    base64_standard, chunk_bytes, chunk_count, chunk_start, joined_path, SyncError,
    CHUNK_PAUSE_MS,
};

verus! {

/// What the driver finds in the local tree: the listing of each
/// directory and the bytes of each file, by local path.
pub struct LocalTree {
    pub dirs: Map<Seq<char>, Seq<LocalEntry>>,
    pub files: Map<Seq<char>, Seq<u8>>,
}

/// The event with which a driver answers an action, going by the tree.
/// Every chunk is taken by the queue.
pub open spec fn answer(tree: LocalTree, action: ActionView) -> EventView {
    match action {
        ActionView::Probe(local) => EventView::Probed(tree.dirs.contains_key(local)),
        ActionView::List(local) => EventView::Listed(
            if tree.dirs.contains_key(local) {
                Some(tree.dirs[local])
            } else {
                None
            },
        ),
        ActionView::Load(local) => EventView::Loaded(
            if tree.files.contains_key(local) {
                Some(tree.files[local])
            } else {
                None
            },
        ),
        ActionView::Emit { .. } => EventView::Emitted(Ok(())),
        ActionView::Pause(_) => EventView::Paused,
        ActionView::Finish(_) => EventView::Paused,
    }
}

/// What a pass comes to: the chunks emitted, in order, and the outcome,
/// or `None` where the pass has not ended yet.
pub struct Course {
    pub emitted: Seq<ActionView>,
    pub outcome: Option<Result<(), SyncError>>,
}

/// `course`, after `action` has been carried out before it.
pub open spec fn after(action: ActionView, course: Course) -> Course {
    if action is Emit {
        Course { emitted: seq![action] + course.emitted, outcome: course.outcome }
    } else {
        course
    }
}

/// The course of a session from the point at which it has asked for
/// `action`, over at most `steps` further steps.
pub open spec fn run(tree: LocalTree, state: SessionState, action: ActionView, steps: nat) -> Course
    decreases steps,
{
    match action {
        ActionView::Finish(outcome) => Course {
            emitted: Seq::<ActionView>::empty(),
            outcome: Some(outcome),
        },
        _ => if steps == 0 {
            Course { emitted: Seq::<ActionView>::empty(), outcome: None }
        } else {
            let step = next(state, answer(tree, action));
            after(action, run(tree, step.0, step.1, (steps - 1) as nat))
        },
    }
}

/// The course of a fresh session over the local root `root`.
pub open spec fn pass(tree: LocalTree, root: Option<Seq<char>>, steps: nat) -> Course {
    let step = next(fresh(root), EventView::Begin);
    run(tree, step.0, step.1, steps)
}

/// Chunk `index` of a file, as it is emitted.
pub open spec fn chunk_emitted(path: Seq<char>, data: Seq<u8>, index: nat) -> ActionView {
    ActionView::Emit {
        path,
        offset: chunk_start(index),
        data: base64_standard(chunk_bytes(data, index)),
    }
}

/// The chunks of a file from chunk `from` on, in order.
pub open spec fn file_chunks(path: Seq<char>, data: Seq<u8>, from: nat) -> Seq<ActionView> {
    Seq::new(
        (chunk_count(data.len()) - from) as nat,
        |i: int| chunk_emitted(path, data, (from + i) as nat),
    )
}

/// What walking part of the tree comes to: the chunks emitted, in
/// order, and the error at which the walk broke off, if it did.
pub struct Walk {
    pub emitted: Seq<ActionView>,
    pub failure: Option<SyncError>,
}

/// A walk that emits nothing and breaks off with `error`.
pub open spec fn broken(error: SyncError) -> Walk {
    Walk { emitted: Seq::<ActionView>::empty(), failure: Some(error) }
}

/// The walk of an entry of the remote directory `dir`: a file's chunks,
/// or the walk of a directory's entries; an entry that cannot be read,
/// listed or named breaks the walk off. `None` where the entry holds
/// directories nested deeper than `depth`.
pub open spec fn entry_walk(tree: LocalTree, dir: Seq<char>, entry: LocalEntry, depth: nat) -> Option<
    Walk,
>
    decreases depth, 0nat, 0nat,
{
    match entry {
        LocalEntry::File { name, local_path } => Some(
            if tree.files.contains_key(local_path@) {
                Walk {
                    emitted: file_chunks(joined_path(dir, name@), tree.files[local_path@], 0),
                    failure: None,
                }
            } else {
                broken(SyncError::ReadFailed)
            },
        ),
        LocalEntry::Dir { name, local_path } => if !tree.dirs.contains_key(local_path@) {
            Some(broken(SyncError::ListFailed))
        } else if depth > 0 {
            entries_walk(
                tree,
                joined_path(dir, name@),
                tree.dirs[local_path@],
                (depth - 1) as nat,
            )
        } else {
            None
        },
        LocalEntry::Unnamed => Some(broken(SyncError::InvalidName)),
        LocalEntry::Unreadable => Some(broken(SyncError::ListFailed)),
    }
}

/// The walk of the entries of the remote directory `dir`: entry by
/// entry, depth first, up to the first entry that breaks the walk off.
pub open spec fn entries_walk(
    tree: LocalTree,
    dir: Seq<char>,
    entries: Seq<LocalEntry>,
    depth: nat,
) -> Option<Walk>
    decreases depth, 1nat, entries.len(),
{
    if entries.len() == 0 {
        Some(Walk { emitted: Seq::<ActionView>::empty(), failure: None })
    } else {
        match entry_walk(tree, dir, entries.first(), depth) {
            Some(first) => if first.failure is Some {
                Some(first)
            } else {
                match entries_walk(tree, dir, entries.drop_first(), depth) {
                    Some(others) => Some(
                        Walk { emitted: first.emitted + others.emitted, failure: others.failure },
                    ),
                    None => None,
                }
            },
            None => None,
        }
    }
}

/// The outcome of a pass whose walk came to `walk`.
pub open spec fn outcome_of(walk: Walk) -> Result<(), SyncError> {
    match walk.failure {
        Some(error) => Err(error),
        None => Ok(()),
    }
}

/// The course of a pass whose walk came to `walk`.
pub open spec fn course_of(walk: Walk) -> Course {
    Course { emitted: walk.emitted, outcome: Some(outcome_of(walk)) }
}

/// How many steps the chunks of a file take from chunk `from` on: one to
/// emit each chunk and one to pause after it.
pub open spec fn file_steps(data: Seq<u8>, from: nat) -> nat {
    (2 * (chunk_count(data.len()) - from)) as nat
}

/// How many steps an entry takes: one to ask for it, and those of what
/// is in it.
pub open spec fn entry_steps(tree: LocalTree, entry: LocalEntry, depth: nat) -> nat
    decreases depth, 0nat, 0nat,
{
    match entry {
        LocalEntry::File { name, local_path } => if tree.files.contains_key(local_path@) {
            1 + file_steps(tree.files[local_path@], 0)
        } else {
            1
        },
        LocalEntry::Dir { name, local_path } => if tree.dirs.contains_key(local_path@) && depth
            > 0 {
            1 + entries_steps(tree, tree.dirs[local_path@], (depth - 1) as nat)
        } else {
            1
        },
        LocalEntry::Unnamed => 0,
        LocalEntry::Unreadable => 0,
    }
}

/// How many steps the entries of a directory take, up to the first that
/// breaks the walk off.
pub open spec fn entries_steps(tree: LocalTree, entries: Seq<LocalEntry>, depth: nat) -> nat
    decreases depth, 1nat, entries.len(),
{
    if entries.len() == 0 {
        0
    } else {
        entry_steps(tree, entries.first(), depth) + entries_steps(
            tree,
            entries.drop_first(),
            depth,
        )
    }
}

/// `course`, after the chunks `emitted` have gone out before it.
pub open spec fn preceded(emitted: Seq<ActionView>, course: Course) -> Course {
    Course { emitted: emitted + course.emitted, outcome: course.outcome }
}

proof fn dispatch_ignores_phase(state: SessionState, phase: Phase)
    ensures
        dispatch(SessionState { phase, ..state }) == dispatch(state),
{
}

/// From the point at which a file's bytes are at hand, the session emits
/// the file's remaining chunks in order, pausing after each, and then
/// takes up its next task.
proof fn file_run(tree: LocalTree, state: SessionState, steps: nat)
    requires
        state.sent <= chunk_count(state.data.len()),
    ensures
        run(tree, pump(state).0, pump(state).1, file_steps(state.data, state.sent) + steps)
            == preceded(
            file_chunks(state.path, state.data, state.sent),
            run(
                tree,
                dispatch(SessionState { sent: chunk_count(state.data.len()), ..state }).0,
                dispatch(SessionState { sent: chunk_count(state.data.len()), ..state }).1,
                steps,
            ),
        ),
    decreases chunk_count(state.data.len()) - state.sent,
{
    let count = chunk_count(state.data.len());
    let done = SessionState { sent: count, ..state };
    let rest = run(tree, dispatch(done).0, dispatch(done).1, steps);
    if state.sent == count {
        assert(preceded(file_chunks(state.path, state.data, state.sent), rest).emitted
            =~= rest.emitted);
    } else {
        let chunk = chunk_emitted(state.path, state.data, state.sent);
        let emitting = SessionState { phase: Phase::Emitting, sent: state.sent + 1, ..state };
        let pausing = SessionState { phase: Phase::Pausing, ..emitting };
        let budget = file_steps(state.data, state.sent) + steps;
        assert(next(emitting, answer(tree, chunk)) == (
            pausing,
            ActionView::Pause(CHUNK_PAUSE_MS),
        ));
        assert(run(tree, emitting, chunk, budget) == after(
            chunk,
            run(tree, pump(pausing).0, pump(pausing).1, (budget - 2) as nat),
        )) by {
            assert(run(tree, emitting, chunk, budget) == after(
                chunk,
                run(
                    tree,
                    pausing,
                    ActionView::Pause(CHUNK_PAUSE_MS),
                    (budget - 1) as nat,
                ),
            ));
        }
        file_run(tree, pausing, steps);
        dispatch_ignores_phase(done, Phase::Pausing);
        assert(SessionState { sent: count, ..pausing } == SessionState {
            phase: Phase::Pausing,
            ..done
        });
        assert(file_chunks(state.path, state.data, state.sent) =~= seq![chunk] + file_chunks(
            state.path,
            state.data,
            state.sent + 1,
        ));
        assert(preceded(file_chunks(state.path, state.data, state.sent), rest).emitted
            =~= after(
            chunk,
            preceded(file_chunks(state.path, state.data, state.sent + 1), rest),
        ).emitted);
    }
}

proof fn tasks_of_first(dir: Seq<char>, entries: Seq<LocalEntry>)
    requires
        entries.len() > 0,
    ensures
        tasks_of(dir, entries) == tasks_of(dir, entries.drop_first()).push(
            task_of(dir, entries.first()),
        ),
{
    assert(tasks_of(dir, entries) =~= tasks_of(dir, entries.drop_first()).push(
        task_of(dir, entries.first()),
    ));
}

/// With the entries of a listing on top of its tasks, the session walks
/// those entries. Where the walk breaks off, the pass ends with the
/// walk's error. Where it does not, the session goes on with the tasks
/// that were waiting, in the state that is handed back.
proof fn entries_run(
    tree: LocalTree,
    state: SessionState,
    waiting: Seq<TaskView>,
    dir: Seq<char>,
    entries: Seq<LocalEntry>,
    depth: nat,
    steps: nat,
) -> (rest: SessionState)
    requires
        state.tasks == waiting + tasks_of(dir, entries),
        entries_walk(tree, dir, entries, depth) is Some,
    ensures
        entries_walk(tree, dir, entries, depth).unwrap().failure is None ==> rest.tasks
            == waiting && run(
            tree,
            dispatch(state).0,
            dispatch(state).1,
            entries_steps(tree, entries, depth) + steps,
        ) == preceded(
            entries_walk(tree, dir, entries, depth).unwrap().emitted,
            run(tree, dispatch(rest).0, dispatch(rest).1, steps),
        ),
        entries_walk(tree, dir, entries, depth).unwrap().failure is Some ==> run(
            tree,
            dispatch(state).0,
            dispatch(state).1,
            entries_steps(tree, entries, depth) + steps,
        ) == course_of(entries_walk(tree, dir, entries, depth).unwrap()),
    decreases depth, entries.len(),
{
    if entries.len() == 0 {
        let rest = run(tree, dispatch(state).0, dispatch(state).1, steps);
        assert(preceded(Seq::<ActionView>::empty(), rest).emitted =~= rest.emitted);
        state
    } else {
        let entry = entries.first();
        let others = entries.drop_first();
        let below = waiting + tasks_of(dir, others);
        tasks_of_first(dir, entries);
        assert(state.tasks.drop_last() =~= below);
        let first = entry_walk(tree, dir, entry, depth).unwrap();
        let budget = entries_steps(tree, entries, depth) + steps;
        let later = entries_steps(tree, others, depth) + steps;
        assert(budget == entry_steps(tree, entry, depth) + later);
        let asked = dispatch(state).1;
        let next_step = next(dispatch(state).0, answer(tree, asked));
        match entry {
            LocalEntry::File { name, local_path } => {
                assert(run(tree, dispatch(state).0, asked, budget) == run(
                    tree,
                    next_step.0,
                    next_step.1,
                    (budget - 1) as nat,
                ));
                if tree.files.contains_key(local_path@) {
                    let data = tree.files[local_path@];
                    let loaded = SessionState { data, sent: 0, ..dispatch(state).0 };
                    file_run(tree, loaded, later);
                    let sent = SessionState { sent: chunk_count(data.len()), ..loaded };
                    let rest = entries_run(tree, sent, waiting, dir, others, depth, steps);
                    let walked = entries_walk(tree, dir, others, depth).unwrap();
                    if walked.failure is None {
                        let tail = run(tree, dispatch(rest).0, dispatch(rest).1, steps);
                        assert(preceded(first.emitted, preceded(walked.emitted, tail)).emitted
                            =~= preceded(first.emitted + walked.emitted, tail).emitted);
                    }
                    rest
                } else {
                    state
                }
            },
            LocalEntry::Dir { name, local_path } => {
                assert(run(tree, dispatch(state).0, asked, budget) == run(
                    tree,
                    next_step.0,
                    next_step.1,
                    (budget - 1) as nat,
                ));
                if tree.dirs.contains_key(local_path@) {
                    let children = tree.dirs[local_path@];
                    let listing = dispatch(state).0;
                    let listed = SessionState {
                        tasks: listing.tasks + tasks_of(listing.listing, children),
                        ..listing
                    };
                    let back = entries_run(
                        tree,
                        listed,
                        below,
                        joined_path(dir, name@),
                        children,
                        (depth - 1) as nat,
                        later,
                    );
                    if first.failure is None {
                        let rest = entries_run(tree, back, waiting, dir, others, depth, steps);
                        let walked = entries_walk(tree, dir, others, depth).unwrap();
                        if walked.failure is None {
                            let tail = run(tree, dispatch(rest).0, dispatch(rest).1, steps);
                            assert(preceded(first.emitted, preceded(walked.emitted, tail)).emitted
                                =~= preceded(first.emitted + walked.emitted, tail).emitted);
                        }
                        rest
                    } else {
                        state
                    }
                } else {
                    state
                }
            },
            LocalEntry::Unnamed => state,
            LocalEntry::Unreadable => state,
        }
    }
}

/// How many steps a pass over a root takes: one to probe the root, one
/// to list it, and those of its entries.
pub open spec fn pass_steps(tree: LocalTree, root: Seq<char>, depth: nat) -> nat {
    2 + entries_steps(tree, tree.dirs[root], depth)
}

/// A pass over a local tree walks the root's entries in the order of the
/// listings and depth first, and emits each file's chunks in the order of
/// their offsets. It ends in success where everything could be listed and
/// read, and else with the error of the first entry that could not, after
/// the chunks of what came before it.
pub proof fn pass_walks_the_tree(tree: LocalTree, root: Seq<char>, depth: nat, spare: nat)
    requires
        tree.dirs.contains_key(root),
        entries_walk(tree, seq!['/'], tree.dirs[root], depth) is Some,
    ensures
        pass(tree, Some(root), pass_steps(tree, root, depth) + spare) == course_of(
            entries_walk(tree, seq!['/'], tree.dirs[root], depth).unwrap(),
        ),
{
    let entries = tree.dirs[root];
    let walk = entries_walk(tree, seq!['/'], entries, depth).unwrap();
    let budget = pass_steps(tree, root, depth) + spare;
    let probing = next(fresh(Some(root)), EventView::Begin).0;
    let listing = next(probing, answer(tree, ActionView::Probe(root))).0;
    let listed = SessionState {
        tasks: listing.tasks + tasks_of(listing.listing, entries),
        ..listing
    };
    assert(run(tree, probing, ActionView::Probe(root), budget) == run(
        tree,
        dispatch(listed).0,
        dispatch(listed).1,
        (budget - 2) as nat,
    )) by {
        assert(run(tree, probing, ActionView::Probe(root), budget) == run(
            tree,
            listing,
            ActionView::List(root),
            (budget - 1) as nat,
        ));
    }
    let rest = entries_run(
        tree,
        listed,
        Seq::<TaskView>::empty(),
        seq!['/'],
        entries,
        depth,
        spare,
    );
    if walk.failure is None {
        let end = run(tree, dispatch(rest).0, dispatch(rest).1, spare);
        assert(end == Course { emitted: Seq::<ActionView>::empty(), outcome: Some(Ok(())) });
        assert(preceded(walk.emitted, end).emitted =~= walk.emitted);
    }
}

/// Without a local root a pass emits nothing and ends in success.
pub proof fn pass_without_root(tree: LocalTree, steps: nat)
    ensures
        pass(tree, None, steps) == (Course {
            emitted: Seq::<ActionView>::empty(),
            outcome: Some(Ok(())),
        }),
{
}

/// With a local root that does not exist a pass emits nothing and ends
/// with `RootMissing`.
pub proof fn pass_with_missing_root(tree: LocalTree, root: Seq<char>, steps: nat)
    requires
        !tree.dirs.contains_key(root),
        steps > 0,
    ensures
        pass(tree, Some(root), steps) == (Course {
            emitted: Seq::<ActionView>::empty(),
            outcome: Some(Err(SyncError::RootMissing)),
        }),
{
    let probing = next(fresh(Some(root)), EventView::Begin).0;
    assert(next(probing, answer(tree, ActionView::Probe(root))).1 == ActionView::Finish(
        Err(SyncError::RootMissing),
    ));
    assert(run(tree, probing, ActionView::Probe(root), steps) == after(
        ActionView::Probe(root),
        run(
            tree,
            next(probing, answer(tree, ActionView::Probe(root))).0,
            next(probing, answer(tree, ActionView::Probe(root))).1,
            (steps - 1) as nat,
        ),
    ));
}

/// A pass over a root that holds one file of `S` bytes emits
/// `ceil(S / 1024)` chunks and ends in success. Chunk `i` is bound for
/// the file's name below `/`, starts at offset `1024 * i` and carries, in
/// base64, the file's bytes from that offset on, 1024 of them or what is
/// left.
pub proof fn pass_sends_a_file(
    tree: LocalTree,
    root: Seq<char>,
    name: String,
    local_path: String,
    spare: nat,
)
    requires
        tree.dirs.contains_key(root),
        tree.dirs[root] == seq![LocalEntry::File { name, local_path }],
        tree.files.contains_key(local_path@),
    ensures
        pass(tree, Some(root), pass_steps(tree, root, 0) + spare).outcome == Some(
            Ok::<(), SyncError>(()),
        ),
        pass(tree, Some(root), pass_steps(tree, root, 0) + spare).emitted.len() == chunk_count(
            tree.files[local_path@].len(),
        ),
        forall|i: int|
            0 <= i < chunk_count(tree.files[local_path@].len()) ==> (#[trigger] pass(
                tree,
                Some(root),
                pass_steps(tree, root, 0) + spare,
            ).emitted[i]) == (ActionView::Emit {
                path: seq!['/'] + name@,
                offset: (1024 * i) as nat,
                data: base64_standard(chunk_bytes(tree.files[local_path@], i as nat)),
            }),
{
    let entries = tree.dirs[root];
    let data = tree.files[local_path@];
    let chunks = file_chunks(joined_path(seq!['/'], name@), data, 0);
    assert(entries.first() == LocalEntry::File { name, local_path });
    assert(entries.drop_first() =~= Seq::<LocalEntry>::empty());
    assert(entry_walk(tree, seq!['/'], entries.first(), 0) == Some(
        Walk { emitted: chunks, failure: None },
    ));
    assert(entries_walk(tree, seq!['/'], entries.drop_first(), 0) == Some(
        Walk { emitted: Seq::<ActionView>::empty(), failure: None },
    ));
    assert(entries_walk(tree, seq!['/'], entries, 0).unwrap().emitted =~= chunks);
    pass_walks_the_tree(tree, root, 0, spare);
}

} // verus!
