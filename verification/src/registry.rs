//! The registry of live connections: at most one per endpoint name, each
//! holding the sending half of that connection's outbound queue.

use vstd::prelude::*;
use std::sync::mpsc::Sender;
use crate::wire::terminate;

verus! {

/// `std::sync::mpsc::Sender`, the sending half of a queue. Nothing is
/// known of what it holds.
#[verifier::external_type_specification]
#[verifier::external_body]
#[verifier::reject_recursive_types(T)]
pub struct ExSender<T>(Sender<T>);

/// Calls `Sender::send` and reports whether the frame was taken. The
/// outcome depends on whether the queue's receiver is still alive, so
/// nothing is claimed about it.
#[verifier::external_body]
pub(crate) fn channel_send(sender: &Sender<String>, frame: String) -> (delivered: bool) {
    sender.send(frame).is_ok()
}

/// The sending half of one connection's outbound queue.
pub struct DeviceConnection {
    pub sender: Sender<String>,
}

struct Entry {
    name: String,
    connection: DeviceConnection,
}

/// The names held by a list of strings.
pub open spec fn name_set(names: Seq<String>) -> Set<Seq<char>> {
    Set::new(|name: Seq<char>| exists|i: int| 0 <= i < names.len() && (#[trigger] names[i])@ == name)
}

/// No name occurs twice in the list.
pub open spec fn distinct_names(names: Seq<String>) -> bool {
    forall|i: int, j: int|
        0 <= i < j < names.len() ==> (#[trigger] names[i])@ != (#[trigger] names[j])@
}

/// The names among `names` whose delivery failed, in order. A name
/// without a flag counts as delivered.
pub open spec fn undelivered(names: Seq<String>, delivered: Seq<bool>) -> Seq<String> {
    undelivered_among(names, delivered, names.len())
}

/// `undelivered`, over the first `count` names.
pub open spec fn undelivered_among(names: Seq<String>, delivered: Seq<bool>, count: nat) -> Seq<
    String,
>
    decreases count,
{
    if count == 0 {
        Seq::<String>::empty()
    } else {
        let before = undelivered_among(names, delivered, (count - 1) as nat);
        if count - 1 < delivered.len() && !delivered[count - 1] {
            before.push(names[count - 1])
        } else {
            before
        }
    }
}

/// The names picked out by `undelivered_among` come from the first
/// `count` names, and are distinct where the names are.
pub proof fn undelivered_among_names(names: Seq<String>, delivered: Seq<bool>, count: nat)
    requires
        count <= names.len(),
    ensures
        forall|k: int|
            0 <= k < undelivered_among(names, delivered, count).len() ==> exists|i: int|
                0 <= i < count && (#[trigger] names[i])@ == (#[trigger] undelivered_among(
                    names,
                    delivered,
                    count,
                )[k])@,
        distinct_names(names) ==> distinct_names(undelivered_among(names, delivered, count)),
    decreases count,
{
    if count > 0 {
        let before = undelivered_among(names, delivered, (count - 1) as nat);
        let picked = undelivered_among(names, delivered, count);
        undelivered_among_names(names, delivered, (count - 1) as nat);
        assert forall|k: int| 0 <= k < picked.len() implies exists|i: int|
            0 <= i < count && (#[trigger] names[i])@ == (#[trigger] picked[k])@ by {
            if k < before.len() {
                let i = choose|i: int| 0 <= i < count - 1 && (#[trigger] names[i])@ == before[k]@;
                assert(names[i]@ == picked[k]@);
            }
        }
        if distinct_names(names) {
            assert forall|a: int, b: int| 0 <= a < b < picked.len() implies (#[trigger] picked[a])@
                != (#[trigger] picked[b])@ by {
                if b == before.len() {
                    let i = choose|i: int|
                        0 <= i < count - 1 && (#[trigger] names[i])@ == before[a]@;
                    assert(names[i]@ != names[count - 1]@);
                }
            }
        }
    }
}

/// The names picked out by `undelivered_among` are exactly those among
/// the first `count` names whose flag is there and false.
pub proof fn undelivered_among_flags(names: Seq<String>, delivered: Seq<bool>, count: nat)
    requires
        count <= names.len(),
    ensures
        forall|name: Seq<char>|
            name_set(undelivered_among(names, delivered, count)).contains(name) <==> exists|
                i: int,
            |
                0 <= i < count && i < delivered.len() && !delivered[i] && (#[trigger] names[i])@
                    == name,
    decreases count,
{
    if count > 0 {
        let before = undelivered_among(names, delivered, (count - 1) as nat);
        let picked = undelivered_among(names, delivered, count);
        undelivered_among_flags(names, delivered, (count - 1) as nat);
        assert forall|name: Seq<char>| name_set(picked).contains(name) <==> exists|i: int|
            0 <= i < count && i < delivered.len() && !delivered[i] && (#[trigger] names[i])@
                == name by {
            if name_set(picked).contains(name) {
                let k = choose|k: int| 0 <= k < picked.len() && (#[trigger] picked[k])@ == name;
                if k < before.len() {
                    assert(before[k]@ == name);
                    assert(name_set(before).contains(name));
                } else {
                    assert(names[count - 1]@ == name);
                }
            }
            if exists|i: int|
                0 <= i < count && i < delivered.len() && !delivered[i] && (#[trigger] names[i])@
                    == name {
                let i = choose|i: int|
                    0 <= i < count && i < delivered.len() && !delivered[i] && (#[trigger] names[i])@
                        == name;
                if i < count - 1 {
                    assert(name_set(before).contains(name));
                    let k = choose|k: int| 0 <= k < before.len() && (#[trigger] before[k])@ == name;
                    assert(picked[k]@ == name);
                } else {
                    assert(picked[picked.len() - 1]@ == name);
                }
            }
        }
    }
}

/// Where no queue took the frame, pruning leaves no connection; where
/// every queue took it, pruning leaves every connection.
pub proof fn pruning_by_outcome(
    connections: Map<Seq<char>, DeviceConnection>,
    names: Seq<String>,
    delivered: Seq<bool>,
)
    requires
        name_set(names) == connections.dom(),
        delivered.len() == names.len(),
    ensures
        (forall|i: int| 0 <= i < delivered.len() ==> !delivered[i]) ==> connections.remove_keys(
            name_set(undelivered(names, delivered)),
        ) == Map::<Seq<char>, DeviceConnection>::empty(),
        (forall|i: int| 0 <= i < delivered.len() ==> delivered[i]) ==> connections.remove_keys(
            name_set(undelivered(names, delivered)),
        ) == connections,
{
    undelivered_among_flags(names, delivered, names.len());
    let lost = name_set(undelivered(names, delivered));
    if forall|i: int| 0 <= i < delivered.len() ==> !delivered[i] {
        assert forall|name: Seq<char>| connections.dom().contains(name) implies lost.contains(
            name,
        ) by {
            let i = choose|i: int| 0 <= i < names.len() && (#[trigger] names[i])@ == name;
            assert(!delivered[i]);
        }
        assert(connections.remove_keys(lost) =~= Map::<Seq<char>, DeviceConnection>::empty());
    }
    if forall|i: int| 0 <= i < delivered.len() ==> delivered[i] {
        assert forall|name: Seq<char>| !lost.contains(name) by {
            if lost.contains(name) {
                let i = choose|i: int|
                    0 <= i < names.len() && i < delivered.len() && !delivered[i] && (
                    #[trigger] names[i])@ == name;
                assert(delivered[i]);
            }
        }
        assert(connections.remove_keys(lost) =~= connections);
    }
}

spec fn holds(entries: Seq<Entry>, name: Seq<char>) -> bool {
    exists|i: int| 0 <= i < entries.len() && (#[trigger] entries[i]).name@ == name
}

spec fn position(entries: Seq<Entry>, name: Seq<char>) -> int {
    choose|i: int| 0 <= i < entries.len() && (#[trigger] entries[i]).name@ == name
}

spec fn distinct(entries: Seq<Entry>) -> bool {
    forall|i: int, j: int|
        0 <= i < j < entries.len() ==> (#[trigger] entries[i]).name@ != (#[trigger] entries[j]).name@
}

spec fn mapping(entries: Seq<Entry>) -> Map<Seq<char>, DeviceConnection> {
    Map::new(
        |name: Seq<char>| holds(entries, name),
        |name: Seq<char>| entries[position(entries, name)].connection,
    )
}

proof fn position_of_entry(entries: Seq<Entry>, i: int)
    requires
        distinct(entries),
        0 <= i < entries.len(),
    ensures
        holds(entries, entries[i].name@),
        position(entries, entries[i].name@) == i,
{
    let p = position(entries, entries[i].name@);
    assert(entries[p].name@ == entries[i].name@);
}

proof fn mapping_after_push(entries: Seq<Entry>, entry: Entry)
    requires
        distinct(entries),
        !holds(entries, entry.name@),
    ensures
        distinct(entries.push(entry)),
        mapping(entries.push(entry)) == mapping(entries).insert(entry.name@, entry.connection),
{
    let grown = entries.push(entry);
    assert forall|i: int, j: int| 0 <= i < j < grown.len() implies (#[trigger] grown[i]).name@ != (
    #[trigger] grown[j]).name@ by {
        if j < entries.len() {
            assert(entries[i].name@ != entries[j].name@);
        } else {
            assert(grown[i] == entries[i]);
        }
    }
    assert forall|name: Seq<char>| holds(grown, name) <==> (holds(entries, name) || name
        == entry.name@) by {
        if holds(entries, name) {
            let p = position(entries, name);
            assert(grown[p].name@ == name);
        }
        if name == entry.name@ {
            assert(grown[entries.len() as int].name@ == name);
        }
        if holds(grown, name) {
            let p = position(grown, name);
            if p < entries.len() {
                assert(entries[p].name@ == name);
            }
        }
    }
    assert forall|name: Seq<char>| holds(grown, name) implies mapping(grown)[name] == mapping(
        entries,
    ).insert(entry.name@, entry.connection)[name] by {
        let p = position(grown, name);
        position_of_entry(grown, p);
        if p < entries.len() {
            position_of_entry(entries, p);
        }
    }
}

proof fn mapping_after_update(entries: Seq<Entry>, i: int, entry: Entry)
    requires
        distinct(entries),
        0 <= i < entries.len(),
        entries[i].name@ == entry.name@,
    ensures
        distinct(entries.update(i, entry)),
        mapping(entries.update(i, entry)) == mapping(entries).insert(entry.name@, entry.connection),
{
    let changed = entries.update(i, entry);
    assert forall|a: int, b: int| 0 <= a < b < changed.len() implies (#[trigger] changed[a]).name@
        != (#[trigger] changed[b]).name@ by {
        assert(entries[a].name@ != entries[b].name@);
    }
    assert forall|name: Seq<char>| holds(changed, name) <==> holds(entries, name) by {
        if holds(entries, name) {
            let p = position(entries, name);
            assert(changed[p].name@ == name);
        }
        if holds(changed, name) {
            let p = position(changed, name);
            assert(entries[p].name@ == name);
        }
    }
    assert forall|name: Seq<char>| holds(changed, name) implies mapping(changed)[name] == mapping(
        entries,
    ).insert(entry.name@, entry.connection)[name] by {
        let p = position(changed, name);
        position_of_entry(changed, p);
        position_of_entry(entries, p);
    }
}

proof fn mapping_after_remove(entries: Seq<Entry>, i: int)
    requires
        distinct(entries),
        0 <= i < entries.len(),
    ensures
        distinct(entries.remove(i)),
        mapping(entries.remove(i)) == mapping(entries).remove(entries[i].name@),
{
    let rest = entries.remove(i);
    let gone = entries[i].name@;
    assert forall|a: int, b: int| 0 <= a < b < rest.len() implies (#[trigger] rest[a]).name@ != (
    #[trigger] rest[b]).name@ by {
        let first = if a < i {
            a
        } else {
            a + 1
        };
        let second = if b < i {
            b
        } else {
            b + 1
        };
        assert(entries[first].name@ != entries[second].name@);
    }
    assert forall|name: Seq<char>| holds(rest, name) <==> (holds(entries, name) && name
        != gone) by {
        if holds(entries, name) && name != gone {
            let p = position(entries, name);
            if p < i {
                assert(rest[p].name@ == name);
            } else {
                assert(rest[p - 1].name@ == name);
            }
        }
        if holds(rest, name) {
            let p = position(rest, name);
            let source = if p < i {
                p
            } else {
                p + 1
            };
            assert(entries[source].name@ == name);
            position_of_entry(entries, source);
        }
    }
    assert forall|name: Seq<char>| holds(rest, name) implies mapping(rest)[name] == mapping(
        entries,
    ).remove(gone)[name] by {
        let p = position(rest, name);
        position_of_entry(rest, p);
        let source = if p < i {
            p
        } else {
            p + 1
        };
        position_of_entry(entries, source);
    }
}

/// The live connections by endpoint name. Seen as a map from name to
/// connection.
pub struct ConnectionRegistry {
    entries: Vec<Entry>,
}

impl View for ConnectionRegistry {
    type V = Map<Seq<char>, DeviceConnection>;

    /// The connection registered under each endpoint name.
    closed spec fn view(&self) -> Map<Seq<char>, DeviceConnection> {
        mapping(self.entries@)
    }
}

impl ConnectionRegistry {
    #[verifier::type_invariant]
    spec fn one_per_name(self) -> bool {
        distinct(self.entries@)
    }

    pub fn new() -> (registry: Self)
        ensures
            registry@ == Map::<Seq<char>, DeviceConnection>::empty(),
    {
        let registry = ConnectionRegistry { entries: Vec::new() };
        registry
    }

    fn find(&self, id: &String) -> (found: Option<usize>)
        ensures
            match found {
                Some(i) => i < self.entries@.len() && self.entries@[i as int].name@ == id@,
                None => !holds(self.entries@, id@),
            },
    {
        let mut i: usize = 0;
        while i < self.entries.len()
            invariant
                i <= self.entries.len(),
                forall|j: int| 0 <= j < i ==> (#[trigger] self.entries@[j]).name@ != id@,
            decreases self.entries.len() - i,
        {
            if self.entries[i].name == *id {
                return Some(i);
            }
            i += 1;
        }
        None
    }

    /// Whether a connection is registered under `id`.
    pub fn contains(&self, id: &String) -> (present: bool)
        ensures
            present == self@.contains_key(id@),
    {
        self.find(id).is_some()
    }

    /// Whether no connection is registered.
    pub fn is_empty(&self) -> (empty: bool)
        ensures
            empty == (self@ == Map::<Seq<char>, DeviceConnection>::empty()),
    {
        let empty = self.entries.len() == 0;
        proof {
            if empty {
                assert(self@ =~= Map::<Seq<char>, DeviceConnection>::empty());
            } else {
                assert(self@.contains_key(self.entries@[0].name@));
            }
        }
        empty
    }

    /// The connection registered under `id`, if there is one.
    pub fn get(&self, id: &String) -> (found: Option<&DeviceConnection>)
        ensures
            match found {
                Some(connection) => self@.contains_key(id@) && *connection == self@[id@],
                None => !self@.contains_key(id@),
            },
    {
        proof {
            use_type_invariant(self);
        }
        match self.find(id) {
            Some(i) => {
                proof {
                    position_of_entry(self.entries@, i as int);
                }
                Some(&self.entries[i].connection)
            },
            None => None,
        }
    }

    /// Registers `connection` under `id`, in place of any connection that
    /// was registered under that name.
    pub fn insert(&mut self, id: String, connection: DeviceConnection)
        ensures
            final(self)@ == old(self)@.insert(id@, connection),
    {
        proof {
            use_type_invariant(&*self);
        }
        let found = self.find(&id);
        let entry = Entry { name: id, connection };
        let mut entries: Vec<Entry> = Vec::new();
        core::mem::swap(&mut self.entries, &mut entries);
        match found {
            Some(i) => {
                proof {
                    mapping_after_update(entries@, i as int, entry);
                }
                entries.set(i, entry);
            },
            None => {
                proof {
                    mapping_after_push(entries@, entry);
                }
                entries.push(entry);
            },
        }
        self.entries = entries;
    }

    /// The registered names, each once.
    pub fn names(&self) -> (names: Vec<String>)
        ensures
            distinct_names(names@),
            name_set(names@) == self@.dom(),
    {
        proof {
            use_type_invariant(self);
        }
        let mut names: Vec<String> = Vec::new();
        let mut i: usize = 0;
        while i < self.entries.len()
            invariant
                i <= self.entries.len(),
                names@.len() == i,
                forall|j: int| 0 <= j < i ==> (#[trigger] names@[j])@ == self.entries@[j].name@,
            decreases self.entries.len() - i,
        {
            names.push(self.entries[i].name.clone());
            i += 1;
        }
        proof {
            assert forall|a: int, b: int| 0 <= a < b < names@.len() implies (#[trigger] names@[a])@
                != (#[trigger] names@[b])@ by {
                assert(self.entries@[a].name@ != self.entries@[b].name@);
            }
            assert forall|name: Seq<char>| name_set(names@).contains(name) <==> self@.dom().contains(
                name,
            ) by {
                if name_set(names@).contains(name) {
                    let j = choose|j: int| 0 <= j < names@.len() && (#[trigger] names@[j])@ == name;
                    assert(self.entries@[j].name@ == name);
                }
                if holds(self.entries@, name) {
                    let j = position(self.entries@, name);
                    assert(names@[j]@ == name);
                }
            }
        }
        names
    }

    /// Calls `visit` once for each registered connection, with its name.
    /// The registry cannot change while the visits go on.
    pub fn for_each<F: Fn(&String, &DeviceConnection)>(&self, visit: F)
        requires
            forall|name: &String, connection: &DeviceConnection|
                self@.contains_key(name@) && self@[name@] == *connection ==> visit.requires(
                    (name, connection),
                ),
        ensures
            forall|key: Seq<char>|
                self@.contains_key(key) ==> exists|name: &String|
                    name@ == key && #[trigger] visit.ensures((name, &self@[key]), ()),
    {
        proof {
            use_type_invariant(self);
        }
        let mut i: usize = 0;
        while i < self.entries.len()
            invariant
                i <= self.entries.len(),
                distinct(self.entries@),
                forall|name: &String, connection: &DeviceConnection|
                    self@.contains_key(name@) && self@[name@] == *connection ==> visit.requires(
                        (name, connection),
                    ),
                forall|j: int|
                    0 <= j < i ==> visit.ensures(
                        (&(#[trigger] self.entries@[j]).name, &self.entries@[j].connection),
                        (),
                    ),
            decreases self.entries.len() - i,
        {
            proof {
                position_of_entry(self.entries@, i as int);
            }
            visit(&self.entries[i].name, &self.entries[i].connection);
            i += 1;
        }
        proof {
            assert forall|key: Seq<char>| self@.contains_key(key) implies exists|name: &String|
                name@ == key && #[trigger] visit.ensures((name, &self@[key]), ()) by {
                let j = position(self.entries@, key);
                position_of_entry(self.entries@, j);
                let name = &self.entries@[j].name;
                assert(name@ == key && visit.ensures((name, &self@[key]), ()));
            }
        }
    }

    /// Drops the connection registered under `id` and hands it back.
    pub fn remove(&mut self, id: &String) -> (removed: Option<DeviceConnection>)
        ensures
            final(self)@ == old(self)@.remove(id@),
            match removed {
                Some(connection) => old(self)@.contains_key(id@) && connection == old(self)@[id@],
                None => !old(self)@.contains_key(id@),
            },
    {
        proof {
            use_type_invariant(&*self);
        }
        match self.find(id) {
            Some(i) => {
                proof {
                    mapping_after_remove(self.entries@, i as int);
                    position_of_entry(self.entries@, i as int);
                }
                let mut entries: Vec<Entry> = Vec::new();
                core::mem::swap(&mut self.entries, &mut entries);
                let entry = entries.remove(i);
                self.entries = entries;
                Some(entry.connection)
            },
            None => None,
        }
    }
}

impl ConnectionRegistry {
    /// Drops every connection registered under one of `ids`.
    pub fn remove_all(&mut self, ids: &Vec<String>)
        ensures
            final(self)@ == old(self)@.remove_keys(name_set(ids@)),
    {
        let mut i: usize = 0;
        while i < ids.len()
            invariant
                i <= ids.len(),
                self@ == old(self)@.remove_keys(name_set(ids@.take(i as int))),
            decreases ids.len() - i,
        {
            let ghost before = self@;
            self.remove(&ids[i]);
            proof {
                let done = name_set(ids@.take(i as int));
                let next = name_set(ids@.take(i + 1));
                assert forall|name: Seq<char>| next.contains(name) <==> (done.contains(name)
                    || name == ids@[i as int]@) by {
                    if done.contains(name) {
                        let j = choose|j: int|
                            0 <= j < i && (#[trigger] ids@.take(i as int)[j])@ == name;
                        assert(ids@.take(i + 1)[j]@ == name);
                    }
                    if name == ids@[i as int]@ {
                        assert(ids@.take(i + 1)[i as int]@ == name);
                    }
                    if next.contains(name) {
                        let j = choose|j: int|
                            0 <= j < i + 1 && (#[trigger] ids@.take(i + 1)[j])@ == name;
                        if j < i {
                            assert(ids@.take(i as int)[j]@ == name);
                        }
                    }
                }
            }
            i += 1;
        }
        assert(ids@.take(ids@.len() as int) =~= ids@);
    }

    /// Puts `payload`, ended by a line feed, on the queue of every
    /// connection, then drops the connections whose queue no longer has a
    /// receiver. The names of the dropped connections are handed back.
    pub fn broadcast(&mut self, payload: &str) -> (lost: Vec<String>)
        ensures
            distinct_names(lost@),
            name_set(lost@).subset_of(old(self)@.dom()),
            final(self)@ == old(self)@.remove_keys(name_set(lost@)),
    {
        proof {
            use_type_invariant(&*self);
        }
        let frame = terminate(payload);
        let mut names: Vec<String> = Vec::new();
        let mut delivered: Vec<bool> = Vec::new();
        let mut i: usize = 0;
        while i < self.entries.len()
            invariant
                i <= self.entries.len(),
                names@.len() == i,
                delivered@.len() == i,
                forall|j: int| 0 <= j < i ==> (#[trigger] names@[j])@ == self.entries@[j].name@,
            decreases self.entries.len() - i,
        {
            let taken = channel_send(&self.entries[i].connection.sender, frame.clone());
            names.push(self.entries[i].name.clone());
            delivered.push(taken);
            i += 1;
        }
        let lost = lost_names(&names, &delivered);
        proof {
            assert forall|a: int, b: int| 0 <= a < b < names@.len() implies (#[trigger] names@[a])@
                != (#[trigger] names@[b])@ by {
                assert(self.entries@[a].name@ != self.entries@[b].name@);
            }
            undelivered_among_names(names@, delivered@, names@.len());
            assert forall|name: Seq<char>| name_set(lost@).contains(name) implies old(
                self,
            )@.dom().contains(name) by {
                let k = choose|k: int| 0 <= k < lost@.len() && (#[trigger] lost@[k])@ == name;
                let j = choose|j: int|
                    0 <= j < names@.len() && (#[trigger] names@[j])@ == undelivered_among(
                        names@,
                        delivered@,
                        names@.len(),
                    )[k]@;
                assert(self.entries@[j].name@ == name);
            }
        }
        self.remove_all(&lost);
        lost
    }
}

/// Picks the names whose delivery failed.
pub fn lost_names(names: &Vec<String>, delivered: &Vec<bool>) -> (lost: Vec<String>)
    ensures
        lost@.len() == undelivered(names@, delivered@).len(),
        forall|k: int|
            0 <= k < lost@.len() ==> (#[trigger] lost@[k])@ == undelivered(names@, delivered@)[k]@,
{
    let mut lost: Vec<String> = Vec::new();
    let mut i: usize = 0;
    while i < names.len()
        invariant
            i <= names.len(),
            lost@.len() == undelivered_among(names@, delivered@, i as nat).len(),
            forall|k: int|
                0 <= k < lost@.len() ==> (#[trigger] lost@[k])@ == undelivered_among(
                    names@,
                    delivered@,
                    i as nat,
                )[k]@,
        decreases names.len() - i,
    {
        if i < delivered.len() && !delivered[i] {
            lost.push(names[i].clone());
        }
        i += 1;
    }
    lost
}

} // verus!
