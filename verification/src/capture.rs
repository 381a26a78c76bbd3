//! The capture loop's table of gamepads, each with its recorder.

use crate::input::RawInputEvent;
use crate::naming::{make_controller_name_prefix, spec_controller_name_prefix};
use crate::notify::GamepadInfo;
use crate::records::SessionRecord;
use crate::session::spec_fresh;
use crate::writer::{spec_writer_after, spec_writer_record, WriterThread, WriterView};
use vstd::prelude::*;

verus! {

/// What the capture loop knows: the gamepads in the order in which they
/// came, and the recorder of each.
pub struct LoopView {
    pub order: Seq<usize>,
    pub writers: Map<usize, WriterView>,
}

impl LoopView {
    /// No gamepad stands twice in the order, and the gamepads in the order are
    /// those that have a recorder.
    pub open spec fn wf(self) -> bool {
        &&& self.order.no_duplicates()
        &&& forall|id: usize| self.order.contains(id) <==> self.writers.contains_key(id)
    }
}

/// The recorder of a gamepad called `name` that has just come.
pub open spec fn spec_new_writer(id: usize, name: Seq<char>) -> WriterView {
    WriterView { prefix: spec_controller_name_prefix(name, id), session: None }
}

/// `order` without `id`.
pub open spec fn spec_without(order: Seq<usize>, id: usize) -> Seq<usize>
    decreases order.len(),
{
    if order.len() == 0 {
        order
    } else if order.last() == id {
        spec_without(order.drop_last(), id)
    } else {
        spec_without(order.drop_last(), id).push(order.last())
    }
}

/// The table after the gamepad `id`, called `name`, has come: it gets a new,
/// idle recorder, in its old place if it was known and at the end if not.
pub open spec fn spec_connect(v: LoopView, id: usize, name: Seq<char>) -> LoopView {
    LoopView {
        order: if v.order.contains(id) {
            v.order
        } else {
            v.order.push(id)
        },
        writers: v.writers.insert(id, spec_new_writer(id, name)),
    }
}

/// The table after the gamepad `id` has gone.
pub open spec fn spec_disconnect(v: LoopView, id: usize) -> LoopView {
    LoopView { order: spec_without(v.order, id), writers: v.writers.remove(id) }
}

/// The table after each of `gamepads` has come, in turn.
pub open spec fn spec_connect_all(v: LoopView, gamepads: Seq<GamepadInfo>) -> LoopView
    decreases gamepads.len(),
{
    if gamepads.len() == 0 {
        v
    } else {
        spec_connect(
            spec_connect_all(v, gamepads.drop_last()),
            gamepads.last().id,
            gamepads.last().name@,
        )
    }
}

/// The table after a session has begun at `now` for the gamepad `id`: its
/// recorder holds a session that knows nothing yet. A gamepad that is not in
/// the table gets none.
pub open spec fn spec_session_opened(v: LoopView, id: usize, now: u64) -> LoopView {
    if v.writers.contains_key(id) {
        LoopView {
            order: v.order,
            writers: v.writers.insert(
                id,
                WriterView { prefix: v.writers[id].prefix, session: Some(spec_fresh(now)) },
            ),
        }
    } else {
        v
    }
}

/// The table after `event` has gone to the recorder of the gamepad that it
/// came from. An event of a gamepad that is not in the table changes nothing.
pub open spec fn spec_forward(v: LoopView, event: RawInputEvent) -> LoopView {
    let device = event.spec_device();
    if v.writers.contains_key(device) {
        LoopView {
            order: v.order,
            writers: v.writers.insert(device, spec_writer_after(v.writers[device], event)),
        }
    } else {
        v
    }
}

/// The record that `event` gives at the recorder of the gamepad that it came
/// from, if it gives one.
pub open spec fn spec_forward_record(v: LoopView, event: RawInputEvent) -> Option<SessionRecord> {
    let device = event.spec_device();
    if v.writers.contains_key(device) {
        spec_writer_record(v.writers[device], event)
    } else {
        None
    }
}

/// A recorder after its session has ended.
pub open spec fn spec_stopped(w: WriterView) -> WriterView {
    WriterView { prefix: w.prefix, session: None }
}

/// The table after every session has ended.
pub open spec fn spec_all_stopped(v: LoopView) -> LoopView {
    LoopView {
        order: v.order,
        writers: Map::new(
            |id: usize| v.writers.contains_key(id),
            |id: usize| spec_stopped(v.writers[id]),
        ),
    }
}

/// Those of `order` for which a session is running, in the same order.
pub open spec fn spec_running(order: Seq<usize>, writers: Map<usize, WriterView>) -> Seq<usize>
    decreases order.len(),
{
    if order.len() == 0 {
        order
    } else if writers.contains_key(order.last()) && writers[order.last()].session.is_some() {
        spec_running(order.drop_last(), writers).push(order.last())
    } else {
        spec_running(order.drop_last(), writers)
    }
}

/// The table with no gamepad in it.
pub open spec fn spec_empty_table() -> LoopView {
    LoopView { order: Seq::<usize>::empty(), writers: Map::<usize, WriterView>::empty() }
}

/// One gamepad of the table.
struct Slot {
    id: usize,
    writer: WriterThread,
}

/// The gamepads of `slots`, in order.
spec fn ids_of(slots: Seq<Slot>) -> Seq<usize> {
    Seq::new(slots.len(), |i: int| slots[i].id)
}

/// The recorders of `slots`, each under its gamepad.
spec fn writers_of(slots: Seq<Slot>) -> Map<usize, WriterView> {
    Map::new(
        |id: usize| ids_of(slots).contains(id),
        |id: usize| slots[ids_of(slots).index_of(id)].writer@,
    )
}

/// Every recorder is sound and no gamepad stands twice.
spec fn slots_wf(slots: Seq<Slot>) -> bool {
    &&& forall|i: int| 0 <= i < slots.len() ==> (#[trigger] slots[i]).writer.wf()
    &&& forall|i: int, j: int|
        0 <= i < slots.len() && 0 <= j < slots.len() && i != j ==> (#[trigger] slots[i]).id != (
        #[trigger] slots[j]).id
}

/// In a sound table a gamepad is found where it stands.
proof fn lemma_lookup(slots: Seq<Slot>, i: int)
    requires
        slots_wf(slots),
        0 <= i < slots.len(),
    ensures
        ids_of(slots).contains(slots[i].id),
        ids_of(slots).index_of(slots[i].id) == i,
        writers_of(slots).contains_key(slots[i].id),
        writers_of(slots)[slots[i].id] == slots[i].writer@,
        ids_of(slots)[i] == slots[i].id,
{
    let ids = ids_of(slots);
    assert(ids[i] == slots[i].id);
    let k = ids.index_of(slots[i].id);
    assert(0 <= k < ids.len() && ids[k] == slots[i].id);
    assert(slots[k].id == slots[i].id);
}

/// A sound table seen from outside is sound.
proof fn lemma_view_wf(slots: Seq<Slot>)
    requires
        slots_wf(slots),
    ensures
        (LoopView { order: ids_of(slots), writers: writers_of(slots) }).wf(),
{
    let ids = ids_of(slots);
    assert forall|i: int, j: int| 0 <= i < ids.len() && 0 <= j < ids.len() && i != j implies ids[i]
        != ids[j] by {
        assert(slots[i].id != slots[j].id);
    }
}

/// Where one recorder of the table has changed and all else has stayed, the
/// table seen from outside has the new recorder under that gamepad and all
/// else as before.
proof fn lemma_updated(before: Seq<Slot>, after: Seq<Slot>, i: int)
    requires
        slots_wf(before),
        0 <= i < before.len(),
        after.len() == before.len(),
        after[i].writer.wf(),
        forall|j: int| 0 <= j < before.len() ==> (#[trigger] after[j]).id == before[j].id,
        forall|j: int|
            0 <= j < before.len() && j != i ==> (#[trigger] after[j]).writer
                == before[j].writer,
    ensures
        slots_wf(after),
        ids_of(after) == ids_of(before),
        writers_of(after) == writers_of(before).insert(before[i].id, after[i].writer@),
{
    assert(ids_of(after) =~= ids_of(before));
    assert(slots_wf(after)) by {
        assert forall|j: int| 0 <= j < after.len() implies (#[trigger] after[j]).writer.wf() by {
            if j != i {
                assert(before[j].writer.wf());
            }
        }
        assert forall|a: int, b: int|
            0 <= a < after.len() && 0 <= b < after.len() && a != b implies (#[trigger] after[a]).id
            != (#[trigger] after[b]).id by {
            assert(before[a].id != before[b].id);
        }
    }
    let target = writers_of(before).insert(before[i].id, after[i].writer@);
    assert forall|id: usize| writers_of(after).contains_key(id) implies target.contains_key(id)
        && writers_of(after)[id] == target[id] by {
        let k = ids_of(after).index_of(id);
        lemma_lookup(after, k);
        lemma_lookup(before, k);
    }
    assert forall|id: usize| target.contains_key(id) implies writers_of(after).contains_key(id) by {
        lemma_lookup(before, i);
    }
    assert(writers_of(after) =~= target);
}

/// A gamepad that is new to the table goes to its end.
proof fn lemma_pushed(before: Seq<Slot>, slot: Slot)
    requires
        slots_wf(before),
        slot.writer.wf(),
        !ids_of(before).contains(slot.id),
    ensures
        slots_wf(before.push(slot)),
        ids_of(before.push(slot)) == ids_of(before).push(slot.id),
        writers_of(before.push(slot)) == writers_of(before).insert(slot.id, slot.writer@),
{
    let after = before.push(slot);
    assert(ids_of(after) =~= ids_of(before).push(slot.id));
    assert(slots_wf(after)) by {
        assert forall|a: int, b: int|
            0 <= a < after.len() && 0 <= b < after.len() && a != b implies (#[trigger] after[a]).id
            != (#[trigger] after[b]).id by {
            if a < before.len() && b < before.len() {
                assert(before[a].id != before[b].id);
            } else if a < before.len() {
                assert(ids_of(before)[a] == before[a].id);
            } else {
                assert(ids_of(before)[b] == before[b].id);
            }
        }
        assert forall|j: int| 0 <= j < after.len() implies (#[trigger] after[j]).writer.wf() by {
            if j < before.len() {
                assert(before[j].writer.wf());
            }
        }
    }
    let target = writers_of(before).insert(slot.id, slot.writer@);
    assert forall|id: usize| writers_of(after).contains_key(id) implies target.contains_key(id)
        && writers_of(after)[id] == target[id] by {
        let k = ids_of(after).index_of(id);
        lemma_lookup(after, k);
        if k < before.len() {
            lemma_lookup(before, k);
        }
    }
    assert forall|id: usize| target.contains_key(id) implies writers_of(after).contains_key(id) by {
        if id == slot.id {
            lemma_lookup(after, before.len() as int);
        } else {
            let k = ids_of(before).index_of(id);
            lemma_lookup(after, k);
        }
    }
    assert(writers_of(after) =~= target);
}

/// Taking out what is not there changes nothing.
proof fn lemma_without_absent(order: Seq<usize>, id: usize)
    requires
        !order.contains(id),
    ensures
        spec_without(order, id) == order,
    decreases order.len(),
{
    if order.len() > 0 {
        assert(order[order.len() - 1] == order.last());
        assert forall|j: int| 0 <= j < order.drop_last().len() implies order.drop_last()[j]
            != id by {
            assert(order[j] == order.drop_last()[j]);
        }
        lemma_without_absent(order.drop_last(), id);
        assert(order.drop_last().push(order.last()) =~= order);
    }
}

/// Where nothing stands twice, taking out a gamepad leaves the order without
/// the place where it stood.
proof fn lemma_without_at(order: Seq<usize>, i: int)
    requires
        order.no_duplicates(),
        0 <= i < order.len(),
    ensures
        spec_without(order, order[i]) == order.remove(i),
    decreases order.len(),
{
    let id = order[i];
    let front = order.drop_last();
    if i == order.len() - 1 {
        assert forall|j: int| 0 <= j < front.len() implies front[j] != id by {
            assert(order[j] != order[i]);
        }
        lemma_without_absent(front, id);
        assert(order.remove(i) =~= front);
    } else {
        assert(order.last() != id);
        assert(front.no_duplicates());
        lemma_without_at(front, i);
        assert(front.remove(i).push(order.last()) =~= order.remove(i));
    }
}

/// A gamepad that is taken out of the table is gone, and the others stay.
proof fn lemma_removed(before: Seq<Slot>, i: int)
    requires
        slots_wf(before),
        0 <= i < before.len(),
    ensures
        slots_wf(before.remove(i)),
        ids_of(before.remove(i)) == spec_without(ids_of(before), before[i].id),
        writers_of(before.remove(i)) == writers_of(before).remove(before[i].id),
{
    let after = before.remove(i);
    lemma_view_wf(before);
    lemma_lookup(before, i);
    lemma_without_at(ids_of(before), i);
    assert(ids_of(after) =~= ids_of(before).remove(i));
    assert(slots_wf(after)) by {
        assert forall|a: int, b: int|
            0 <= a < after.len() && 0 <= b < after.len() && a != b implies (#[trigger] after[a]).id
            != (#[trigger] after[b]).id by {
            let a0 = if a < i { a } else { a + 1 };
            let b0 = if b < i { b } else { b + 1 };
            assert(before[a0].id != before[b0].id);
        }
        assert forall|j: int| 0 <= j < after.len() implies (#[trigger] after[j]).writer.wf() by {
            let j0 = if j < i { j } else { j + 1 };
            assert(before[j0].writer.wf());
        }
    }
    let target = writers_of(before).remove(before[i].id);
    assert forall|id: usize| writers_of(after).contains_key(id) implies target.contains_key(id)
        && writers_of(after)[id] == target[id] by {
        let k = ids_of(after).index_of(id);
        lemma_lookup(after, k);
        let k0 = if k < i { k } else { k + 1 };
        lemma_lookup(before, k0);
        assert(before[k0].id != before[i].id);
    }
    assert forall|id: usize| target.contains_key(id) implies writers_of(after).contains_key(id) by {
        let k0 = ids_of(before).index_of(id);
        lemma_lookup(before, k0);
        let k = if k0 < i { k0 } else { k0 - 1 };
        lemma_lookup(after, k);
    }
    assert(writers_of(after) =~= target);
}

/// Where every session of the table has ended and all else has stayed, the
/// table seen from outside holds the same recorders, each stopped.
proof fn lemma_all_stopped(before: Seq<Slot>, after: Seq<Slot>)
    requires
        slots_wf(before),
        slots_wf(after),
        after.len() == before.len(),
        forall|j: int| 0 <= j < before.len() ==> (#[trigger] after[j]).id == before[j].id,
        forall|j: int|
            0 <= j < before.len() ==> (#[trigger] after[j]).writer@ == spec_stopped(
                before[j].writer@,
            ),
    ensures
        ids_of(after) == ids_of(before),
        (LoopView { order: ids_of(after), writers: writers_of(after) }) == spec_all_stopped(
            LoopView { order: ids_of(before), writers: writers_of(before) },
        ),
{
    assert(ids_of(after) =~= ids_of(before));
    let target = spec_all_stopped(
        LoopView { order: ids_of(before), writers: writers_of(before) },
    ).writers;
    assert forall|id: usize| writers_of(after).contains_key(id) implies target.contains_key(id)
        && writers_of(after)[id] == target[id] by {
        let k = ids_of(after).index_of(id);
        lemma_lookup(after, k);
        lemma_lookup(before, k);
    }
    assert(writers_of(after) =~= target);
}

/// The capture loop's table of gamepads.
pub struct CaptureLoop {
    slots: Vec<Slot>,
}

impl CaptureLoop {
    /// The table is sound.
    pub closed spec fn wf(&self) -> bool {
        slots_wf(self.slots@)
    }

    pub closed spec fn view(&self) -> LoopView {
        LoopView { order: ids_of(self.slots@), writers: writers_of(self.slots@) }
    }

    /// What is sound inside is sound seen from outside.
    pub proof fn lemma_wf_view(&self)
        requires
            self.wf(),
        ensures
            self@.wf(),
    {
        lemma_view_wf(self.slots@);
    }

    /// The table with no gamepad in it.
    pub fn empty() -> (table: CaptureLoop)
        ensures
            table.wf(),
            table@ == spec_empty_table(),
    {
        let table = CaptureLoop { slots: Vec::new() };
        assert(table@.order =~= Seq::<usize>::empty());
        assert(table@.writers =~= Map::<usize, WriterView>::empty());
        table
    }

    /// The table of the gamepads that are there when the loop begins.
    pub fn new(gamepads: &Vec<GamepadInfo>) -> (table: CaptureLoop)
        ensures
            table.wf(),
            table@ == spec_connect_all(spec_empty_table(), gamepads@),
    {
        let mut table = CaptureLoop::empty();
        let mut i: usize = 0;
        while i < gamepads.len()
            invariant
                0 <= i <= gamepads.len(),
                table.wf(),
                table@ == spec_connect_all(spec_empty_table(), gamepads@.take(i as int)),
            decreases gamepads.len() - i,
        {
            let gamepad = &gamepads[i];
            table.connect(gamepad.id, gamepad.name.as_str());
            proof {
                assert(gamepads@.take(i + 1).drop_last() =~= gamepads@.take(i as int));
                assert(gamepads@.take(i + 1).last() == gamepads@[i as int]);
            }
            i = i + 1;
        }
        assert(gamepads@.take(gamepads.len() as int) =~= gamepads@);
        table
    }

    /// Where the gamepad `id` stands in the table, if it does.
    fn position(&self, id: usize) -> (place: Option<usize>)
        requires
            self.wf(),
        ensures
            match place {
                Some(i) => i < self.slots.len() && self.slots[i as int].id == id
                    && self@.writers.contains_key(id) && self@.writers[id]
                    == self.slots[i as int].writer@ && self@.order[i as int] == id,
                None => !self@.writers.contains_key(id) && !self@.order.contains(id),
            },
    {
        let mut i: usize = 0;
        while i < self.slots.len()
            invariant
                0 <= i <= self.slots.len(),
                self.wf(),
                forall|j: int| 0 <= j < i ==> (#[trigger] self.slots[j]).id != id,
            decreases self.slots.len() - i,
        {
            if self.slots[i].id == id {
                proof {
                    lemma_lookup(self.slots@, i as int);
                }
                return Some(i);
            }
            i = i + 1;
        }
        proof {
            if ids_of(self.slots@).contains(id) {
                let k = ids_of(self.slots@).index_of(id);
                assert(self.slots[k].id == id);
            }
        }
        None
    }

    /// How many gamepads are in the table.
    pub fn len(&self) -> (n: usize)
        ensures
            n == self@.order.len(),
    {
        self.slots.len()
    }

    /// Whether no gamepad is in the table.
    pub fn is_empty(&self) -> (e: bool)
        ensures
            e == (self@.order.len() == 0),
    {
        self.slots.len() == 0
    }

    /// Whether the gamepad `id` is in the table.
    pub fn contains(&self, id: usize) -> (c: bool)
        requires
            self.wf(),
        ensures
            c == self@.writers.contains_key(id),
    {
        self.position(id).is_some()
    }

    /// Whether a session is running for the gamepad `id`.
    pub fn is_recording(&self, id: usize) -> (r: bool)
        requires
            self.wf(),
        ensures
            r == (self@.writers.contains_key(id) && self@.writers[id].session.is_some()),
    {
        match self.position(id) {
            Some(i) => self.slots[i].writer.is_running(),
            None => false,
        }
    }

    /// Takes in that the gamepad `id`, called `name`, has come. Says whether
    /// it was in the table already, and whether a session was running for it.
    pub fn connect(&mut self, id: usize, name: &str) -> (was: (bool, bool))
        requires
            old(self).wf(),
        ensures
            final(self).wf(),
            final(self)@ == spec_connect(old(self)@, id, name@),
            was.0 == old(self)@.writers.contains_key(id),
            was.1 == (old(self)@.writers.contains_key(id)
                && old(self)@.writers[id].session.is_some()),
    {
        let writer = WriterThread::new(make_controller_name_prefix(name, id));
        match self.position(id) {
            Some(i) => {
                let running = self.slots[i].writer.is_running();
                self.slots[i].writer = writer;
                proof {
                    lemma_updated(old(self).slots@, self.slots@, i as int);
                }
                (true, running)
            },
            None => {
                let slot = Slot { id, writer };
                self.slots.push(slot);
                proof {
                    lemma_pushed(old(self).slots@, slot);
                }
                (false, false)
            },
        }
    }

    /// Takes in that the gamepad `id` has gone. Says whether it was in the
    /// table, and whether a session was running for it.
    pub fn disconnect(&mut self, id: usize) -> (was: (bool, bool))
        requires
            old(self).wf(),
        ensures
            final(self).wf(),
            final(self)@ == spec_disconnect(old(self)@, id),
            was.0 == old(self)@.writers.contains_key(id),
            was.1 == (old(self)@.writers.contains_key(id)
                && old(self)@.writers[id].session.is_some()),
    {
        match self.position(id) {
            Some(i) => {
                let slot = self.slots.remove(i);
                proof {
                    lemma_removed(old(self).slots@, i as int);
                }
                (true, slot.writer.is_running())
            },
            None => {
                proof {
                    lemma_without_absent(old(self)@.order, id);
                    assert(self@.writers =~= old(self)@.writers.remove(id));
                }
                (false, false)
            },
        }
    }

    /// Takes in that the files of a new session for the gamepad `id` are
    /// open, at the instant `now`. Says whether the gamepad is in the table;
    /// if it is not, nothing changes.
    pub fn session_opened(&mut self, id: usize, now: u64) -> (known: bool)
        requires
            old(self).wf(),
        ensures
            final(self).wf(),
            final(self)@ == spec_session_opened(old(self)@, id, now),
            known == old(self)@.writers.contains_key(id),
    {
        match self.position(id) {
            Some(i) => {
                self.slots[i].writer.start(now);
                proof {
                    lemma_updated(old(self).slots@, self.slots@, i as int);
                }
                true
            },
            None => false,
        }
    }
    /// The gamepad that stands at place `i` of the table.
    pub fn id_at(&self, i: usize) -> (id: usize)
        requires
            self.wf(),
            i < self@.order.len(),
        ensures
            id == self@.order[i as int],
            self@.writers.contains_key(id),
    {
        proof {
            lemma_lookup(self.slots@, i as int);
        }
        self.slots[i].id
    }

    /// What the names of the files begin with for the gamepad at place `i`.
    pub fn prefix_at(&self, i: usize) -> (prefix: &str)
        requires
            self.wf(),
            i < self@.order.len(),
        ensures
            self@.writers.contains_key(self@.order[i as int]),
            prefix@ == self@.writers[self@.order[i as int]].prefix,
    {
        proof {
            lemma_lookup(self.slots@, i as int);
        }
        self.slots[i].writer.file_name_prefix()
    }

    /// Hands `event` to the recorder of the gamepad that it came from, and
    /// gives the record to write, if the event completes one.
    pub fn forward(&mut self, event: RawInputEvent) -> (record: Option<SessionRecord>)
        requires
            old(self).wf(),
        ensures
            final(self).wf(),
            final(self)@ == spec_forward(old(self)@, event),
            record == spec_forward_record(old(self)@, event),
    {
        match self.position(event.device()) {
            Some(i) => {
                assert(old(self).slots[i as int].writer.wf());
                let record = self.slots[i].writer.handle_event(event);
                proof {
                    lemma_updated(old(self).slots@, self.slots@, i as int);
                }
                record
            },
            None => None,
        }
    }

    /// Ends every session, and gives the gamepads whose session was running,
    /// in the order of the table.
    pub fn stop_all(&mut self) -> (closed: Vec<usize>)
        requires
            old(self).wf(),
        ensures
            final(self).wf(),
            final(self)@ == spec_all_stopped(old(self)@),
            closed@ == spec_running(old(self)@.order, old(self)@.writers),
    {
        let mut closed: Vec<usize> = Vec::new();
        let mut i: usize = 0;
        while i < self.slots.len()
            invariant
                0 <= i <= self.slots.len(),
                old(self).wf(),
                self.wf(),
                self.slots.len() == old(self).slots.len(),
                forall|j: int|
                    0 <= j < self.slots.len() ==> (#[trigger] self.slots[j]).id
                        == old(self).slots[j].id,
                forall|j: int|
                    0 <= j < i ==> (#[trigger] self.slots[j]).writer@ == spec_stopped(
                        old(self).slots[j].writer@,
                    ),
                forall|j: int|
                    i <= j < self.slots.len() ==> (#[trigger] self.slots[j]).writer
                        == old(self).slots[j].writer,
                closed@ == spec_running(old(self)@.order.take(i as int), old(self)@.writers),
            decreases self.slots.len() - i,
        {
            let ghost before = self.slots@;
            proof {
                lemma_lookup(old(self).slots@, i as int);
                assert(old(self)@.order.take(i + 1).drop_last() =~= old(self)@.order.take(
                    i as int,
                ));
                assert(old(self)@.order.take(i + 1).last() == old(self)@.order[i as int]);
            }
            if self.slots[i].writer.is_running() {
                closed.push(self.slots[i].id);
            }
            self.slots[i].writer.stop();
            proof {
                lemma_updated(before, self.slots@, i as int);
            }
            i = i + 1;
        }
        proof {
            assert(old(self)@.order.take(old(self)@.order.len() as int) =~= old(self)@.order);
            lemma_all_stopped(old(self).slots@, self.slots@);
        }
        closed
    }
}

} // verus!
