use vstd::prelude::*;

use crate::text::decimal;
use crate::text::push_decimal;

verus! {

/// The most entries the rolling history keeps.
pub const MAX_LOG_ENTRIES: usize = 16;

/// The three collision states shown by the event log.
#[derive(Clone, Copy, Debug, PartialEq, Eq, Structural)]
pub enum CollisionEventType {
    Enter,
    Contact,
    Exit,
}

impl CollisionEventType {
    pub open spec fn label_spec(self) -> Seq<char> {
        match self {
            CollisionEventType::Enter => "ENTER"@,
            CollisionEventType::Contact => "CONTACT"@,
            CollisionEventType::Exit => "EXIT"@,
        }
    }

    /// The word shown for this event in the history panel.
    pub fn label(self) -> (s: &'static str)
        ensures
            s@ == self.label_spec(),
    {
        match self {
            CollisionEventType::Enter => "ENTER",
            CollisionEventType::Contact => "CONTACT",
            CollisionEventType::Exit => "EXIT",
        }
    }
}

/// One collision event and the two entities (by their id bits) that participated in it.
#[derive(Clone, Copy, Debug, PartialEq, Eq)]
pub struct CollisionLogEntry {
    pub event_type: CollisionEventType,
    pub entities: [u64; 2],
}

/// An unordered pair of entity ids, stored smaller id first.
#[derive(Clone, Copy, Debug, PartialEq, Eq, Structural)]
pub struct CollisionPairKey {
    pub low: u64,
    pub high: u64,
}

/// The unordered key of a pair of participants.
pub open spec fn key_of(first: u64, second: u64) -> CollisionPairKey {
    if first <= second {
        CollisionPairKey { low: first, high: second }
    } else {
        CollisionPairKey { low: second, high: first }
    }
}

/// The order-independent key under which a pair of participants is tracked.
pub fn pair_key(first: u64, second: u64) -> (key: CollisionPairKey)
    ensures
        key == key_of(first, second),
        key.low <= key.high,
{
    if first <= second {
        CollisionPairKey { low: first, high: second }
    } else {
        CollisionPairKey { low: second, high: first }
    }
}

/// The two participants of a collision: each rigid body if the collider has one,
/// otherwise the collider itself.
pub fn event_participants(collider1: u64, collider2: u64, body1: Option<u64>, body2: Option<u64>) -> (participants: [u64; 2])
    ensures
        participants[0] == (match body1 {
            Some(b) => b,
            None => collider1,
        }),
        participants[1] == (match body2 {
            Some(b) => b,
            None => collider2,
        }),
{
    let first = match body1 {
        Some(b) => b,
        None => collider1,
    };
    let second = match body2 {
        Some(b) => b,
        None => collider2,
    };
    [first, second]
}

/// The history after one more entry: the oldest entry leaves once the history is full.
pub open spec fn record_spec(entries: Seq<CollisionLogEntry>, entry: CollisionLogEntry) -> Seq<CollisionLogEntry> {
    if entries.len() >= MAX_LOG_ENTRIES {
        entries.drop_first().push(entry)
    } else {
        entries.push(entry)
    }
}

/// An open contact: its key and the participants in the order first seen.
#[derive(Clone, Copy, Debug, PartialEq, Eq)]
pub struct ContactRecord {
    pub key: CollisionPairKey,
    pub participants: [u64; 2],
}

/// `keys` without any occurrence of `k`, order kept.
pub open spec fn without_key(keys: Seq<CollisionPairKey>, k: CollisionPairKey) -> Seq<CollisionPairKey>
    decreases keys.len(),
{
    if keys.len() == 0 {
        keys
    } else {
        let rest = without_key(keys.drop_last(), k);
        if keys.last() == k {
            rest
        } else {
            rest.push(keys.last())
        }
    }
}

/// `contacts` without the records of key `k`, order kept.
pub open spec fn without_contact(contacts: Seq<ContactRecord>, k: CollisionPairKey) -> Seq<ContactRecord>
    decreases contacts.len(),
{
    if contacts.len() == 0 {
        contacts
    } else {
        let rest = without_contact(contacts.drop_last(), k);
        if contacts.last().key == k {
            rest
        } else {
            rest.push(contacts.last())
        }
    }
}

/// Whether a contact with key `k` is open.
pub open spec fn has_contact(contacts: Seq<ContactRecord>, k: CollisionPairKey) -> bool {
    exists|i: int| 0 <= i < contacts.len() && #[trigger] contacts[i].key == k
}


/// One pair reported touching by the contact graph this frame.
#[derive(Clone, Copy, Debug, PartialEq, Eq)]
pub struct TouchingPair {
    /// The two participants, bodies where colliders belong to one.
    pub participants: [u64; 2],
    /// Whether either collider is a sensor; sensor overlaps never count as contact.
    pub sensor: bool,
}

/// The model after one more history entry.
pub open spec fn record_model(m: LogModel, event_type: CollisionEventType, p: [u64; 2]) -> LogModel {
    LogModel {
        entries: record_spec(m.entries, CollisionLogEntry { event_type, entities: p }),
        entered: m.entered,
        contacted: m.contacted,
    }
}

/// A collision started: the pair is logged as entering unless it already entered.
pub open spec fn start_step(m: LogModel, p: [u64; 2]) -> LogModel {
    let k = key_of(p[0], p[1]);
    if m.entered.contains(k) {
        m
    } else {
        record_model(
            LogModel { entries: m.entries, entered: m.entered.push(k), contacted: m.contacted },
            CollisionEventType::Enter,
            p,
        )
    }
}

/// The model with pair `k` forgotten entirely.
pub open spec fn forget_spec(m: LogModel, k: CollisionPairKey) -> LogModel {
    LogModel {
        entries: m.entries,
        entered: without_key(m.entered, k),
        contacted: without_contact(m.contacted, k),
    }
}

/// A collision ended: the pair is forgotten and an exit is always logged.
pub open spec fn end_step(m: LogModel, p: [u64; 2]) -> LogModel {
    record_model(forget_spec(m, key_of(p[0], p[1])), CollisionEventType::Exit, p)
}

/// A pair is touching: it enters if it had not, and its contact is logged once.
pub open spec fn touch_step(m: LogModel, t: TouchingPair) -> LogModel {
    if t.sensor {
        m
    } else {
        let k = key_of(t.participants[0], t.participants[1]);
        let m1 = start_step(m, t.participants);
        if has_contact(m1.contacted, k) {
            m1
        } else {
            record_model(
                LogModel {
                    entries: m1.entries,
                    entered: m1.entered,
                    contacted: m1.contacted.push(ContactRecord { key: k, participants: t.participants }),
                },
                CollisionEventType::Contact,
                t.participants,
            )
        }
    }
}

/// Whether some non-sensor touching pair has key `k`.
pub open spec fn touches_key(touching: Seq<TouchingPair>, k: CollisionPairKey) -> bool {
    exists|i: int|
        0 <= i < touching.len() && !touching[i].sensor && #[trigger] key_of(
            touching[i].participants[0],
            touching[i].participants[1],
        ) == k
}

/// An open contact whose pair no longer touches is closed with an exit.
pub open spec fn close_step(m: LogModel, c: ContactRecord, touching: Seq<TouchingPair>) -> LogModel {
    if touches_key(touching, c.key) {
        m
    } else {
        record_model(forget_spec(m, c.key), CollisionEventType::Exit, c.participants)
    }
}

pub open spec fn apply_starts(m: LogModel, starts: Seq<[u64; 2]>) -> LogModel
    decreases starts.len(),
{
    if starts.len() == 0 {
        m
    } else {
        apply_starts(start_step(m, starts[0]), starts.drop_first())
    }
}

pub open spec fn apply_ends(m: LogModel, ends: Seq<[u64; 2]>) -> LogModel
    decreases ends.len(),
{
    if ends.len() == 0 {
        m
    } else {
        apply_ends(end_step(m, ends[0]), ends.drop_first())
    }
}

pub open spec fn apply_touches(m: LogModel, touching: Seq<TouchingPair>) -> LogModel
    decreases touching.len(),
{
    if touching.len() == 0 {
        m
    } else {
        apply_touches(touch_step(m, touching[0]), touching.drop_first())
    }
}

pub open spec fn close_stale(m: LogModel, pending: Seq<ContactRecord>, touching: Seq<TouchingPair>) -> LogModel
    decreases pending.len(),
{
    if pending.len() == 0 {
        m
    } else {
        close_stale(close_step(m, pending[0], touching), pending.drop_first(), touching)
    }
}

/// One frame of bookkeeping: started collisions, ended collisions, the pairs touching
/// now, then an exit for every open contact that is no longer touching, oldest first.
pub open spec fn frame_spec(
    m: LogModel,
    starts: Seq<[u64; 2]>,
    ends: Seq<[u64; 2]>,
    touching: Seq<TouchingPair>,
) -> LogModel {
    let m3 = apply_touches(apply_ends(apply_starts(m, starts), ends), touching);
    close_stale(m3, m3.contacted, touching)
}

proof fn lemma_without_key(keys: Seq<CollisionPairKey>, k: CollisionPairKey)
    ensures
        forall|x: CollisionPairKey| #[trigger]
            without_key(keys, k).contains(x) <==> (keys.contains(x) && x != k),
    decreases keys.len(),
{
    if keys.len() > 0 {
        let init = keys.drop_last();
        let last = keys.last();
        lemma_without_key(init, k);
        assert(keys =~= init.push(last));
        assert forall|x: CollisionPairKey| #[trigger]
            without_key(keys, k).contains(x) <==> (keys.contains(x) && x != k) by {
            vstd::seq_lib::lemma_seq_contains_after_push(init, last, x);
            vstd::seq_lib::lemma_seq_contains_after_push(without_key(init, k), last, x);
        }
    }
}

proof fn lemma_without_contact(cs: Seq<ContactRecord>, k: CollisionPairKey)
    ensures
        forall|c: ContactRecord| #[trigger]
            without_contact(cs, k).contains(c) <==> (cs.contains(c) && c.key != k),
    decreases cs.len(),
{
    if cs.len() > 0 {
        let init = cs.drop_last();
        let last = cs.last();
        lemma_without_contact(init, k);
        assert(cs =~= init.push(last));
        assert forall|c: ContactRecord| #[trigger]
            without_contact(cs, k).contains(c) <==> (cs.contains(c) && c.key != k) by {
            vstd::seq_lib::lemma_seq_contains_after_push(init, last, c);
            vstd::seq_lib::lemma_seq_contains_after_push(without_contact(init, k), last, c);
        }
    }
}

/// Model-level well-formedness: every open contact belongs to an entered pair.
pub open spec fn model_wf(m: LogModel) -> bool {
    &&& m.entries.len() <= MAX_LOG_ENTRIES
    &&& forall|i: int| 0 <= i < m.contacted.len() ==> m.entered.contains(#[trigger] m.contacted[i].key)
}

proof fn lemma_forget_keeps_wf(m: LogModel, k: CollisionPairKey)
    requires
        model_wf(m),
    ensures
        model_wf(forget_spec(m, k)),
        !forget_spec(m, k).entered.contains(k),
        !has_contact(forget_spec(m, k).contacted, k),
{
    lemma_without_key(m.entered, k);
    lemma_without_contact(m.contacted, k);
    let f = forget_spec(m, k);
    assert forall|i: int| 0 <= i < f.contacted.len() implies f.entered.contains(#[trigger] f.contacted[i].key) by {
        let c = f.contacted[i];
        assert(f.contacted.contains(c));
        let j = choose|j: int| 0 <= j < m.contacted.len() && m.contacted[j] == c;
        assert(m.entered.contains(m.contacted[j].key));
    }
    if has_contact(f.contacted, k) {
        let i = choose|i: int| 0 <= i < f.contacted.len() && #[trigger] f.contacted[i].key == k;
        assert(f.contacted.contains(f.contacted[i]));
    }
}

/// The abstract content of the log: the displayed history, the pairs seen entering,
/// and the open contacts in the order they began.
#[verifier::ext_equal]
pub struct LogModel {
    pub entries: Seq<CollisionLogEntry>,
    pub entered: Seq<CollisionPairKey>,
    pub contacted: Seq<ContactRecord>,
}

/// The rolling collision history displayed by the sandbox UI.
#[derive(Debug)]
pub struct CollisionEventLog {
    pub entries: Vec<CollisionLogEntry>,
    entered_pairs: Vec<CollisionPairKey>,
    contacted_pairs: Vec<ContactRecord>,
}

impl CollisionEventLog {
    pub closed spec fn model(&self) -> LogModel {
        LogModel { entries: self.entries@, entered: self.entered_pairs@, contacted: self.contacted_pairs@ }
    }

    /// The history never exceeds its bound, and every open contact belongs to an entered pair.
    pub closed spec fn wf(&self) -> bool {
        model_wf(self.model())
    }

    /// What well-formedness promises: a bounded history, shown exactly as modelled, and
    /// no open contact outside the entered pairs.
    pub proof fn lemma_wf(&self)
        requires
            self.wf(),
        ensures
            model_wf(self.model()),
    {
    }

    /// An empty log that tracks no pair.
    pub fn new() -> (log: CollisionEventLog)
        ensures
            log.wf(),
            log.model().entries.len() == 0,
            log.model().entered.len() == 0,
            log.model().contacted.len() == 0,
    {
        CollisionEventLog { entries: Vec::new(), entered_pairs: Vec::new(), contacted_pairs: Vec::new() }
    }

    /// The displayed history, oldest entry first.
    pub fn history(&self) -> (entries: &Vec<CollisionLogEntry>)
        ensures
            entries@ == self.model().entries,
    {
        &self.entries
    }

    /// Appends one event, dropping the oldest when the history is full.
    pub fn record(&mut self, event_type: CollisionEventType, first: u64, second: u64)
        requires
            old(self).wf(),
        ensures
            final(self).wf(),
            final(self).model().entries == record_spec(
                old(self).model().entries,
                CollisionLogEntry { event_type, entities: [first, second] },
            ),
            final(self).model().entered == old(self).model().entered,
            final(self).model().contacted == old(self).model().contacted,
    {
        if self.entries.len() == MAX_LOG_ENTRIES {
            self.entries.remove(0);
        }
        self.entries.push(CollisionLogEntry { event_type, entities: [first, second] });
        proof {
            let e = CollisionLogEntry { event_type, entities: [first, second] };
            assert(self.entries@ =~= record_spec(old(self).entries@, e));
            assert(self.model().contacted == old(self).model().contacted);
            assert(self.model().entered == old(self).model().entered);
        }
    }

    fn contains_entered(&self, k: CollisionPairKey) -> (b: bool)
        ensures
            b == self.model().entered.contains(k),
    {
        let mut i: usize = 0;
        while i < self.entered_pairs.len()
            invariant
                0 <= i <= self.entered_pairs@.len(),
                forall|j: int| 0 <= j < i ==> self.entered_pairs@[j] != k,
            decreases self.entered_pairs@.len() - i,
        {
            if self.entered_pairs[i] == k {
                proof {
                    assert(self.entered_pairs@[i as int] == k);
                }
                return true;
            }
            i += 1;
        }
        false
    }

    fn has_open_contact(&self, k: CollisionPairKey) -> (b: bool)
        ensures
            b == has_contact(self.model().contacted, k),
    {
        let mut i: usize = 0;
        while i < self.contacted_pairs.len()
            invariant
                0 <= i <= self.contacted_pairs@.len(),
                forall|j: int| 0 <= j < i ==> self.contacted_pairs@[j].key != k,
            decreases self.contacted_pairs@.len() - i,
        {
            if self.contacted_pairs[i].key == k {
                return true;
            }
            i += 1;
        }
        false
    }

    fn forget(&mut self, k: CollisionPairKey)
        requires
            old(self).wf(),
        ensures
            final(self).wf(),
            final(self).model() == forget_spec(old(self).model(), k),
    {
        let mut kept_keys: Vec<CollisionPairKey> = Vec::new();
        let mut i: usize = 0;
        while i < self.entered_pairs.len()
            invariant
                0 <= i <= self.entered_pairs@.len(),
                kept_keys@ == without_key(self.entered_pairs@.take(i as int), k),
            decreases self.entered_pairs@.len() - i,
        {
            let x = self.entered_pairs[i];
            proof {
                assert(self.entered_pairs@.take(i + 1).drop_last() =~= self.entered_pairs@.take(i as int));
            }
            if x != k {
                kept_keys.push(x);
            }
            i += 1;
        }
        let mut kept_contacts: Vec<ContactRecord> = Vec::new();
        let mut j: usize = 0;
        while j < self.contacted_pairs.len()
            invariant
                0 <= j <= self.contacted_pairs@.len(),
                kept_contacts@ == without_contact(self.contacted_pairs@.take(j as int), k),
            decreases self.contacted_pairs@.len() - j,
        {
            let c = self.contacted_pairs[j];
            proof {
                assert(self.contacted_pairs@.take(j + 1).drop_last() =~= self.contacted_pairs@.take(j as int));
            }
            if c.key != k {
                kept_contacts.push(c);
            }
            j += 1;
        }
        proof {
            assert(self.entered_pairs@.take(self.entered_pairs@.len() as int) =~= self.entered_pairs@);
            assert(self.contacted_pairs@.take(self.contacted_pairs@.len() as int) =~= self.contacted_pairs@);
            lemma_forget_keeps_wf(self.model(), k);
        }
        self.entered_pairs = kept_keys;
        self.contacted_pairs = kept_contacts;
        proof {
            assert(self.model() =~= forget_spec(old(self).model(), k));
        }
    }

    /// Handles one started collision between the two participants.
    pub fn start(&mut self, participants: [u64; 2])
        requires
            old(self).wf(),
        ensures
            final(self).wf(),
            final(self).model() == start_step(old(self).model(), participants),
    {
        let k = pair_key(participants[0], participants[1]);
        if !self.contains_entered(k) {
            self.entered_pairs.push(k);
            proof {
                let om = old(self).model();
                assert forall|i: int| 0 <= i < self.model().contacted.len() implies
                    self.model().entered.contains(#[trigger] self.model().contacted[i].key) by {
                    assert(om.contacted[i] == self.model().contacted[i]);
                    assert(om.entered.contains(om.contacted[i].key));
                    vstd::seq_lib::lemma_seq_contains_after_push(om.entered, k, om.contacted[i].key);
                }
            }
            self.record(CollisionEventType::Enter, participants[0], participants[1]);
            proof {
                assert(participants =~= [participants[0], participants[1]]);
            }
        }
        proof {
            assert(self.model() =~= start_step(old(self).model(), participants));
        }
    }

    /// Handles one ended collision: the pair is forgotten and an exit is logged.
    pub fn end(&mut self, participants: [u64; 2])
        requires
            old(self).wf(),
        ensures
            final(self).wf(),
            final(self).model() == end_step(old(self).model(), participants),
    {
        let k = pair_key(participants[0], participants[1]);
        self.forget(k);
        self.record(CollisionEventType::Exit, participants[0], participants[1]);
        proof {
            assert(participants =~= [participants[0], participants[1]]);
            assert(self.model() =~= end_step(old(self).model(), participants));
        }
    }

    /// Handles one pair that touches this frame.
    pub fn touch(&mut self, pair: TouchingPair)
        requires
            old(self).wf(),
        ensures
            final(self).wf(),
            final(self).model() == touch_step(old(self).model(), pair),
    {
        if pair.sensor {
            return;
        }
        let p = pair.participants;
        let k = pair_key(p[0], p[1]);
        self.start(p);
        let ghost m1 = self.model();
        if !self.has_open_contact(k) {
            proof {
                vstd::seq_lib::lemma_seq_contains_after_push(old(self).model().entered, k, k);
                assert(self.model().entered.contains(k));
            }
            self.contacted_pairs.push(ContactRecord { key: k, participants: p });
            self.record(CollisionEventType::Contact, p[0], p[1]);
            proof {
                assert(p =~= [p[0], p[1]]);
            }
        }
        proof {
            assert(self.model() =~= touch_step(old(self).model(), pair));
        }
    }

    fn touches(touching: &Vec<TouchingPair>, k: CollisionPairKey) -> (b: bool)
        ensures
            b == touches_key(touching@, k),
    {
        let mut i: usize = 0;
        while i < touching.len()
            invariant
                0 <= i <= touching@.len(),
                forall|j: int|
                    0 <= j < i ==> touching@[j].sensor || #[trigger] key_of(
                        touching@[j].participants[0],
                        touching@[j].participants[1],
                    ) != k,
            decreases touching@.len() - i,
        {
            let t = touching[i];
            if !t.sensor && pair_key(t.participants[0], t.participants[1]) == k {
                return true;
            }
            i += 1;
        }
        false
    }

    /// Closes, oldest first, every open contact whose pair is not touching.
    fn close_stale_contacts(&mut self, touching: &Vec<TouchingPair>)
        requires
            old(self).wf(),
        ensures
            final(self).wf(),
            final(self).model() == close_stale(old(self).model(), old(self).model().contacted, touching@),
    {
        let mut pending: Vec<ContactRecord> = Vec::new();
        let mut j: usize = 0;
        while j < self.contacted_pairs.len()
            invariant
                0 <= j <= self.contacted_pairs@.len(),
                pending@ == self.contacted_pairs@.take(j as int),
            decreases self.contacted_pairs@.len() - j,
        {
            pending.push(self.contacted_pairs[j]);
            proof {
                assert(pending@ =~= self.contacted_pairs@.take(j + 1));
            }
            j += 1;
        }
        proof {
            assert(pending@ =~= old(self).model().contacted);
        }
        let ghost goal = close_stale(old(self).model(), pending@, touching@);
        proof {
            assert(pending@.skip(0) =~= pending@);
        }
        let mut i: usize = 0;
        while i < pending.len()
            invariant
                0 <= i <= pending@.len(),
                self.wf(),
                close_stale(self.model(), pending@.skip(i as int), touching@) == goal,
            decreases pending@.len() - i,
        {
            let c = pending[i];
            proof {
                assert(pending@.skip(i as int).drop_first() =~= pending@.skip(i + 1));
                assert(pending@.skip(i as int)[0] == c);
            }
            if !Self::touches(touching, c.key) {
                self.forget(c.key);
                self.record(CollisionEventType::Exit, c.participants[0], c.participants[1]);
                proof {
                    assert(c.participants =~= [c.participants[0], c.participants[1]]);
                }
            }
            i += 1;
        }
        proof {
            assert(pending@.skip(pending@.len() as int) =~= Seq::<ContactRecord>::empty());
        }
    }

    /// One frame of collision bookkeeping (see [`frame_spec`]): started and ended
    /// collisions as reported, then the pairs touching now, then an exit for each
    /// open contact that stopped touching.
    pub fn process_events(
        &mut self,
        starts: &Vec<[u64; 2]>,
        ends: &Vec<[u64; 2]>,
        touching: &Vec<TouchingPair>,
    )
        requires
            old(self).wf(),
        ensures
            final(self).wf(),
            final(self).model() == frame_spec(old(self).model(), starts@, ends@, touching@),
            forall|p: [u64; 2]|
                #![trigger ends@.contains(p)]
                ends@.contains(p) && !touches_key(touching@, key_of(p[0], p[1])) ==> {
                    &&& !final(self).model().entered.contains(key_of(p[0], p[1]))
                    &&& shown_ended(final(self).model().entries, key_of(p[0], p[1]))
                },
    {
        proof {
            assert forall|p: [u64; 2]|
                #![trigger ends@.contains(p)]
                ends@.contains(p) && !touches_key(touching@, key_of(p[0], p[1])) implies {
                    &&& !frame_spec(old(self).model(), starts@, ends@, touching@).entered.contains(
                        key_of(p[0], p[1]),
                    )
                    &&& shown_ended(
                        frame_spec(old(self).model(), starts@, ends@, touching@).entries,
                        key_of(p[0], p[1]),
                    )
                } by {
                lemma_ended_pair_is_closed_after_frame(old(self).model(), starts@, ends@, touching@, p);
            }
        }
        let ghost m1 = apply_starts(old(self).model(), starts@);
        proof {
            assert(starts@.skip(0) =~= starts@);
        }
        let mut i: usize = 0;
        while i < starts.len()
            invariant
                0 <= i <= starts@.len(),
                self.wf(),
                apply_starts(self.model(), starts@.skip(i as int)) == m1,
            decreases starts@.len() - i,
        {
            proof {
                assert(starts@.skip(i as int).drop_first() =~= starts@.skip(i + 1));
            }
            self.start(starts[i]);
            i += 1;
        }
        proof {
            assert(starts@.skip(starts@.len() as int) =~= Seq::<[u64; 2]>::empty());
        }
        let ghost m2 = apply_ends(m1, ends@);
        proof {
            assert(ends@.skip(0) =~= ends@);
        }
        let mut i: usize = 0;
        while i < ends.len()
            invariant
                0 <= i <= ends@.len(),
                self.wf(),
                apply_ends(self.model(), ends@.skip(i as int)) == m2,
            decreases ends@.len() - i,
        {
            proof {
                assert(ends@.skip(i as int).drop_first() =~= ends@.skip(i + 1));
            }
            self.end(ends[i]);
            i += 1;
        }
        proof {
            assert(ends@.skip(ends@.len() as int) =~= Seq::<[u64; 2]>::empty());
        }
        let ghost m3 = apply_touches(m2, touching@);
        proof {
            assert(touching@.skip(0) =~= touching@);
        }
        let mut i: usize = 0;
        while i < touching.len()
            invariant
                0 <= i <= touching@.len(),
                self.wf(),
                apply_touches(self.model(), touching@.skip(i as int)) == m3,
            decreases touching@.len() - i,
        {
            proof {
                assert(touching@.skip(i as int).drop_first() =~= touching@.skip(i + 1));
            }
            self.touch(touching[i]);
            i += 1;
        }
        proof {
            assert(touching@.skip(touching@.len() as int) =~= Seq::<TouchingPair>::empty());
        }
        self.close_stale_contacts(touching);
    }

    /// Removes displayed history while preserving collision tracking state.
    pub fn clear(&mut self)
        requires
            old(self).wf(),
        ensures
            final(self).wf(),
            final(self).model().entries.len() == 0,
            final(self).model().entered == old(self).model().entered,
            final(self).model().contacted == old(self).model().contacted,
    {
        self.entries.clear();
        proof {
            assert(self.model().contacted == old(self).model().contacted);
            assert(self.model().entered == old(self).model().entered);
        }
    }
}

} // verus!

verus! {

/// The tracking key of a pair does not depend on which participant is named first.
pub proof fn lemma_pair_key_is_order_independent(first: u64, second: u64)
    ensures
        key_of(first, second) == key_of(second, first),
        key_of(first, second).low <= key_of(first, second).high,
{
}

/// A pair that already entered is not logged as entering again until it exits.
pub proof fn lemma_enter_is_logged_once(m: LogModel, participants: [u64; 2])
    ensures
        start_step(start_step(m, participants), participants) == start_step(m, participants),
        start_step(m, participants).entered.contains(key_of(participants[0], participants[1])),
{
    let k = key_of(participants[0], participants[1]);
    if !m.entered.contains(k) {
        vstd::seq_lib::lemma_seq_contains_after_push(m.entered, k, k);
    }
}

/// An ended collision always appends an exit and forgets its pair, so the next start
/// of the same pair is logged as entering again.
pub proof fn lemma_end_forgets_the_pair(m: LogModel, participants: [u64; 2])
    requires
        model_wf(m),
    ensures
        end_step(m, participants).entries.last() == (CollisionLogEntry {
            event_type: CollisionEventType::Exit,
            entities: participants,
        }),
        !end_step(m, participants).entered.contains(key_of(participants[0], participants[1])),
        !has_contact(end_step(m, participants).contacted, key_of(participants[0], participants[1])),
        start_step(end_step(m, participants), participants).entries.last() == (CollisionLogEntry {
            event_type: CollisionEventType::Enter,
            entities: participants,
        }),
{
    lemma_forget_keeps_wf(m, key_of(participants[0], participants[1]));
}

proof fn lemma_touch_step_contacts(m: LogModel, t: TouchingPair)
    ensures
        forall|k: CollisionPairKey|
            has_contact(m.contacted, k) ==> #[trigger] has_contact(touch_step(m, t).contacted, k),
        !t.sensor ==> has_contact(
            touch_step(m, t).contacted,
            key_of(t.participants[0], t.participants[1]),
        ),
{
    if !t.sensor {
        let k = key_of(t.participants[0], t.participants[1]);
        let m1 = start_step(m, t.participants);
        assert(m1.contacted == m.contacted);
        if !has_contact(m1.contacted, k) {
            let pushed = m1.contacted.push(ContactRecord { key: k, participants: t.participants });
            assert(touch_step(m, t).contacted == pushed);
            assert(pushed[m1.contacted.len() as int].key == k);
            assert forall|k2: CollisionPairKey| has_contact(m.contacted, k2) implies #[trigger] has_contact(
                touch_step(m, t).contacted,
                k2,
            ) by {
                let i = choose|i: int| 0 <= i < m.contacted.len() && #[trigger] m.contacted[i].key == k2;
                assert(pushed[i] == m.contacted[i]);
            }
        }
    }
}

proof fn lemma_apply_touches_contacts(m: LogModel, touching: Seq<TouchingPair>)
    ensures
        forall|k: CollisionPairKey|
            has_contact(m.contacted, k) ==> #[trigger] has_contact(apply_touches(m, touching).contacted, k),
        forall|i: int|
            0 <= i < touching.len() && !touching[i].sensor ==> has_contact(
                apply_touches(m, touching).contacted,
                #[trigger] key_of(touching[i].participants[0], touching[i].participants[1]),
            ),
    decreases touching.len(),
{
    if touching.len() > 0 {
        let m1 = touch_step(m, touching[0]);
        let rest = touching.drop_first();
        lemma_touch_step_contacts(m, touching[0]);
        lemma_apply_touches_contacts(m1, rest);
        assert(apply_touches(m, touching) == apply_touches(m1, rest));
        assert forall|i: int|
            0 <= i < touching.len() && !touching[i].sensor implies has_contact(
                apply_touches(m, touching).contacted,
                #[trigger] key_of(touching[i].participants[0], touching[i].participants[1]),
            ) by {
            if i > 0 {
                assert(rest[i - 1] == touching[i]);
            }
        }
    }
}

proof fn lemma_close_step_keeps_touching(m: LogModel, c: ContactRecord, touching: Seq<TouchingPair>)
    ensures
        forall|k: CollisionPairKey|
            touches_key(touching, k) && has_contact(m.contacted, k) ==> #[trigger] has_contact(
                close_step(m, c, touching).contacted,
                k,
            ),
        forall|r: ContactRecord| #[trigger]
            close_step(m, c, touching).contacted.contains(r) ==> m.contacted.contains(r),
        !touches_key(touching, c.key) ==> !has_contact(close_step(m, c, touching).contacted, c.key),
{
    if !touches_key(touching, c.key) {
        lemma_without_contact(m.contacted, c.key);
        let after = close_step(m, c, touching).contacted;
        assert(after == without_contact(m.contacted, c.key));
        assert forall|k: CollisionPairKey|
            touches_key(touching, k) && has_contact(m.contacted, k) implies #[trigger] has_contact(after, k) by {
            let i = choose|i: int| 0 <= i < m.contacted.len() && #[trigger] m.contacted[i].key == k;
            assert(m.contacted.contains(m.contacted[i]));
            assert(after.contains(m.contacted[i]));
            let j = choose|j: int| 0 <= j < after.len() && after[j] == m.contacted[i];
            assert(after[j].key == k);
        }
        if has_contact(after, c.key) {
            let j = choose|j: int| 0 <= j < after.len() && #[trigger] after[j].key == c.key;
            assert(after.contains(after[j]));
        }
    }
}

proof fn lemma_close_stale_contacts(m: LogModel, pending: Seq<ContactRecord>, touching: Seq<TouchingPair>)
    ensures
        forall|k: CollisionPairKey|
            touches_key(touching, k) && has_contact(m.contacted, k) ==> #[trigger] has_contact(
                close_stale(m, pending, touching).contacted,
                k,
            ),
        forall|r: ContactRecord| #[trigger]
            close_stale(m, pending, touching).contacted.contains(r) ==> m.contacted.contains(r) && (
            touches_key(touching, r.key) || !has_contact(pending, r.key)),
    decreases pending.len(),
{
    if pending.len() > 0 {
        let c = pending[0];
        let m1 = close_step(m, c, touching);
        let rest = pending.drop_first();
        lemma_close_step_keeps_touching(m, c, touching);
        lemma_close_stale_contacts(m1, rest, touching);
        let result = close_stale(m, pending, touching);
        assert(result == close_stale(m1, rest, touching));
        assert forall|r: ContactRecord| #[trigger] result.contacted.contains(r) implies m.contacted.contains(r)
            && (touches_key(touching, r.key) || !has_contact(pending, r.key)) by {
            assert(m1.contacted.contains(r));
            if !touches_key(touching, r.key) && has_contact(pending, r.key) {
                let j = choose|j: int| 0 <= j < pending.len() && #[trigger] pending[j].key == r.key;
                if j == 0 {
                    let i = choose|i: int| 0 <= i < m1.contacted.len() && m1.contacted[i] == r;
                    assert(m1.contacted[i].key == c.key);
                } else {
                    assert(rest[j - 1].key == r.key);
                }
            }
        }
    }
}

/// After every frame the open contacts are exactly the pairs touching now: each open
/// contact belongs to a non-sensor pair reported touching, and each such pair has one.
pub proof fn lemma_frame_tracks_touching_pairs(
    m: LogModel,
    starts: Seq<[u64; 2]>,
    ends: Seq<[u64; 2]>,
    touching: Seq<TouchingPair>,
)
    ensures
        forall|i: int|
            0 <= i < frame_spec(m, starts, ends, touching).contacted.len() ==> touches_key(
                touching,
                #[trigger] frame_spec(m, starts, ends, touching).contacted[i].key,
            ),
        forall|i: int|
            0 <= i < touching.len() && !touching[i].sensor ==> has_contact(
                frame_spec(m, starts, ends, touching).contacted,
                #[trigger] key_of(touching[i].participants[0], touching[i].participants[1]),
            ),
{
    let m2 = apply_ends(apply_starts(m, starts), ends);
    let m3 = apply_touches(m2, touching);
    let result = frame_spec(m, starts, ends, touching);
    lemma_apply_touches_contacts(m2, touching);
    lemma_close_stale_contacts(m3, m3.contacted, touching);
    assert forall|i: int| 0 <= i < result.contacted.len() implies touches_key(
        touching,
        #[trigger] result.contacted[i].key,
    ) by {
        let r = result.contacted[i];
        assert(result.contacted.contains(r));
        assert(m3.contacted.contains(r));
        let j = choose|j: int| 0 <= j < m3.contacted.len() && m3.contacted[j] == r;
        assert(m3.contacted[j].key == r.key);
    }
    assert forall|i: int| 0 <= i < touching.len() && !touching[i].sensor implies has_contact(
        result.contacted,
        #[trigger] key_of(touching[i].participants[0], touching[i].participants[1]),
    ) by {
        let k = key_of(touching[i].participants[0], touching[i].participants[1]);
        assert(touches_key(touching, k));
        assert(has_contact(m3.contacted, k));
    }
}

/// The label of an entity in the log: its name, or `Entity <bits>` when it has none.
pub open spec fn entity_label_spec(name: Option<Seq<char>>, bits: u64) -> Seq<char> {
    match name {
        Some(n) => n,
        None => "Entity "@ + decimal(bits as nat),
    }
}

/// The label of an entity in the log: its name, or `Entity <bits>` when it has none.
pub fn entity_label(name: Option<&str>, bits: u64) -> (label: String)
    ensures
        label@ == entity_label_spec(
            match name {
                Some(n) => Some(n@),
                None => None,
            },
            bits,
        ),
{
    match name {
        Some(n) => String::from_str(n),
        None => {
            let mut label = String::from_str("Entity ");
            push_decimal(&mut label, bits);
            label
        },
    }
}

/// A history entry with the labels of its two entities.
#[derive(Clone, Debug)]
pub struct LabelledEntry {
    pub first: String,
    pub second: String,
    pub event_type: CollisionEventType,
}

/// One history line: `<first> → <second> <event>` and a line break.
pub open spec fn history_line_spec(e: LabelledEntry) -> Seq<char> {
    e.first@ + " \u{2192} "@ + e.second@ + " "@ + e.event_type.label_spec() + "\n"@
}

/// The history lines of the entries, oldest first.
pub open spec fn history_lines_spec(entries: Seq<LabelledEntry>) -> Seq<char>
    decreases entries.len(),
{
    if entries.len() == 0 {
        Seq::empty()
    } else {
        history_lines_spec(entries.drop_last()) + history_line_spec(entries.last())
    }
}

/// The log panel's text: a placeholder while the history is empty, otherwise one line
/// per entry.
pub open spec fn history_text_spec(entries: Seq<LabelledEntry>) -> Seq<char> {
    if entries.len() == 0 {
        "No collision events yet."@
    } else {
        history_lines_spec(entries)
    }
}

/// The log panel's text (see [`history_text_spec`]).
pub fn history_text(entries: &Vec<LabelledEntry>) -> (text: String)
    ensures
        text@ == history_text_spec(entries@),
{
    if entries.len() == 0 {
        return String::from_str("No collision events yet.");
    }
    let mut text = String::new();
    let mut i: usize = 0;
    while i < entries.len()
        invariant
            i <= entries@.len(),
            text@ == history_lines_spec(entries@.take(i as int)),
        decreases entries@.len() - i,
    {
        proof {
            assert(entries@.take(i + 1).drop_last() =~= entries@.take(i as int));
        }
        let e = &entries[i];
        text.append(e.first.as_str());
        text.append(" \u{2192} ");
        text.append(e.second.as_str());
        text.append(" ");
        text.append(e.event_type.label());
        text.append("\n");
        i += 1;
    }
    proof {
        assert(entries@.take(entries@.len() as int) =~= entries@);
    }
    text
}


/// The event of the newest history entry about pair `k`, if the history holds one.
pub open spec fn last_event_of(entries: Seq<CollisionLogEntry>, k: CollisionPairKey) -> Option<CollisionEventType>
    decreases entries.len(),
{
    if entries.len() == 0 {
        None
    } else if key_of(entries.last().entities[0], entries.last().entities[1]) == k {
        Some(entries.last().event_type)
    } else {
        last_event_of(entries.drop_last(), k)
    }
}

/// The history shows pair `k` as ended: its newest entry, if any, is an exit.
pub open spec fn shown_ended(entries: Seq<CollisionLogEntry>, k: CollisionPairKey) -> bool {
    match last_event_of(entries, k) {
        Some(CollisionEventType::Enter) => false,
        Some(CollisionEventType::Contact) => false,
        _ => true,
    }
}

/// Pair `k` is closed in the model: not entered, and shown as ended.
pub open spec fn pair_closed(m: LogModel, k: CollisionPairKey) -> bool {
    &&& !m.entered.contains(k)
    &&& shown_ended(m.entries, k)
}

proof fn lemma_last_event_drop_first(s: Seq<CollisionLogEntry>, k: CollisionPairKey)
    requires
        s.len() > 0,
    ensures
        last_event_of(s.drop_first(), k) == last_event_of(s, k) || last_event_of(s.drop_first(), k)
            is None,
    decreases s.len(),
{
    let t = s.drop_first();
    if s.len() == 1 {
        assert(t.len() == 0);
    } else {
        assert(t.last() == s.last());
        assert(t.drop_last() =~= s.drop_last().drop_first());
        if key_of(s.last().entities[0], s.last().entities[1]) != k {
            lemma_last_event_drop_first(s.drop_last(), k);
        }
    }
}

proof fn lemma_record_shown_ended(entries: Seq<CollisionLogEntry>, e: CollisionLogEntry, k: CollisionPairKey)
    requires
        e.event_type == CollisionEventType::Exit || key_of(e.entities[0], e.entities[1]) != k,
        shown_ended(entries, k) || key_of(e.entities[0], e.entities[1]) == k,
    ensures
        shown_ended(record_spec(entries, e), k),
{
    let base = if entries.len() >= MAX_LOG_ENTRIES {
        entries.drop_first()
    } else {
        entries
    };
    if entries.len() >= MAX_LOG_ENTRIES {
        lemma_last_event_drop_first(entries, k);
    }
    assert(record_spec(entries, e) == base.push(e));
    assert(base.push(e).drop_last() =~= base);
    assert(base.push(e).last() == e);
}

proof fn lemma_end_step_closes(m: LogModel, p: [u64; 2], k: CollisionPairKey)
    requires
        pair_closed(m, k) || key_of(p[0], p[1]) == k,
    ensures
        pair_closed(end_step(m, p), k),
{
    let kp = key_of(p[0], p[1]);
    lemma_without_key(m.entered, kp);
    let f = forget_spec(m, kp);
    assert(!f.entered.contains(k));
    lemma_record_shown_ended(f.entries, CollisionLogEntry { event_type: CollisionEventType::Exit, entities: p }, k);
}

proof fn lemma_apply_ends_closes(m: LogModel, ends: Seq<[u64; 2]>, k: CollisionPairKey)
    requires
        pair_closed(m, k) || exists|i: int| 0 <= i < ends.len() && #[trigger] key_of(ends[i][0], ends[i][1]) == k,
    ensures
        pair_closed(apply_ends(m, ends), k),
    decreases ends.len(),
{
    if ends.len() > 0 {
        let rest = ends.drop_first();
        if pair_closed(m, k) || key_of(ends[0][0], ends[0][1]) == k {
            lemma_end_step_closes(m, ends[0], k);
        } else {
            let i = choose|i: int| 0 <= i < ends.len() && #[trigger] key_of(ends[i][0], ends[i][1]) == k;
            assert(i > 0);
            assert(rest[i - 1] == ends[i]);
            assert(key_of(rest[i - 1][0], rest[i - 1][1]) == k);
        }
        lemma_apply_ends_closes(end_step(m, ends[0]), rest, k);
    }
}

proof fn lemma_apply_touches_keeps_closed(m: LogModel, touching: Seq<TouchingPair>, k: CollisionPairKey)
    requires
        pair_closed(m, k),
        !touches_key(touching, k),
    ensures
        pair_closed(apply_touches(m, touching), k),
    decreases touching.len(),
{
    if touching.len() > 0 {
        let t = touching[0];
        let rest = touching.drop_first();
        if !t.sensor {
            let kt = key_of(t.participants[0], t.participants[1]);
            assert(kt != k) by {
                if kt == k {
                    assert(0 <= 0 < touching.len() && !touching[0].sensor && key_of(
                        touching[0].participants[0],
                        touching[0].participants[1],
                    ) == k);
                }
            }
            let m1 = start_step(m, t.participants);
            if !m.entered.contains(kt) {
                let grown = m.entered.push(kt);
                assert forall|x: CollisionPairKey| grown.contains(x) implies x == kt || m.entered.contains(x) by {
                    vstd::seq_lib::lemma_seq_contains_after_push(m.entered, kt, x);
                }
                lemma_record_shown_ended(
                    m.entries,
                    CollisionLogEntry { event_type: CollisionEventType::Enter, entities: t.participants },
                    k,
                );
            }
            assert(pair_closed(m1, k));
            if !has_contact(m1.contacted, kt) {
                lemma_record_shown_ended(
                    m1.entries,
                    CollisionLogEntry { event_type: CollisionEventType::Contact, entities: t.participants },
                    k,
                );
            }
        }
        assert(pair_closed(touch_step(m, t), k));
        assert(!touches_key(rest, k)) by {
            if touches_key(rest, k) {
                let j = choose|j: int|
                    0 <= j < rest.len() && !rest[j].sensor && #[trigger] key_of(
                        rest[j].participants[0],
                        rest[j].participants[1],
                    ) == k;
                assert(rest[j] == touching[j + 1]);
                assert(0 <= j + 1 < touching.len() && !touching[j + 1].sensor && key_of(
                    touching[j + 1].participants[0],
                    touching[j + 1].participants[1],
                ) == k);
            }
        }
        lemma_apply_touches_keeps_closed(touch_step(m, t), rest, k);
    }
}

proof fn lemma_close_stale_keeps_closed(
    m: LogModel,
    pending: Seq<ContactRecord>,
    touching: Seq<TouchingPair>,
    k: CollisionPairKey,
)
    requires
        pair_closed(m, k),
    ensures
        pair_closed(close_stale(m, pending, touching), k),
    decreases pending.len(),
{
    if pending.len() > 0 {
        let c = pending[0];
        if !touches_key(touching, c.key) {
            lemma_without_key(m.entered, c.key);
            let f = forget_spec(m, c.key);
            lemma_record_shown_ended(
                f.entries,
                CollisionLogEntry { event_type: CollisionEventType::Exit, entities: c.participants },
                k,
            );
        }
        assert(pair_closed(close_step(m, c, touching), k));
        lemma_close_stale_keeps_closed(close_step(m, c, touching), pending.drop_first(), touching, k);
    }
}

/// Within a frame the started collisions are handled before the ended ones: a pair that
/// ends this frame (and is not reported touching) is no longer entered afterwards, even if
/// it also started this frame; the history's newest entry about it, if it still holds
/// one, is an exit; and the next start of that pair logs an enter again.
pub proof fn lemma_ended_pair_is_closed_after_frame(
    m: LogModel,
    starts: Seq<[u64; 2]>,
    ends: Seq<[u64; 2]>,
    touching: Seq<TouchingPair>,
    p: [u64; 2],
)
    requires
        ends.contains(p),
        !touches_key(touching, key_of(p[0], p[1])),
    ensures
        !frame_spec(m, starts, ends, touching).entered.contains(key_of(p[0], p[1])),
        shown_ended(frame_spec(m, starts, ends, touching).entries, key_of(p[0], p[1])),
        start_step(frame_spec(m, starts, ends, touching), p).entries.last() == (CollisionLogEntry {
            event_type: CollisionEventType::Enter,
            entities: p,
        }),
{
    let k = key_of(p[0], p[1]);
    let m1 = apply_starts(m, starts);
    let i = choose|i: int| 0 <= i < ends.len() && ends[i] == p;
    assert(key_of(ends[i][0], ends[i][1]) == k);
    lemma_apply_ends_closes(m1, ends, k);
    let m2 = apply_ends(m1, ends);
    lemma_apply_touches_keeps_closed(m2, touching, k);
    let m3 = apply_touches(m2, touching);
    lemma_close_stale_keeps_closed(m3, m3.contacted, touching, k);
    let f = frame_spec(m, starts, ends, touching);
    let e = CollisionLogEntry { event_type: CollisionEventType::Enter, entities: p };
    let g = LogModel { entries: f.entries, entered: f.entered.push(k), contacted: f.contacted };
    assert(start_step(f, p) == record_model(g, CollisionEventType::Enter, p));
    assert(record_spec(f.entries, e).last() == e);
}

} // verus!
