//! World-state handles and the transactional layer that buffers writes over them.

use vstd::prelude::*;

verus! {

/// A field element of the ledger, held as the two halves of a 256-bit big-endian number.
#[derive(Clone, Copy, Debug, PartialEq, Eq, Structural)]
pub struct Felt {
    pub hi: u128,
    pub lo: u128,
}

/// The address of one ledger fact.
#[derive(Clone, Copy, Debug, PartialEq, Eq, Structural)]
pub enum StateKey {
    /// The nonce of the account at an address.
    Nonce(Felt),
    /// The class registered for the contract at an address.
    ClassHash(Felt),
    /// One storage slot of the contract at an address.
    Storage(Felt, Felt),
    /// The compiled-class hash registered for a class hash.
    CompiledClassHash(Felt),
}

/// One buffered write: a key and the value it now maps to.
#[derive(Clone, Copy, Debug, PartialEq, Eq, Structural)]
pub struct Write {
    pub key: StateKey,
    pub value: Felt,
}

/// The ledger facts that result from applying `writes` to `facts`, first write first.
pub open spec fn apply_writes(facts: Map<StateKey, Felt>, writes: Seq<Write>) -> Map<
    StateKey,
    Felt,
>
    decreases writes.len(),
{
    if writes.len() == 0 {
        facts
    } else {
        apply_writes(facts, writes.drop_last()).insert(writes.last().key, writes.last().value)
    }
}

/// What a read of `key` returns on a ledger that holds `facts`.
pub open spec fn lookup(facts: Map<StateKey, Felt>, key: StateKey) -> Option<Felt> {
    if facts.contains_key(key) {
        Some(facts[key])
    } else {
        None
    }
}

/// The key-to-new-value mapping that a sequence of writes amounts to, last write winning.
pub open spec fn diff_of(writes: Seq<Write>) -> Map<StateKey, Felt> {
    apply_writes(Map::empty(), writes)
}

/// The facts of `parent` with every key of `diff` replaced by the diff's value.
pub open spec fn overlay(parent: Map<StateKey, Felt>, diff: Map<StateKey, Felt>) -> Map<
    StateKey,
    Felt,
> {
    parent.union_prefer_right(diff)
}

/// Applying two runs of writes one after the other is applying their concatenation.
pub proof fn lemma_apply_writes_concat(
    facts: Map<StateKey, Felt>,
    first: Seq<Write>,
    second: Seq<Write>,
)
    ensures
        apply_writes(apply_writes(facts, first), second) == apply_writes(facts, first + second),
    decreases second.len(),
{
    if second.len() == 0 {
        assert(first + second =~= first);
    } else {
        lemma_apply_writes_concat(facts, first, second.drop_last());
        assert((first + second).drop_last() =~= first + second.drop_last());
        assert((first + second).last() == second.last());
    }
}

/// Applying a committed layer's diff to its parent in one step gives the same ledger as
/// applying each buffered write to the parent eagerly, in the order it was made.
pub proof fn lemma_diff_commit_equals_eager_writes(parent: Map<StateKey, Felt>, writes: Seq<Write>)
    ensures
        overlay(parent, diff_of(writes)) == apply_writes(parent, writes),
    decreases writes.len(),
{
    if writes.len() == 0 {
        assert(overlay(parent, diff_of(writes)) =~= parent);
    } else {
        lemma_diff_commit_equals_eager_writes(parent, writes.drop_last());
        let earlier = diff_of(writes.drop_last());
        let last = writes.last();
        assert(overlay(parent, earlier.insert(last.key, last.value)) =~= overlay(
            parent,
            earlier,
        ).insert(last.key, last.value));
    }
}

/// A capability to read and write ledger facts.
pub trait StateHandle {
    /// The ledger facts that this handle currently shows.
    spec fn facts(&self) -> Map<StateKey, Felt>;

    /// Returns the value stored under `key`, if any.
    fn read(&self, key: &StateKey) -> (value: Option<Felt>)
        ensures
            value == lookup(self.facts(), *key),
    ;

    /// Stores `value` under `key`, leaving every other fact as it was.
    fn write(&mut self, key: StateKey, value: Felt)
        ensures
            final(self).facts() == old(self).facts().insert(key, value),
    ;
}

/// Finds the value of the last write to `key` in a log, if the log writes to it at all.
fn last_write_to(log: &Vec<Write>, key: &StateKey) -> (value: Option<Felt>)
    ensures
        value == lookup(diff_of(log@), *key),
        forall|facts: Map<StateKey, Felt>|
            lookup(#[trigger] apply_writes(facts, log@), *key) == (match value {
                Some(v) => Some(v),
                None => lookup(facts, *key),
            }),
{
    let mut i: usize = log.len();
    proof {
        assert(log@.take(i as int) =~= log@);
    }
    while i > 0
        invariant
            i <= log.len(),
            forall|facts: Map<StateKey, Felt>|
                lookup(#[trigger] apply_writes(facts, log@), *key) == lookup(
                    apply_writes(facts, log@.take(i as int)),
                    *key,
                ),
        decreases i,
    {
        let entry = log[i - 1];
        proof {
            assert(log@.take(i as int).drop_last() =~= log@.take(i - 1));
            assert(log@.take(i as int).last() == log@[i - 1]);
        }
        if entry.key == *key {
            return Some(entry.value);
        }
        i = i - 1;
    }
    proof {
        assert(log@.take(0) =~= Seq::<Write>::empty());
    }
    None
}

/// The writes that a transactional layer buffered, in the order they were made.
#[derive(Clone, Debug, PartialEq, Eq)]
pub struct StateDiff {
    pub writes: Vec<Write>,
}

impl View for StateDiff {
    type V = Map<StateKey, Felt>;

    /// The key-to-new-value mapping of the diff: per key, the last value written.
    open spec fn view(&self) -> Map<StateKey, Felt> {
        diff_of(self.writes@)
    }
}

impl StateDiff {
    /// A diff without writes.
    pub fn new() -> (diff: StateDiff)
        ensures
            diff.writes@ == Seq::<Write>::empty(),
            diff@ == Map::<StateKey, Felt>::empty(),
    {
        StateDiff { writes: Vec::new() }
    }

    /// Whether the diff holds no write at all.
    pub fn is_empty(&self) -> (empty: bool)
        ensures
            empty == (self.writes@.len() == 0),
    {
        self.writes.len() == 0
    }

    /// The new value that the diff gives to `key`, if it writes to it.
    pub fn get(&self, key: &StateKey) -> (value: Option<Felt>)
        ensures
            value == lookup(self@, *key),
    {
        last_write_to(&self.writes, key)
    }
}

/// A world state held in memory: the facts that its recorded writes amount to.
pub struct MemoryState {
    entries: Vec<Write>,
}

impl MemoryState {
    /// A ledger without facts.
    pub fn new() -> (state: MemoryState)
        ensures
            state.facts() == Map::<StateKey, Felt>::empty(),
    {
        MemoryState { entries: Vec::new() }
    }

    /// Every fact of the ledger as a diff against the empty ledger.
    pub fn to_diff(&self) -> (diff: StateDiff)
        ensures
            diff@ == self.facts(),
    {
        let mut writes: Vec<Write> = Vec::new();
        let mut i: usize = 0;
        while i < self.entries.len()
            invariant
                i <= self.entries@.len(),
                writes@ == self.entries@.take(i as int),
            decreases self.entries@.len() - i,
        {
            writes.push(self.entries[i]);
            i = i + 1;
            proof {
                assert(writes@ =~= self.entries@.take(i as int));
            }
        }
        proof {
            assert(self.entries@.take(i as int) =~= self.entries@);
        }
        StateDiff { writes }
    }
}

impl StateHandle for MemoryState {
    closed spec fn facts(&self) -> Map<StateKey, Felt> {
        diff_of(self.entries@)
    }

    fn read(&self, key: &StateKey) -> (value: Option<Felt>) {
        last_write_to(&self.entries, key)
    }

    fn write(&mut self, key: StateKey, value: Felt) {
        let ghost before = self.entries@;
        self.entries.push(Write { key, value });
        proof {
            assert(self.entries@.drop_last() =~= before);
        }
    }
}

/// A stack of buffered layers over a parent handle.
///
/// Every write is buffered; the parent is written only by [`TransactionalState::commit`].
/// The layer made by `new` is the root layer. Layers opened above it by `begin` merge
/// into the layer beneath them or are thrown away, one at a time.
pub struct TransactionalState<S: StateHandle> {
    parent: S,
    log: Vec<Write>,
    marks: Vec<usize>,
}

impl<S: StateHandle> TransactionalState<S> {
    /// Whether the savepoints are in order and lie within the buffered writes.
    pub closed spec fn wf(&self) -> bool {
        &&& forall|i: int|
            0 <= i < self.marks@.len() ==> #[trigger] self.marks@[i] <= self.log@.len()
        &&& forall|i: int, j: int|
            0 <= i <= j < self.marks@.len() ==> self.marks@[i] <= self.marks@[j]
    }

    /// The handle that the root layer was made over.
    pub closed spec fn parent(&self) -> S {
        self.parent
    }

    /// Every buffered write of every open layer, oldest first.
    pub closed spec fn buffered(&self) -> Seq<Write> {
        self.log@
    }

    /// For each layer above the root, how many writes were buffered when it was opened.
    pub closed spec fn savepoints(&self) -> Seq<usize> {
        self.marks@
    }

    /// The position in `buffered` at which the writes of the top layer begin.
    pub open spec fn layer_start(&self) -> int {
        if self.savepoints().len() == 0 {
            0
        } else {
            self.savepoints().last() as int
        }
    }

    /// The writes of the top layer alone.
    pub open spec fn layer_writes(&self) -> Seq<Write> {
        self.buffered().subrange(self.layer_start(), self.buffered().len() as int)
    }

    /// The facts shown by what lies beneath the top layer.
    pub open spec fn beneath(&self) -> Map<StateKey, Felt> {
        apply_writes(self.parent().facts(), self.buffered().take(self.layer_start()))
    }

    /// Creates an empty root layer over `parent`.
    pub fn new(parent: S) -> (layer: Self)
        ensures
            layer.wf(),
            layer.parent() == parent,
            layer.buffered() == Seq::<Write>::empty(),
            layer.savepoints() == Seq::<usize>::empty(),
            layer.facts() == parent.facts(),
    {
        TransactionalState { parent, log: Vec::new(), marks: Vec::new() }
    }

    /// Checks the savepoints: whether they are in order and lie within the buffered writes.
    pub fn check(&self) -> (ok: bool)
        ensures
            ok == self.wf(),
    {
        let mut i: usize = 0;
        while i < self.marks.len()
            invariant
                i <= self.marks@.len(),
                forall|a: int| 0 <= a < i ==> #[trigger] self.marks@[a] <= self.log@.len(),
                forall|a: int, b: int| 0 <= a <= b < i ==> self.marks@[a] <= self.marks@[b],
            decreases self.marks@.len() - i,
        {
            if self.marks[i] > self.log.len() {
                return false;
            }
            if i > 0 && self.marks[i - 1] > self.marks[i] {
                return false;
            }
            i = i + 1;
        }
        true
    }

    /// How many layers are open, the root layer included.
    pub fn depth(&self) -> (depth: usize)
        ensures
            depth == (if self.savepoints().len() < usize::MAX {
                self.savepoints().len() + 1
            } else {
                usize::MAX as nat
            }),
    {
        self.marks.len().saturating_add(1)
    }

    /// Opens an empty layer above the current top layer.
    pub fn begin(&mut self)
        requires
            old(self).wf(),
        ensures
            final(self).wf(),
            final(self).parent() == old(self).parent(),
            final(self).buffered() == old(self).buffered(),
            final(self).savepoints() == old(self).savepoints().push(
                old(self).buffered().len() as usize,
            ),
            final(self).facts() == old(self).facts(),
            final(self).layer_writes() == Seq::<Write>::empty(),
            final(self).beneath() == old(self).facts(),
    {
        let at = self.log.len();
        self.marks.push(at);
        proof {
            assert(self.log@.take(at as int) =~= self.log@);
            assert(self.layer_writes() =~= Seq::<Write>::empty());
        }
    }

    /// Merges the top layer into the layer beneath it.
    ///
    /// Returns `false`, and changes nothing, when only the root layer is open.
    pub fn commit_layer(&mut self) -> (merged: bool)
        requires
            old(self).wf(),
        ensures
            final(self).wf(),
            merged == (old(self).savepoints().len() > 0),
            final(self).parent() == old(self).parent(),
            final(self).buffered() == old(self).buffered(),
            final(self).savepoints() == (if merged {
                old(self).savepoints().drop_last()
            } else {
                old(self).savepoints()
            }),
            final(self).facts() == old(self).facts(),
    {
        if self.marks.len() == 0 {
            return false;
        }
        self.marks.pop();
        true
    }

    /// Throws the top layer away together with its writes.
    ///
    /// Returns `false`, and changes nothing, when only the root layer is open.
    pub fn abort_layer(&mut self) -> (discarded: bool)
        requires
            old(self).wf(),
        ensures
            final(self).wf(),
            discarded == (old(self).savepoints().len() > 0),
            final(self).parent() == old(self).parent(),
            final(self).buffered() == (if discarded {
                old(self).buffered().take(old(self).layer_start())
            } else {
                old(self).buffered()
            }),
            final(self).savepoints() == (if discarded {
                old(self).savepoints().drop_last()
            } else {
                old(self).savepoints()
            }),
            discarded ==> final(self).facts() == old(self).beneath(),
    {
        match self.marks.pop() {
            None => false,
            Some(at) => {
                self.log.truncate(at);
                true
            },
        }
    }

    /// The writes buffered by the top layer, without closing it.
    pub fn diff(&self) -> (diff: StateDiff)
        requires
            self.wf(),
        ensures
            diff.writes@ == self.layer_writes(),
    {
        let start: usize = if self.marks.len() == 0 {
            0
        } else {
            self.marks[self.marks.len() - 1]
        };
        let mut writes: Vec<Write> = Vec::new();
        let mut i: usize = start;
        while i < self.log.len()
            invariant
                start <= i <= self.log@.len(),
                writes@ == self.log@.subrange(start as int, i as int),
            decreases self.log@.len() - i,
        {
            writes.push(self.log[i]);
            i = i + 1;
            proof {
                assert(writes@ =~= self.log@.subrange(start as int, i as int));
            }
        }
        StateDiff { writes }
    }

    /// Writes every buffered write to the parent, oldest first, and hands the parent back.
    ///
    /// The parent then shows what the layer showed, which is also what it shows once the
    /// diff of the buffered writes is laid over it in one step.
    pub fn commit(self) -> (parent: S)
        ensures
            parent.facts() == self.facts(),
            parent.facts() == apply_writes(self.parent().facts(), self.buffered()),
            parent.facts() == overlay(self.parent().facts(), diff_of(self.buffered())),
    {
        proof {
            lemma_diff_commit_equals_eager_writes(self.parent.facts(), self.log@);
        }
        let mut parent = self.parent;
        let log = self.log;
        let ghost before = parent.facts();
        let mut i: usize = 0;
        proof {
            assert(log@.take(0) =~= Seq::<Write>::empty());
        }
        while i < log.len()
            invariant
                i <= log@.len(),
                parent.facts() == apply_writes(before, log@.take(i as int)),
            decreases log@.len() - i,
        {
            let entry = log[i];
            parent.write(entry.key, entry.value);
            i = i + 1;
            proof {
                assert(log@.take(i as int).drop_last() =~= log@.take(i - 1));
                assert(log@.take(i as int).last() == entry);
            }
        }
        proof {
            assert(log@.take(i as int) =~= log@);
        }
        parent
    }

    /// Drops every buffered write and hands the parent back as it was.
    pub fn abort(self) -> (parent: S)
        ensures
            parent == self.parent(),
    {
        self.parent
    }
}

impl<S: StateHandle> StateHandle for TransactionalState<S> {
    open spec fn facts(&self) -> Map<StateKey, Felt> {
        apply_writes(self.parent().facts(), self.buffered())
    }

    fn read(&self, key: &StateKey) -> (value: Option<Felt>) {
        match last_write_to(&self.log, key) {
            Some(value) => Some(value),
            None => self.parent.read(key),
        }
    }

    fn write(&mut self, key: StateKey, value: Felt)
        ensures
            old(self).wf() ==> final(self).wf(),
            final(self).parent() == old(self).parent(),
            final(self).buffered() == old(self).buffered().push(Write { key, value }),
            final(self).savepoints() == old(self).savepoints(),
    {
        let ghost before = self.log@;
        self.log.push(Write { key, value });
        proof {
            assert(self.log@.drop_last() =~= before);
        }
    }
}

} // verus!
