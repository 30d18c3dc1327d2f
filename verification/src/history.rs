//! The waveform history: a sliding window over the most recent combined levels.
use vstd::prelude::*;

verus! {

/// How many levels the window holds.
pub const HISTORY_LEN: usize = 60;

/// A window after one more level arrived: the oldest entry leaves, the new one
/// becomes the newest.
pub open spec fn after_push(window: Seq<i32>, level: i32) -> Seq<i32> {
    window.drop_first().push(level)
}

/// A window after a run of levels arrived one by one, oldest first.
pub open spec fn after_pushes(window: Seq<i32>, levels: Seq<i32>) -> Seq<i32>
    decreases levels.len(),
{
    if levels.len() == 0 {
        window
    } else {
        after_push(after_pushes(window, levels.drop_last()), levels.last())
    }
}

/// The window with every entry silent.
pub open spec fn silent_window() -> Seq<i32> {
    Seq::new(HISTORY_LEN as nat, |i: int| 0i32)
}

/// However many levels arrive, a non-empty window keeps its length, and what
/// it holds is the tail of everything it was ever given: entries leave in the
/// order in which they came.
pub proof fn lemma_pushes_keep_length_and_order(window: Seq<i32>, levels: Seq<i32>)
    requires
        window.len() > 0,
    ensures
        after_pushes(window, levels).len() == window.len(),
        after_pushes(window, levels) == (window + levels).skip(levels.len() as int),
    decreases levels.len(),
{
    if levels.len() == 0 {
        assert((window + levels).skip(0) =~= window);
    } else {
        let init = levels.drop_last();
        lemma_pushes_keep_length_and_order(window, init);
        let before = after_pushes(window, init);
        assert(before == (window + init).skip(init.len() as int));
        assert(after_push(before, levels.last()) =~= (window + levels).skip(levels.len() as int));
    }
}

/// A fixed window of the last `HISTORY_LEN` levels, oldest first.
pub struct WaveformHistory {
    slots: Vec<i32>,
    oldest: usize,
}

impl View for WaveformHistory {
    type V = Seq<i32>;

    /// The levels in the window, from the oldest to the newest.
    closed spec fn view(&self) -> Seq<i32> {
        Seq::new(
            HISTORY_LEN as nat,
            |i: int| self.slots@[(self.oldest + i) % (HISTORY_LEN as int)],
        )
    }
}

impl WaveformHistory {
    #[verifier::type_invariant]
    spec fn well_formed(self) -> bool {
        &&& self.slots@.len() == HISTORY_LEN
        &&& self.oldest < HISTORY_LEN
    }

    /// The window always holds `HISTORY_LEN` levels.
    pub proof fn lemma_len(&self)
        ensures
            self@.len() == HISTORY_LEN,
    {
    }

    /// A window of silence.
    pub fn new() -> (h: Self)
        ensures
            h@ == silent_window(),
            h@.len() == HISTORY_LEN,
    {
        let mut slots: Vec<i32> = Vec::new();
        let mut i: usize = 0;
        while i < HISTORY_LEN
            invariant
                i <= HISTORY_LEN,
                slots@.len() == i,
                forall|j: int| 0 <= j < i ==> slots@[j] == 0,
            decreases HISTORY_LEN - i,
        {
            slots.push(0);
            i = i + 1;
        }
        let h = WaveformHistory { slots, oldest: 0 };
        assert(h@ =~= silent_window());
        h
    }

    /// The number of levels in the window.
    pub fn len(&self) -> (n: usize)
        ensures
            n == HISTORY_LEN,
            n == self@.len(),
    {
        HISTORY_LEN
    }

    /// Takes in one level: the oldest leaves and `level` becomes the newest.
    pub fn push(&mut self, level: i32)
        ensures
            final(self)@ == after_push(old(self)@, level),
            final(self)@.len() == HISTORY_LEN,
        no_unwind
    {
        proof {
            use_type_invariant(&*self);
        }
        let at: usize = self.oldest;
        let next: usize = if at + 1 == HISTORY_LEN {
            0
        } else {
            at + 1
        };
        self.slots[at] = level;
        self.oldest = next;
        proof {
            let before = old(self)@;
            let after = self@;
            assert forall|i: int| 0 <= i < HISTORY_LEN implies #[trigger] after[i] == after_push(
                before,
                level,
            )[i] by {
                if i < HISTORY_LEN - 1 {
                    assert((next + i) % 60 == (at + (i + 1)) % 60);
                    assert((at + (i + 1)) % 60 != at);
                } else {
                    assert((next + i) % 60 == at as int);
                }
            }
            assert(after =~= after_push(before, level));
        }
    }

    /// The level at position `index`, counted from the oldest.
    pub fn get(&self, index: usize) -> (level: i32)
        requires
            index < HISTORY_LEN,
        ensures
            level == self@[index as int],
    {
        proof {
            use_type_invariant(self);
        }
        let at: usize = (self.oldest + index) % HISTORY_LEN;
        self.slots[at]
    }

    /// The newest level.
    pub fn latest(&self) -> (level: i32)
        ensures
            level == self@[HISTORY_LEN - 1],
    {
        self.get(HISTORY_LEN - 1)
    }

    /// All levels, from the oldest to the newest.
    pub fn to_vec(&self) -> (levels: Vec<i32>)
        ensures
            levels@ == self@,
    {
        let mut levels: Vec<i32> = Vec::new();
        let mut i: usize = 0;
        while i < HISTORY_LEN
            invariant
                i <= HISTORY_LEN,
                levels@.len() == i,
                forall|j: int| 0 <= j < i ==> levels@[j] == self@[j],
            decreases HISTORY_LEN - i,
        {
            levels.push(self.get(i));
            i = i + 1;
        }
        assert(levels@ =~= self@);
        levels
    }

    /// Returns every entry to silence.
    pub fn reset(&mut self)
        ensures
            final(self)@ == silent_window(),
        no_unwind
    {
        proof {
            use_type_invariant(&*self);
        }
        let mut i: usize = 0;
        while i < HISTORY_LEN
            invariant
                i <= HISTORY_LEN,
                self.slots@.len() == HISTORY_LEN,
                self.oldest < HISTORY_LEN,
                forall|j: int| 0 <= j < i ==> self.slots@[j] == 0,
            decreases HISTORY_LEN - i,
        {
            self.slots[i] = 0;
            i = i + 1;
        }
        assert(self@ =~= silent_window());
    }
}

} // verus!
