//! The steps a call executed, and views of them.

use vstd::layout::size_of;
use vstd::prelude::*;

use crate::decoded::DecodedTraceStep;
use crate::detail::{saturated, saturating_product, StepDetail, StorageChange};
use crate::opcode::{call_like, is_call_like_op, OpCode, STOP};

verus! {

/// A step of the base track.
pub struct BaseStep {
    /// Program counter before step execution
    pub pc: nat,
    /// The byte of the opcode to be executed
    pub op: u8,
}

/// A record of the detail overlay.
pub struct OverlayEntry {
    /// The step of the base track that the record belongs to.
    pub step_index: nat,
    /// The detail record.
    pub detail: StepDetail,
}

/// What a [`StepRef`] shows of a step.
pub struct StepView {
    /// Program counter before step execution
    pub pc: nat,
    /// The byte of the opcode to be executed
    pub op: u8,
    /// Index of the step in the base track.
    pub step_index: nat,
    /// The detail record, if the step was recorded in full.
    pub detail: Option<StepDetail>,
}

/// What a [`DetailedStepRef`] shows of a step.
pub struct DetailedStepView {
    /// Program counter before step execution
    pub pc: nat,
    /// The byte of the opcode to be executed
    pub op: u8,
    /// Index of the step in the base track.
    pub step_index: nat,
    /// The detail record.
    pub detail: StepDetail,
}

impl StepView {
    /// The step as a detailed step, if it was recorded in full.
    pub open spec fn detailed(self) -> Option<DetailedStepView> {
        match self.detail {
            Some(detail) => Some(
                DetailedStepView { pc: self.pc, op: self.op, step_index: self.step_index, detail },
            ),
            None => None,
        }
    }
}

/// The contents of a [`StepStore`]: the dense track of all steps, and the records of those that
/// were recorded in full.
#[verifier::ext_equal]
pub struct StepTracks {
    /// Every step, in execution order.
    pub base: Seq<BaseStep>,
    /// The detail records, in the order of their steps.
    pub overlay: Seq<OverlayEntry>,
}

impl StepTracks {
    /// Every detail record belongs to a distinct step of the base track, and the records are in
    /// strictly increasing order of their steps.
    pub open spec fn valid(self) -> bool {
        &&& forall|k: int|
            0 <= k < self.overlay.len() ==> (#[trigger] self.overlay[k]).step_index
                < self.base.len()
        &&& forall|j: int, k: int|
            0 <= j < k < self.overlay.len() ==> (#[trigger] self.overlay[j]).step_index < (
            #[trigger] self.overlay[k]).step_index
    }

    /// No steps.
    pub open spec fn empty() -> Self {
        StepTracks { base: Seq::empty(), overlay: Seq::empty() }
    }

    /// The `k`-th detail record belongs to the step `i`.
    pub open spec fn owns(self, i: int, k: int) -> bool {
        0 <= k < self.overlay.len() && self.overlay[k].step_index == i
    }

    /// The detail record of the step `i`, if it has one.
    pub open spec fn detail_of(self, i: int) -> Option<StepDetail> {
        if exists|k: int| self.owns(i, k) {
            Some(self.overlay[choose|k: int| self.owns(i, k)].detail)
        } else {
            None
        }
    }

    /// The step `i`.
    pub open spec fn step(self, i: int) -> StepView {
        StepView {
            pc: self.base[i].pc,
            op: self.base[i].op,
            step_index: i as nat,
            detail: self.detail_of(i),
        }
    }

    /// The `k`-th of the steps that were recorded in full.
    pub open spec fn detailed(self, k: int) -> DetailedStepView {
        let entry = self.overlay[k];
        DetailedStepView {
            pc: self.base[entry.step_index as int].pc,
            op: self.base[entry.step_index as int].op,
            step_index: entry.step_index,
            detail: entry.detail,
        }
    }

    /// Every step, in execution order.
    pub open spec fn steps(self) -> Seq<StepView> {
        Seq::new(self.base.len(), |i: int| self.step(i))
    }

    /// The steps that were recorded in full, in execution order.
    pub open spec fn detailed_steps(self) -> Seq<DetailedStepView> {
        Seq::new(self.overlay.len(), |k: int| self.detailed(k))
    }

    /// One more step, without a detail record.
    pub open spec fn push(self, pc: nat, op: u8) -> Self {
        StepTracks { base: self.base.push(BaseStep { pc, op }), ..self }
    }

    /// One more detail record, for the last step.
    pub open spec fn push_detail(self, detail: StepDetail) -> Self {
        StepTracks {
            overlay: self.overlay.push(
                OverlayEntry { step_index: (self.base.len() - 1) as nat, detail },
            ),
            ..self
        }
    }

    /// The last step has a detail record.
    pub open spec fn last_is_detailed(self) -> bool {
        self.overlay.len() > 0 && self.overlay.last().step_index == self.base.len() - 1
    }

    /// The `k`-th detail record replaced.
    pub open spec fn with_detail(self, k: int, detail: StepDetail) -> Self {
        StepTracks {
            overlay: self.overlay.update(
                k,
                OverlayEntry { step_index: self.overlay[k].step_index, detail },
            ),
            ..self
        }
    }

    /// The base track alone.
    pub open spec fn without_details(self) -> Self {
        StepTracks { overlay: Seq::empty(), ..self }
    }

    /// The heap bytes that the first `n` detail records own.
    pub open spec fn owned_total(self, n: int) -> nat
        decreases n,
    {
        if n <= 0 {
            0
        } else {
            self.owned_total(n - 1) + self.overlay[n - 1].detail.owned_size()
        }
    }

    /// The two hold the same steps, and records with the same contents.
    pub open spec fn same_contents(self, other: Self) -> bool {
        &&& self.base == other.base
        &&& self.overlay.len() == other.overlay.len()
        &&& forall|k: int|
            0 <= k < self.overlay.len() ==> {
                &&& (#[trigger] self.overlay[k]).step_index == other.overlay[k].step_index
                &&& self.overlay[k].detail@ == other.overlay[k].detail@
            }
    }

    /// Replacing a record keeps tracks valid.
    pub proof fn lemma_with_detail_valid(self, k: int)
        requires
            self.valid(),
            0 <= k < self.overlay.len(),
        ensures
            forall|detail: StepDetail| (#[trigger] self.with_detail(k, detail)).valid(),
    {
        assert forall|detail: StepDetail| (#[trigger] self.with_detail(k, detail)).valid() by {
            self.lemma_same_indices_valid(self.with_detail(k, detail));
        }
    }

    /// Tracks with the same contents as valid tracks are valid.
    pub proof fn lemma_same_contents_valid(self, other: Self)
        requires
            self.same_contents(other),
            other.valid(),
        ensures
            self.valid(),
    {
        other.lemma_same_indices_valid(self);
    }

    /// Whether tracks are valid depends on the step indices of the records alone.
    proof fn lemma_same_indices_valid(self, other: Self)
        requires
            self.valid(),
            other.base.len() == self.base.len(),
            other.overlay.len() == self.overlay.len(),
            forall|k: int|
                0 <= k < other.overlay.len() ==> (#[trigger] other.overlay[k]).step_index
                    == self.overlay[k].step_index,
        ensures
            other.valid(),
    {
        assert forall|j: int, k: int| 0 <= j < k < other.overlay.len() implies (
        #[trigger] other.overlay[j]).step_index < (#[trigger] other.overlay[k]).step_index by {
            assert(self.overlay[j].step_index < self.overlay[k].step_index);
        }
    }

    /// In valid tracks, a record that belongs to a step is the record of the step.
    pub proof fn lemma_detail_of(self, i: int, k: int)
        requires
            self.valid(),
            self.owns(i, k),
        ensures
            self.detail_of(i) == Some(self.overlay[k].detail),
    {
        let j = choose|j: int| self.owns(i, j);
        assert(self.owns(i, j));
        assert(j == k) by {
            if j < k {
                assert(self.overlay[j].step_index < self.overlay[k].step_index);
            } else if k < j {
                assert(self.overlay[k].step_index < self.overlay[j].step_index);
            }
        }
    }
}

/// The tracks that four columns describe.
pub open spec fn tracks_of(
    pcs: Seq<u32>,
    ops: Seq<u8>,
    detail_steps: Seq<u32>,
    details: Seq<StepDetail>,
) -> StepTracks {
    StepTracks {
        base: Seq::new(pcs.len(), |i: int| BaseStep { pc: pcs[i] as nat, op: ops[i] }),
        overlay: Seq::new(
            details.len(),
            |k: int| OverlayEntry { step_index: detail_steps[k] as nat, detail: details[k] },
        ),
    }
}

/// Why four columns are no store.
#[derive(Clone, Copy, Debug, PartialEq, Eq, Structural)]
pub enum StepStoreError {
    /// There are not as many opcodes as program counters.
    OpsLength,
    /// There are not as many step indices as detail records.
    DetailStepsLength,
    /// The step indices do not strictly increase, or leave the base track.
    DetailStepsOrder,
}

impl StepStoreError {
    /// The text of the error.
    pub open spec fn text(self) -> Seq<char> {
        match self {
            StepStoreError::OpsLength => "`pcs` and `ops` differ in length"@,
            StepStoreError::DetailStepsLength => "`detail_steps` and `details` differ in length"@,
            StepStoreError::DetailStepsOrder =>
                "`detail_steps` must be strictly increasing indices into the base track"@,
        }
    }

    /// Returns the text of the error.
    pub fn message(self) -> (r: &'static str)
        ensures
            r@ == self.text(),
    {
        match self {
            StepStoreError::OpsLength => "`pcs` and `ops` differ in length",
            StepStoreError::DetailStepsLength => "`detail_steps` and `details` differ in length",
            StepStoreError::DetailStepsOrder =>
                "`detail_steps` must be strictly increasing indices into the base track",
        }
    }
}

/// What keeps four columns from being a store, if anything does.
pub open spec fn columns_fault(
    pcs: Seq<u32>,
    ops: Seq<u8>,
    detail_steps: Seq<u32>,
    details: Seq<StepDetail>,
) -> Option<StepStoreError> {
    if pcs.len() != ops.len() {
        Some(StepStoreError::OpsLength)
    } else if detail_steps.len() != details.len() {
        Some(StepStoreError::DetailStepsLength)
    } else if !tracks_of(pcs, ops, detail_steps, details).valid() {
        Some(StepStoreError::DetailStepsOrder)
    } else {
        None
    }
}

/// The steps a call executed.
///
/// Every step executed while step recording was enabled contributes its program counter and
/// opcode to a dense *base track*. The steps that were *recorded in full* additionally have a
/// [`StepDetail`] in a sparse *detail overlay* ordered by step.
/// [`crate::node::TraceMemberOrder::Step`] entries in a node's ordering index the overlay: only
/// detailed steps are interleaved with calls and logs.
///
/// # Invariants
///
/// Every step has a program counter and an opcode ([`Self::len`] counts them); every detail record
/// belongs to a distinct step of the base track ([`Self::detailed_len`] is at most `len`), and
/// [`Self::iter_detailed`] yields them in strictly increasing `step_index` order.
/// [`Self::from_columns`] rejects columns that violate them.
#[derive(Debug, PartialEq, Eq)]
pub struct StepStore {
    /// Program counter of each executed step.
    pcs: Vec<u32>,
    /// Opcode of each executed step.
    ops: Vec<u8>,
    /// Base-track index of each detail record, strictly increasing.
    detail_steps: Vec<u32>,
    /// Detail records of the steps recorded in full, in step order.
    details: Vec<StepDetail>,
}

impl View for StepStore {
    type V = StepTracks;

    closed spec fn view(&self) -> StepTracks {
        tracks_of(self.pcs@, self.ops@, self.detail_steps@, self.details@)
    }
}

impl Default for StepStore {
    fn default() -> (r: Self)
        ensures
            r.wf(),
            r@ == StepTracks::empty(),
    {
        let r = StepStore {
            pcs: Vec::new(),
            ops: Vec::new(),
            detail_steps: Vec::new(),
            details: Vec::new(),
        };
        assert(r@ =~= StepTracks::empty());
        r
    }
}

impl StepStore {
    /// The columns of a track have the same length.
    pub closed spec fn aligned(&self) -> bool {
        self.pcs@.len() == self.ops@.len() && self.detail_steps@.len() == self.details@.len()
    }

    /// The invariants of the store.
    pub open spec fn wf(&self) -> bool {
        self.aligned() && self@.valid()
    }

    /// The steps of a store can be counted in a `usize`.
    pub proof fn lemma_len_fits(&self)
        ensures
            self@.base.len() <= usize::MAX,
    {
        assert(self.pcs@.len() == self.pcs.len());
    }

    /// The detail records of a store can be counted in a `usize`.
    pub proof fn lemma_overlay_fits(&self)
        ensures
            self@.overlay.len() <= usize::MAX,
    {
        assert(self.details@.len() == self.details.len());
    }

    /// Makes a store of its columns: the program counter and the opcode of each step, and the step
    /// index and the record of each detail.
    pub fn from_columns(
        pcs: Vec<u32>,
        ops: Vec<u8>,
        detail_steps: Vec<u32>,
        details: Vec<StepDetail>,
    ) -> (r: Result<Self, StepStoreError>)
        ensures
            match r {
                Ok(store) => {
                    &&& columns_fault(pcs@, ops@, detail_steps@, details@) is None
                    &&& store.wf()
                    &&& store@ == tracks_of(pcs@, ops@, detail_steps@, details@)
                },
                Err(error) => columns_fault(pcs@, ops@, detail_steps@, details@) == Some(error),
            },
    {
        if pcs.len() != ops.len() {
            return Err(StepStoreError::OpsLength);
        }
        if detail_steps.len() != details.len() {
            return Err(StepStoreError::DetailStepsLength);
        }
        let ghost tracks = tracks_of(pcs@, ops@, detail_steps@, details@);
        let mut k: usize = 0;
        while k < detail_steps.len()
            invariant
                pcs@.len() == ops@.len(),
                detail_steps@.len() == details@.len(),
                k <= detail_steps@.len(),
                tracks == tracks_of(pcs@, ops@, detail_steps@, details@),
                forall|j: int| 0 <= j < k ==> (#[trigger] detail_steps@[j]) < pcs@.len(),
                forall|i: int, j: int|
                    0 <= i < j < k ==> (#[trigger] detail_steps@[i]) < (
                    #[trigger] detail_steps@[j]),
            decreases detail_steps@.len() - k,
        {
            let in_range: bool = (detail_steps[k] as usize) < pcs.len();
            let increasing: bool = k == 0 || detail_steps[k - 1] < detail_steps[k];
            if !in_range || !increasing {
                proof {
                    if !in_range {
                        assert(tracks.overlay[k as int].step_index >= tracks.base.len());
                    } else {
                        assert(tracks.overlay[k - 1].step_index
                            >= tracks.overlay[k as int].step_index);
                    }
                }
                return Err(StepStoreError::DetailStepsOrder);
            }
            k = k + 1;
        }
        let store = StepStore { pcs, ops, detail_steps, details };
        assert(store@.valid());
        Ok(store)
    }

    /// Takes the store apart into its columns: the program counter and the opcode of each step, and
    /// the step index and the record of each detail.
    pub fn into_columns(self) -> (r: (Vec<u32>, Vec<u8>, Vec<u32>, Vec<StepDetail>))
        requires
            self.wf(),
        ensures
            columns_fault(r.0@, r.1@, r.2@, r.3@) is None,
            tracks_of(r.0@, r.1@, r.2@, r.3@) == self@,
    {
        (self.pcs, self.ops, self.detail_steps, self.details)
    }

    /// Returns how many steps the base track holds: every step executed while step recording was
    /// enabled.
    pub fn len(&self) -> (r: usize)
        ensures
            r == self@.base.len(),
    {
        self.pcs.len()
    }

    /// Returns true if the base track is empty.
    pub fn is_empty(&self) -> (r: bool)
        ensures
            r == (self@.base.len() == 0),
    {
        self.pcs.is_empty()
    }

    /// Returns how many steps were recorded in full.
    pub fn detailed_len(&self) -> (r: usize)
        ensures
            r == self@.overlay.len(),
    {
        self.details.len()
    }

    /// Returns the opcode of the step at `idx` in the base track.
    pub fn op_at(&self, idx: usize) -> (r: u8)
        requires
            self.wf(),
            idx < self@.base.len(),
        ensures
            r == self@.base[idx as int].op,
    {
        self.ops[idx]
    }

    /// Returns the position in the overlay of the detail record of the step `idx`, if it has one.
    fn find_detail(&self, idx: usize) -> (r: Option<usize>)
        requires
            self.wf(),
        ensures
            match r {
                Some(k) => self@.owns(idx as int, k as int),
                None => forall|k: int| !self@.owns(idx as int, k),
            },
    {
        let mut low: usize = 0;
        let mut high: usize = self.detail_steps.len();
        while low < high
            invariant
                self.wf(),
                low <= high <= self@.overlay.len(),
                forall|k: int| 0 <= k < low ==> (#[trigger] self@.overlay[k]).step_index < idx,
                forall|k: int|
                    high <= k < self@.overlay.len() ==> (#[trigger] self@.overlay[k]).step_index
                        > idx,
            decreases high - low,
        {
            let mid: usize = low + (high - low) / 2;
            let step: usize = self.detail_steps[mid] as usize;
            assert(self@.overlay[mid as int].step_index == step);
            if step == idx {
                return Some(mid);
            }
            if step < idx {
                low = mid + 1;
            } else {
                high = mid;
            }
        }
        None
    }

    /// Returns a view of the step at `idx` in the base track.
    ///
    /// The detail record, if any, is located by a binary search of the overlay; iterate with
    /// [`Self::iter`] to walk both tracks in one pass.
    pub fn get(&self, idx: usize) -> (r: Option<StepRef<'_>>)
        requires
            self.wf(),
        ensures
            match r {
                Some(step) => idx < self@.base.len() && step@ == self@.step(idx as int),
                None => idx >= self@.base.len(),
            },
    {
        if idx >= self.pcs.len() {
            return None;
        }
        let detail = match self.find_detail(idx) {
            Some(k) => {
                proof {
                    self@.lemma_detail_of(idx as int, k as int);
                }
                Some(&self.details[k])
            },
            None => None,
        };
        Some(
            StepRef {
                pc: self.pcs[idx] as usize,
                op: OpCode::new_or_unknown(self.ops[idx]),
                step_index: idx,
                detail,
            },
        )
    }

    /// Returns a walk over every step in the base track, in execution order.
    pub fn iter(&self) -> (r: StepIter<'_>)
        requires
            self.wf(),
        ensures
            r.wf(),
            r@ == self@.steps(),
    {
        let r = StepIter {
            store: self,
            front: 0,
            back: self.pcs.len(),
            detail_front: 0,
            detail_back: self.details.len(),
        };
        assert(r@ =~= self@.steps());
        r
    }

    /// Returns a walk over the steps that were recorded in full, in execution order.
    pub fn iter_detailed(&self) -> (r: DetailedStepIter<'_>)
        requires
            self.wf(),
        ensures
            r.wf(),
            r@ == self@.detailed_steps(),
    {
        let r = DetailedStepIter { store: self, front: 0, back: self.details.len() };
        assert(r@ =~= self@.detailed_steps());
        r
    }

    /// Returns the `k`-th detailed step, `k` being the index a
    /// [`crate::node::TraceMemberOrder::Step`] entry carries: the position of the step's detail
    /// record in the overlay, not its position in the base track.
    pub fn detailed(&self, k: usize) -> (r: Option<DetailedStepRef<'_>>)
        requires
            self.wf(),
        ensures
            match r {
                Some(step) => k < self@.overlay.len() && step@ == self@.detailed(k as int),
                None => k >= self@.overlay.len(),
            },
    {
        if k >= self.details.len() {
            return None;
        }
        assert(self@.overlay[k as int].step_index < self@.base.len());
        Some(self.detailed_ref(self.detail_steps[k] as usize, &self.details[k]))
    }

    /// Returns the last step recorded in full, if any.
    pub fn last_detailed(&self) -> (r: Option<DetailedStepRef<'_>>)
        requires
            self.wf(),
        ensures
            match r {
                Some(step) => {
                    &&& self@.overlay.len() > 0
                    &&& step@ == self@.detailed(self@.overlay.len() - 1)
                },
                None => self@.overlay.len() == 0,
            },
    {
        match self.details.len().checked_sub(1) {
            Some(k) => self.detailed(k),
            None => None,
        }
    }

    /// Returns the `k`-th detail record; see [`Self::detailed`] for the index.
    pub fn detail(&self, k: usize) -> (r: Option<&StepDetail>)
        ensures
            match r {
                Some(detail) => {
                    &&& k < self@.overlay.len()
                    &&& *detail == self@.overlay[k as int].detail
                },
                None => k >= self@.overlay.len(),
            },
    {
        if k < self.details.len() {
            Some(&self.details[k])
        } else {
            None
        }
    }

    /// Returns the `k`-th detail record mutably, for decoders that fill in
    /// [`StepDetail::decoded`]; see [`Self::detailed`] for the index.
    pub fn detail_mut(&mut self, k: usize) -> (r: Option<&mut StepDetail>)
        requires
            old(self).wf(),
        ensures
            match r {
                Some(detail) => {
                    &&& k < old(self)@.overlay.len()
                    &&& *detail == old(self)@.overlay[k as int].detail
                    &&& final(self)@ == old(self)@.with_detail(k as int, *final(detail))
                },
                None => k >= old(self)@.overlay.len() && *final(self) == *old(self),
            },
            final(self).wf(),
    {
        if k < self.details.len() {
            proof {
                self@.lemma_with_detail_valid(k as int);
            }
            Some(&mut self.details[k])
        } else {
            None
        }
    }

    /// Returns the last detail record together with the base-track index of its step, mutably.
    pub fn last_detail_mut(&mut self) -> (r: Option<(usize, &mut StepDetail)>)
        requires
            old(self).wf(),
        ensures
            match r {
                Some((step_index, detail)) => {
                    &&& old(self)@.overlay.len() > 0
                    &&& step_index == old(self)@.overlay.last().step_index
                    &&& *detail == old(self)@.overlay.last().detail
                    &&& final(self)@ == old(self)@.with_detail(
                        old(self)@.overlay.len() - 1,
                        *final(detail),
                    )
                },
                None => old(self)@.overlay.len() == 0 && *final(self) == *old(self),
            },
            final(self).wf(),
    {
        if self.details.len() == 0 {
            return None;
        }
        let k: usize = self.details.len() - 1;
        let step_index: usize = self.detail_steps[k] as usize;
        proof {
            self@.lemma_with_detail_valid(k as int);
        }
        Some((step_index, &mut self.details[k]))
    }

    /// Appends a step to the base track and returns its index.
    ///
    /// A tracer records steps itself; this is for building traces by hand, e.g. in tests.
    ///
    /// The program counter is kept in 32 bits: code size is bounded by the gas cost of supplying
    /// it, far below `u32::MAX`.
    pub fn push(&mut self, pc: usize, op: OpCode) -> (r: usize)
        requires
            old(self).wf(),
            pc <= u32::MAX,
        ensures
            final(self).wf(),
            final(self)@ == old(self)@.push(pc as nat, op.0),
            r == old(self)@.base.len(),
    {
        self.pcs.push(pc as u32);
        self.ops.push(op.get());
        assert(self@ =~= old(self)@.push(pc as nat, op.0));
        self.pcs.len() - 1
    }

    /// Appends a detail record for the step at `step_index`, which must be the last step of the
    /// base track and without a detail record, and returns its index, i.e. the value a
    /// [`crate::node::TraceMemberOrder::Step`] entry for it should carry.
    ///
    /// Step indices of detail records are kept in 32 bits.
    pub fn push_detail(&mut self, step_index: usize, detail: StepDetail) -> (r: usize)
        requires
            old(self).wf(),
            step_index + 1 == old(self)@.base.len(),
            !old(self)@.last_is_detailed(),
            step_index <= u32::MAX,
        ensures
            final(self).wf(),
            final(self)@ == old(self)@.push_detail(detail),
            r == old(self)@.overlay.len(),
    {
        self.detail_steps.push(step_index as u32);
        self.details.push(detail);
        proof {
            assert(self@ =~= old(self)@.push_detail(detail));
            let overlay = old(self)@.overlay;
            if overlay.len() > 0 {
                assert forall|j: int| 0 <= j < overlay.len() implies (
                #[trigger] overlay[j]).step_index < step_index by {
                    assert(overlay.last().step_index < old(self)@.base.len());
                    if j < overlay.len() - 1 {
                        assert(overlay[j].step_index < overlay[overlay.len() - 1].step_index);
                    }
                }
            }
            assert forall|j: int, k: int| 0 <= j < k < self@.overlay.len() implies (
            #[trigger] self@.overlay[j]).step_index < (#[trigger] self@.overlay[k]).step_index by {
                assert(self@.overlay[j] == overlay[j]);
                if k < overlay.len() {
                    assert(self@.overlay[k] == overlay[k]);
                }
            }
        }
        self.details.len() - 1
    }

    /// Discards the detail records, keeping the base track.
    pub fn clear_details(&mut self)
        requires
            old(self).wf(),
        ensures
            final(self).wf(),
            final(self)@ == old(self)@.without_details(),
    {
        self.detail_steps = Vec::new();
        self.details = Vec::new();
        assert(self@ =~= old(self)@.without_details());
    }

    /// Clears the store for reuse, keeping the allocated capacity.
    pub fn reset(&mut self)
        ensures
            final(self).wf(),
            final(self)@ == StepTracks::empty(),
    {
        self.pcs.clear();
        self.ops.clear();
        self.detail_steps.clear();
        self.details.clear();
        assert(self@ =~= StepTracks::empty());
    }

    /// Returns an estimate of the heap bytes the store keeps alive: its columns and the snapshots
    /// and boxed fields the detail records own. Shared buffers are counted once per record that
    /// references them, and the strings inside [`DecodedTraceStep`] are not counted.
    pub fn bytes(&self) -> (r: usize)
        requires
            self.wf(),
        ensures
            exists|capacities: ColumnCapacities|
                #[trigger] capacities.fits(self@) && r == saturated(
                    capacities.size() + self@.owned_total(self@.overlay.len() as int),
                ),
            r >= saturated(
                columns_size(
                    self@.base.len(),
                    self@.base.len(),
                    self@.overlay.len(),
                    self@.overlay.len(),
                ) + self@.owned_total(self@.overlay.len() as int),
            ),
    {
        self.bytes_with(self.capacities())
    }

    /// Returns the estimate of [`Self::bytes`] for columns with the given capacities. A total past
    /// `usize::MAX` counts as `usize::MAX`.
    pub fn bytes_with(&self, capacities: ColumnCapacities) -> (r: usize)
        requires
            self.wf(),
        ensures
            r == saturated(
                capacities.size() + self@.owned_total(self@.overlay.len() as int),
            ),
    {
        let mut owned: usize = 0;
        let mut k: usize = 0;
        while k < self.details.len()
            invariant
                k <= self@.overlay.len(),
                self@.overlay.len() == self.details@.len(),
                owned == saturated(self@.owned_total(k as int)),
            decreases self.details@.len() - k,
        {
            assert(self@.overlay[k as int].detail == self.details@[k as int]);
            owned = owned.saturating_add(self.details[k].owned_bytes());
            k = k + 1;
        }
        capacities.bytes().saturating_add(owned)
    }

    /// Returns the heap bytes the store's columns occupy, unused capacity counted.
    pub fn capacity_bytes(&self) -> (r: usize)
        requires
            self.wf(),
        ensures
            exists|capacities: ColumnCapacities|
                #[trigger] capacities.fits(self@) && r == saturated(capacities.size()),
            r >= saturated(
                columns_size(
                    self@.base.len(),
                    self@.base.len(),
                    self@.overlay.len(),
                    self@.overlay.len(),
                ),
            ),
    {
        self.capacities().bytes()
    }

    /// Returns the capacities of the store's columns. What they are past the number of items that
    /// a column holds is up to the allocator.
    pub fn capacities(&self) -> (r: ColumnCapacities)
        requires
            self.wf(),
        ensures
            r.fits(self@),
            r.size() >= columns_size(
                self@.base.len(),
                self@.base.len(),
                self@.overlay.len(),
                self@.overlay.len(),
            ),
    {
        let r = ColumnCapacities {
            pcs: vec_capacity(&self.pcs),
            ops: vec_capacity(&self.ops),
            detail_steps: vec_capacity(&self.detail_steps),
            details: vec_capacity(&self.details),
        };
        proof {
            let n = self@.base.len();
            let m = self@.overlay.len();
            let word = size_of::<u32>();
            let record = size_of::<StepDetail>();
            assert(r.pcs * word >= n * word) by (nonlinear_arith)
                requires
                    r.pcs >= n,
            ;
            assert(r.detail_steps * word >= m * word) by (nonlinear_arith)
                requires
                    r.detail_steps >= m,
            ;
            assert(r.details * record >= m * record) by (nonlinear_arith)
                requires
                    r.details >= m,
            ;
        }
        r
    }

    fn detailed_ref<'a>(&'a self, step_index: usize, detail: &'a StepDetail) -> (r:
        DetailedStepRef<'a>)
        requires
            self.wf(),
            step_index < self@.base.len(),
        ensures
            r@ == (DetailedStepView {
                pc: self@.base[step_index as int].pc,
                op: self@.base[step_index as int].op,
                step_index: step_index as nat,
                detail: *detail,
            }),
    {
        DetailedStepRef {
            pc: self.pcs[step_index] as usize,
            op: OpCode::new_or_unknown(self.ops[step_index]),
            step_index,
            detail,
        }
    }
}

impl Clone for StepStore {
    fn clone(&self) -> (r: Self)
        ensures
            r@.same_contents(self@),
            self.wf() ==> r.wf(),
    {
        let r = StepStore {
            pcs: self.pcs.clone(),
            ops: self.ops.clone(),
            detail_steps: self.detail_steps.clone(),
            details: self.details.clone(),
        };
        proof {
            if self.wf() {
                r@.lemma_same_contents_valid(self@);
            }
        }
        r
    }
}

/// The heap bytes that columns with room for so many items occupy.
pub open spec fn columns_size(pcs: nat, ops: nat, detail_steps: nat, details: nat) -> nat {
    pcs * size_of::<u32>() + ops + detail_steps * size_of::<u32>() + details * size_of::<
        StepDetail,
    >()
}

/// How many items each column of a [`StepStore`] has room for.
#[derive(Clone, Copy, Debug, PartialEq, Eq, Structural)]
pub struct ColumnCapacities {
    /// Room for program counters.
    pub pcs: usize,
    /// Room for opcodes.
    pub ops: usize,
    /// Room for step indices of detail records.
    pub detail_steps: usize,
    /// Room for detail records.
    pub details: usize,
}

impl ColumnCapacities {
    /// The heap bytes that the columns occupy.
    pub open spec fn size(self) -> nat {
        columns_size(
            self.pcs as nat,
            self.ops as nat,
            self.detail_steps as nat,
            self.details as nat,
        )
    }

    /// The columns have room for the tracks.
    pub open spec fn fits(self, tracks: StepTracks) -> bool {
        &&& self.pcs >= tracks.base.len()
        &&& self.ops >= tracks.base.len()
        &&& self.detail_steps >= tracks.overlay.len()
        &&& self.details >= tracks.overlay.len()
    }

    /// Returns the heap bytes that the columns occupy. A total past `usize::MAX` counts as
    /// `usize::MAX`.
    pub fn bytes(self) -> (r: usize)
        ensures
            r == saturated(self.size()),
    {
        let word: usize = core::mem::size_of::<u32>();
        saturating_product(self.pcs, word).saturating_add(self.ops).saturating_add(
            saturating_product(self.detail_steps, word),
        ).saturating_add(saturating_product(self.details, core::mem::size_of::<StepDetail>()))
    }
}

/// `Vec::capacity` is at least the number of items in the vector. How much more it is depends on
/// the allocator and on the history of the vector, and is left unsaid.
#[verifier::external_body]
fn vec_capacity<T>(v: &Vec<T>) -> (r: usize)
    ensures
        r >= v@.len(),
{
    v.capacity()
}

/// A borrowed view of one recorded step: its program counter and opcode, plus the detail record
/// when the step was recorded in full.
///
/// Consumers read steps through [`crate::trace::CallTrace::iter_steps`] and
/// [`crate::trace::CallTrace::iter_detailed_steps`] rather than through the storage in
/// [`crate::trace::CallTrace::steps`].
#[derive(Clone, Copy, Debug)]
pub struct StepRef<'a> {
    /// Program counter before step execution
    pub pc: usize,
    /// Opcode to be executed
    pub op: OpCode,
    /// Index of the step in the call's base track.
    pub step_index: usize,
    /// The detail record, if the step was recorded in full.
    pub detail: Option<&'a StepDetail>,
}

impl<'a> View for StepRef<'a> {
    type V = StepView;

    open spec fn view(&self) -> StepView {
        StepView {
            pc: self.pc as nat,
            op: self.op.0,
            step_index: self.step_index as nat,
            detail: match self.detail {
                Some(detail) => Some(*detail),
                None => None,
            },
        }
    }
}

impl<'a> StepRef<'a> {
    /// Returns the step's detail record, if it was recorded in full, borrowed from the trace rather
    /// than from this view.
    pub fn detail(self) -> (r: Option<&'a StepDetail>)
        ensures
            match r {
                Some(detail) => self@.detail == Some(*detail),
                None => self@.detail is None,
            },
    {
        self.detail
    }

    /// Returns the step as a detailed step, if it was recorded in full.
    pub fn detailed(self) -> (r: Option<DetailedStepRef<'a>>)
        ensures
            match r {
                Some(step) => self@.detailed() == Some(step@),
                None => self@.detailed() is None,
            },
    {
        match self.detail {
            Some(detail) => Some(
                DetailedStepRef {
                    pc: self.pc,
                    op: self.op,
                    step_index: self.step_index,
                    detail,
                },
            ),
            None => None,
        }
    }

    /// Returns true if the step is a call-like operation: `CALL`, `CALLCODE`, `DELEGATECALL`,
    /// `STATICCALL`, `CREATE` or `CREATE2`.
    pub fn is_call_like_op(self) -> (r: bool)
        ensures
            r == call_like(self.op.0),
    {
        is_call_like_op(self.op)
    }

    /// Copies the step out of the store, cloning its detail record and the snapshots the record
    /// owns.
    pub fn into_owned(self) -> (r: CallTraceStep)
        ensures
            r.pc == self.pc,
            r.op == self.op,
            match r.detail {
                Some(detail) => self@.detail is Some && detail@ == self@.detail->0@,
                None => self@.detail is None,
            },
    {
        CallTraceStep {
            pc: self.pc,
            op: self.op,
            detail: match self.detail {
                Some(detail) => Some(detail.clone()),
                None => None,
            },
        }
    }
}

/// An owned copy of one recorded step: its program counter and opcode, plus the detail record when
/// the step was recorded in full. Produced by [`StepRef::into_owned`]; the tracer stores steps in a
/// [`StepStore`].
#[derive(Debug, PartialEq, Eq)]
pub struct CallTraceStep {
    /// Program counter before step execution
    pub pc: usize,
    /// Opcode to be executed
    pub op: OpCode,
    /// The detail record, if the step was recorded in full.
    pub detail: Option<StepDetail>,
}

impl Clone for CallTraceStep {
    fn clone(&self) -> (r: Self)
        ensures
            r.pc == self.pc,
            r.op == self.op,
            match r.detail {
                Some(detail) => self.detail is Some && detail@ == self.detail->0@,
                None => self.detail is None,
            },
    {
        CallTraceStep {
            pc: self.pc,
            op: self.op,
            detail: match &self.detail {
                Some(detail) => Some(detail.clone()),
                None => None,
            },
        }
    }
}

/// A borrowed view of one step that was recorded in full. Dereferences to its [`StepDetail`], so
/// the record's fields can be read directly; [`Self::pc`], [`Self::op`] and [`Self::step_index`]
/// are the view's own copies.
///
/// Field access through the dereference borrows the view, not the trace. When a borrow must
/// outlive the view, for instance to collect references from several steps, use the accessors
/// that return `'a` references, such as [`Self::storage_change`].
#[derive(Clone, Copy, Debug)]
pub struct DetailedStepRef<'a> {
    /// Program counter before step execution
    pub pc: usize,
    /// Opcode to be executed
    pub op: OpCode,
    /// Index of the step in the call's base track.
    pub step_index: usize,
    /// The detail record.
    pub detail: &'a StepDetail,
}

impl<'a> View for DetailedStepRef<'a> {
    type V = DetailedStepView;

    open spec fn view(&self) -> DetailedStepView {
        DetailedStepView {
            pc: self.pc as nat,
            op: self.op.0,
            step_index: self.step_index as nat,
            detail: *self.detail,
        }
    }
}

impl<'a> core::ops::Deref for DetailedStepRef<'a> {
    type Target = StepDetail;

    fn deref(&self) -> (r: &StepDetail)
        ensures
            *r == self@.detail,
    {
        self.detail
    }
}

impl<'a> DetailedStepRef<'a> {
    /// Returns the step's detail record, borrowed from the trace rather than from this view.
    pub fn detail(self) -> (r: &'a StepDetail)
        ensures
            *r == self@.detail,
    {
        self.detail
    }

    /// Returns the step's storage change, if any, borrowed from the trace rather than from this
    /// view.
    pub fn storage_change(self) -> (r: Option<&'a StorageChange>)
        ensures
            match r {
                Some(change) => self@.detail@.storage_change == Some(*change),
                None => self@.detail.storage_change is None,
            },
    {
        match &self.detail.storage_change {
            Some(change) => Some(&**change),
            None => None,
        }
    }

    /// Returns the step's decoded data, if any, borrowed from the trace rather than from this
    /// view.
    pub fn decoded(self) -> (r: Option<&'a DecodedTraceStep>)
        ensures
            match r {
                Some(decoded) => self@.detail.decoded == Some(Box::new(*decoded)),
                None => self@.detail.decoded is None,
            },
    {
        match &self.detail.decoded {
            Some(decoded) => Some(&**decoded),
            None => None,
        }
    }

    /// Returns true if the step is a STOP opcode
    pub fn is_stop(self) -> (r: bool)
        ensures
            r == (self.op.0 == STOP),
    {
        matches!(self.op.get(), STOP)
    }

    /// Returns true if the step is a call-like operation: `CALL`, `CALLCODE`, `DELEGATECALL`,
    /// `STATICCALL`, `CREATE` or `CREATE2`.
    pub fn is_call_like_op(self) -> (r: bool)
        ensures
            r == call_like(self.op.0),
    {
        is_call_like_op(self.op)
    }
}

/// Walks every step of a [`StepStore`], from either end, the base track and the detail overlay in
/// one pass.
pub struct StepIter<'a> {
    store: &'a StepStore,
    front: usize,
    back: usize,
    /// Detail records not yet yielded from the front.
    detail_front: usize,
    /// Detail records not yet yielded from the back.
    detail_back: usize,
}

impl<'a> View for StepIter<'a> {
    type V = Seq<StepView>;

    /// The steps not yet yielded, in execution order.
    closed spec fn view(&self) -> Seq<StepView> {
        Seq::new((self.back - self.front) as nat, |j: int| self.store@.step(self.front + j))
    }
}

impl<'a> Clone for StepIter<'a> {
    fn clone(&self) -> (r: Self)
        ensures
            r == *self,
    {
        StepIter {
            store: self.store,
            front: self.front,
            back: self.back,
            detail_front: self.detail_front,
            detail_back: self.detail_back,
        }
    }
}

impl<'a> StepIter<'a> {
    /// The records not yet yielded are those of the steps not yet yielded.
    pub closed spec fn wf(&self) -> bool {
        &&& self.store.wf()
        &&& self.front <= self.back <= self.store@.base.len()
        &&& self.detail_front <= self.detail_back <= self.store@.overlay.len()
        &&& forall|k: int|
            0 <= k < self.detail_front ==> (#[trigger] self.store@.overlay[k]).step_index
                < self.front
        &&& forall|k: int|
            self.detail_front <= k < self.detail_back ==> self.front <= (
            #[trigger] self.store@.overlay[k]).step_index < self.back
        &&& forall|k: int|
            self.detail_back <= k < self.store@.overlay.len() ==> self.back <= (
            #[trigger] self.store@.overlay[k]).step_index
    }

    fn step(&self, idx: usize, detail: Option<usize>) -> (r: StepRef<'a>)
        requires
            self.store.wf(),
            idx < self.store@.base.len(),
            match detail {
                Some(k) => self.store@.owns(idx as int, k as int),
                None => forall|k: int| !self.store@.owns(idx as int, k),
            },
        ensures
            r@ == self.store@.step(idx as int),
    {
        let store = self.store;
        StepRef {
            pc: store.pcs[idx] as usize,
            op: OpCode::new_or_unknown(store.ops[idx]),
            step_index: idx,
            detail: match detail {
                Some(k) => {
                    proof {
                        store@.lemma_detail_of(idx as int, k as int);
                    }
                    Some(&store.details[k])
                },
                None => None,
            },
        }
    }

    /// Yields the first of the steps not yet yielded.
    pub fn next(&mut self) -> (r: Option<StepRef<'a>>)
        requires
            old(self).wf(),
        ensures
            final(self).wf(),
            match r {
                Some(step) => {
                    &&& old(self)@.len() > 0
                    &&& step@ == old(self)@.first()
                    &&& final(self)@ == old(self)@.drop_first()
                },
                None => old(self)@.len() == 0 && *final(self) == *old(self),
            },
    {
        if self.front == self.back {
            return None;
        }
        let idx: usize = self.front;
        self.front = self.front + 1;
        let detail = if self.detail_front < self.detail_back
            && self.store.detail_steps[self.detail_front] as usize == idx {
            self.detail_front = self.detail_front + 1;
            Some(self.detail_front - 1)
        } else {
            None
        };
        proof {
            let k = old(self).detail_front as int;
            if k < old(self).detail_back {
                assert(self.store@.overlay[k].step_index == self.store.detail_steps@[k]);
                assert forall|j: int| k < j < self.store@.overlay.len() implies idx < (
                #[trigger] self.store@.overlay[j]).step_index by {
                    assert(self.store@.overlay[k].step_index < self.store@.overlay[j].step_index);
                }
            }
            assert forall|j: int| self.store@.owns(idx as int, j) implies detail == Some(
                j as usize,
            ) by {
                assert(self.store@.overlay[j].step_index == idx);
            }
        }
        assert(self.wf());
        assert(self@ =~= old(self)@.drop_first());
        Some(self.step(idx, detail))
    }

    /// Yields the last of the steps not yet yielded.
    pub fn next_back(&mut self) -> (r: Option<StepRef<'a>>)
        requires
            old(self).wf(),
        ensures
            final(self).wf(),
            match r {
                Some(step) => {
                    &&& old(self)@.len() > 0
                    &&& step@ == old(self)@.last()
                    &&& final(self)@ == old(self)@.drop_last()
                },
                None => old(self)@.len() == 0 && *final(self) == *old(self),
            },
    {
        if self.front == self.back {
            return None;
        }
        self.back = self.back - 1;
        let idx: usize = self.back;
        let detail = if self.detail_front < self.detail_back
            && self.store.detail_steps[self.detail_back - 1] as usize == idx {
            self.detail_back = self.detail_back - 1;
            Some(self.detail_back)
        } else {
            None
        };
        proof {
            let k = old(self).detail_back - 1;
            if old(self).detail_front <= k {
                assert(self.store@.overlay[k].step_index == self.store.detail_steps@[k]);
                assert forall|j: int| 0 <= j < k implies (
                #[trigger] self.store@.overlay[j]).step_index < self.store@.overlay[k].step_index by {}
            }
            assert forall|j: int| self.store@.owns(idx as int, j) implies detail == Some(
                j as usize,
            ) by {
                assert(self.store@.overlay[j].step_index == idx);
            }
        }
        assert(self.wf());
        assert(self@ =~= old(self)@.drop_last());
        Some(self.step(idx, detail))
    }

    /// Returns how many steps are not yet yielded, as a lower and an upper bound.
    pub fn size_hint(&self) -> (r: (usize, Option<usize>))
        requires
            self.wf(),
        ensures
            r.0 == self@.len(),
            r.1 == Some(r.0),
    {
        let len: usize = self.back - self.front;
        (len, Some(len))
    }
}

/// Walks the steps of a [`StepStore`] that were recorded in full, from either end.
pub struct DetailedStepIter<'a> {
    store: &'a StepStore,
    front: usize,
    back: usize,
}

impl<'a> View for DetailedStepIter<'a> {
    type V = Seq<DetailedStepView>;

    /// The steps not yet yielded, in execution order.
    closed spec fn view(&self) -> Seq<DetailedStepView> {
        Seq::new((self.back - self.front) as nat, |j: int| self.store@.detailed(self.front + j))
    }
}

impl<'a> Clone for DetailedStepIter<'a> {
    fn clone(&self) -> (r: Self)
        ensures
            r == *self,
    {
        DetailedStepIter { store: self.store, front: self.front, back: self.back }
    }
}

impl<'a> DetailedStepIter<'a> {
    /// The walk stays inside the overlay.
    pub closed spec fn wf(&self) -> bool {
        &&& self.store.wf()
        &&& self.front <= self.back <= self.store@.overlay.len()
    }

    /// Yields the first of the steps not yet yielded.
    pub fn next(&mut self) -> (r: Option<DetailedStepRef<'a>>)
        requires
            old(self).wf(),
        ensures
            final(self).wf(),
            match r {
                Some(step) => {
                    &&& old(self)@.len() > 0
                    &&& step@ == old(self)@.first()
                    &&& final(self)@ == old(self)@.drop_first()
                },
                None => old(self)@.len() == 0 && *final(self) == *old(self),
            },
    {
        if self.front == self.back {
            return None;
        }
        let k: usize = self.front;
        self.front = self.front + 1;
        assert(self@ =~= old(self)@.drop_first());
        self.store.detailed(k)
    }

    /// Yields the last of the steps not yet yielded.
    pub fn next_back(&mut self) -> (r: Option<DetailedStepRef<'a>>)
        requires
            old(self).wf(),
        ensures
            final(self).wf(),
            match r {
                Some(step) => {
                    &&& old(self)@.len() > 0
                    &&& step@ == old(self)@.last()
                    &&& final(self)@ == old(self)@.drop_last()
                },
                None => old(self)@.len() == 0 && *final(self) == *old(self),
            },
    {
        if self.front == self.back {
            return None;
        }
        self.back = self.back - 1;
        assert(self@ =~= old(self)@.drop_last());
        self.store.detailed(self.back)
    }

    /// Returns how many steps are not yet yielded, as a lower and an upper bound.
    pub fn size_hint(&self) -> (r: (usize, Option<usize>))
        requires
            self.wf(),
        ensures
            r.0 == self@.len(),
            r.1 == Some(r.0),
    {
        let len: usize = self.back - self.front;
        (len, Some(len))
    }
}

} // verus!
