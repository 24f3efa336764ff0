//! Equality-based dirty-bit cells.
//!
//! An [`ATracked`] cell holds a current value together with the value it held
//! at the last acknowledgment (its baseline).  The cell is dirty exactly when
//! the two differ by equality, however many intermediate writes occurred.

use vstd::prelude::*;

verus! {

/// A value that can live inside an [`ATracked`] cell: it can be duplicated
/// exactly and compared, where comparison agrees with deep-view equality.
pub trait CellValue: DeepView + Sized {
    /// Equality test; the result agrees with equality of the deep views.
    fn eq_value(&self, other: &Self) -> (r: bool)
        ensures
            r == (self.deep_view() == other.deep_view()),
    ;

    /// An exact duplicate of the value.
    fn dup(&self) -> (r: Self)
        ensures
            r == *self,
    ;
}

impl CellValue for Option<bool> {
    fn eq_value(&self, other: &Self) -> (r: bool) {
        match (self, other) {
            (Some(a), Some(b)) => *a == *b,
            (None, None) => true,
            _ => false,
        }
    }

    fn dup(&self) -> (r: Self) {
        *self
    }
}

impl CellValue for Option<i32> {
    fn eq_value(&self, other: &Self) -> (r: bool) {
        match (self, other) {
            (Some(a), Some(b)) => *a == *b,
            (None, None) => true,
            _ => false,
        }
    }

    fn dup(&self) -> (r: Self) {
        *self
    }
}

impl CellValue for Option<u64> {
    fn eq_value(&self, other: &Self) -> (r: bool) {
        match (self, other) {
            (Some(a), Some(b)) => *a == *b,
            (None, None) => true,
            _ => false,
        }
    }

    fn dup(&self) -> (r: Self) {
        *self
    }
}

impl CellValue for Option<String> {
    fn eq_value(&self, other: &Self) -> (r: bool) {
        match (self, other) {
            (Some(a), Some(b)) => *a == *b,
            (None, None) => true,
            _ => false,
        }
    }

    fn dup(&self) -> (r: Self) {
        match self {
            Some(s) => Some(s.clone()),
            None => None,
        }
    }
}

/// A dirty-bit cell: the current value plus the value acknowledged last.
///
/// The cell reports a change exactly when the current value differs, by
/// equality of deep views, from the baseline recorded at the last
/// [`reset`](ATracked::reset).  Writing a value equal to the current one
/// therefore never flips the report, and writing the baseline value back
/// clears it.
#[derive(Debug)]
pub struct ATracked<T> {
    /// The value most recently written.
    pub value: T,
    /// The value held when the cell was created or last reset.
    pub baseline: T,
}

impl<T: DeepView> ATracked<T> {
    /// The cell reports a change: current value and baseline differ.
    pub open spec fn dirty(self) -> bool {
        self.value.deep_view() != self.baseline.deep_view()
    }

    /// The cell after a write of `v`: the value is replaced, the baseline kept.
    pub open spec fn set_model(self, v: T) -> ATracked<T> {
        ATracked { value: v, baseline: self.baseline }
    }

    /// The cell after an acknowledgment: the current value becomes the baseline.
    pub open spec fn reset_model(self) -> ATracked<T> {
        ATracked { value: self.value, baseline: self.value }
    }
}

impl<T: CellValue> ATracked<T> {
    /// A fresh cell holding `value`, reporting no change.
    pub fn new(value: T) -> (cell: ATracked<T>)
        ensures
            cell.value == value,
            cell.baseline == value,
    {
        let baseline = value.dup();
        ATracked { value, baseline }
    }

    /// The current value.
    pub fn get(&self) -> (r: &T)
        ensures
            *r == self.value,
    {
        &self.value
    }

    /// Replaces the current value; the baseline — and with it the change
    /// report for unchanged values — is untouched.
    pub fn set(&mut self, value: T)
        ensures
            *final(self) == old(self).set_model(value),
    {
        self.value = value;
    }

    /// Acknowledges the current value: afterwards the cell reports no change
    /// until a write differing from this value arrives.
    pub fn reset(&mut self)
        ensures
            *final(self) == old(self).reset_model(),
    {
        self.baseline = self.value.dup();
    }

    /// Whether the current value differs from the baseline.
    pub fn has_changed(&self) -> (r: bool)
        ensures
            r == self.dirty(),
    {
        !self.value.eq_value(&self.baseline)
    }
}

/// The cell after a sequence of writes, applied left to right.
pub open spec fn run_sets<T: DeepView>(cell: ATracked<T>, vs: Seq<T>) -> ATracked<T>
    decreases vs.len(),
{
    if vs.len() == 0 {
        cell
    } else {
        run_sets(cell.set_model(vs[0]), vs.subrange(1, vs.len() as int))
    }
}

/// However many writes occur, and however they temporarily match the
/// baseline and diverge again, the cell reports a change exactly when its
/// current value — the last one written — differs by equality from the value
/// it held at the last acknowledgment.
pub proof fn lemma_changed_iff_differs_from_baseline<T: DeepView>(cell: ATracked<T>, vs: Seq<T>)
    ensures
        run_sets(cell, vs).baseline == cell.baseline,
        run_sets(cell, vs).value == if vs.len() == 0 {
            cell.value
        } else {
            vs.last()
        },
        run_sets(cell, vs).dirty() <==> run_sets(cell, vs).value.deep_view()
            != cell.baseline.deep_view(),
    decreases vs.len(),
{
    if vs.len() > 0 {
        let rest = vs.subrange(1, vs.len() as int);
        lemma_changed_iff_differs_from_baseline(cell.set_model(vs[0]), rest);
        if rest.len() > 0 {
            assert(rest.last() == vs.last());
        }
    }
}

/// A write of a value equal to the current one leaves the change report as
/// it was: neither set nor cleared.
pub proof fn lemma_set_equal_value_preserves_report<T: DeepView>(cell: ATracked<T>, v: T)
    requires
        v.deep_view() == cell.value.deep_view(),
    ensures
        cell.set_model(v).dirty() == cell.dirty(),
{
}

/// Writing the same value twice in a row leaves the cell exactly as the
/// first write alone left it.
pub proof fn lemma_set_twice<T: DeepView>(cell: ATracked<T>, v: T)
    ensures
        cell.set_model(v).set_model(v) == cell.set_model(v),
{
}

/// Immediately after an acknowledgment the cell reports no change, and it
/// keeps reporting none until a write arrives whose value differs from the
/// acknowledged one.
pub proof fn lemma_reset_clears_report<T: DeepView>(cell: ATracked<T>, vs: Seq<T>)
    ensures
        cell.reset_model().dirty() == false,
        run_sets(cell.reset_model(), vs).dirty() <==> (vs.len() > 0 && vs.last().deep_view()
            != cell.value.deep_view()),
{
    lemma_changed_iff_differs_from_baseline(cell.reset_model(), vs);
}

/// Acknowledging twice in a row is the same as acknowledging once.
pub proof fn lemma_reset_idempotent<T: DeepView>(cell: ATracked<T>)
    ensures
        cell.reset_model().reset_model() == cell.reset_model(),
{
}

} // verus!
