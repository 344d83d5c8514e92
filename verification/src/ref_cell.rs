//! A cell that tracks, at run time, who may look at its value.
//!
//! The cell counts its outstanding holds: any number of shared holds, or a
//! single exclusive one, never both. A hold is a plain value, a [`Ref`], with
//! no lifetime: it is taken from the cell and handed back to it, and it can
//! carry a value that was derived from the cell's value while it was held.
//!
//! To contracts every cell has a label, and every guard bears the label of
//! the cell it was taken from. Nothing is known of the label of a new cell,
//! so a guard can only be shown to belong to the cell that gave it.

use vstd::prelude::*;

verus! {

/// The holds on a cell as one signed counter: a positive count is the number
/// of shared holds, `-1` is the exclusive hold, zero is a free cell.
#[derive(Debug, Clone, Copy)]
pub struct BorrowFlag(isize);

impl BorrowFlag {
    /// The counter itself.
    pub closed spec fn count(self) -> int {
        self.0 as int
    }

    /// A counter never sinks below the single exclusive hold.
    pub open spec fn wf(self) -> bool {
        self.count() >= -1
    }

    /// Every flag keeps to this, whatever is done with it.
    #[verifier::type_invariant]
    spec fn inv(self) -> bool {
        self.0 >= -1
    }

    /// A shared hold can be added: nobody holds the cell exclusively and the
    /// counter has room for one more.
    pub open spec fn can_add_ref(self) -> bool {
        0 <= self.count() < isize::MAX
    }

    /// The exclusive hold can be taken: the cell is free.
    pub open spec fn can_add_ref_mut(self) -> bool {
        self.count() == 0
    }

    /// The flag of a free cell.
    pub fn unused() -> (flag: Self)
        ensures
            flag.count() == 0,
    {
        Self(0)
    }

    /// Whether the exclusive hold is out.
    pub fn is_writing(&self) -> (writing: bool)
        ensures
            writing == (self.count() == -1),
            self.wf(),
    {
        proof {
            use_type_invariant(self);
        }
        self.0 < 0
    }

    /// Whether at least one shared hold is out.
    pub fn is_reading(&self) -> (reading: bool)
        ensures
            reading == (self.count() > 0),
            self.wf(),
    {
        proof {
            use_type_invariant(self);
        }
        self.0 > 0
    }

    /// Tries to add a shared hold and says whether it did.
    #[must_use]
    pub fn add_ref(&mut self) -> (added: bool)
        ensures
            added == old(self).can_add_ref(),
            added ==> final(self).count() == old(self).count() + 1,
            !added ==> *final(self) == *old(self),
    {
        if self.is_writing() {
            false
        } else {
            match self.0.checked_add(1) {
                Some(n) => {
                    self.0 = n;
                    true
                },
                None => false,
            }
        }
    }

    /// Gives one shared hold back.
    pub fn rm_ref(&mut self)
        requires
            old(self).count() > 0,
        ensures
            final(self).count() == old(self).count() - 1,
    {
        self.0 -= 1;
    }

    /// Tries to take the exclusive hold and says whether it did.
    #[must_use]
    pub fn add_ref_mut(&mut self) -> (added: bool)
        ensures
            added == old(self).can_add_ref_mut(),
            added ==> final(self).count() == -1,
            !added ==> *final(self) == *old(self),
    {
        if self.0 != 0 {
            false
        } else {
            self.0 -= 1;
            true
        }
    }

    /// Gives the exclusive hold back.
    pub fn rm_ref_mut(&mut self)
        requires
            old(self).count() == -1,
        ensures
            final(self).count() == 0,
    {
        self.0 += 1;
    }
}

/// A cell as contracts see it: its label, its counter and its value.
pub struct CellView<T> {
    /// The label that tells the cell's guards from those of other cells.
    pub id: int,
    /// The number of shared holds, or `-1` for the exclusive hold.
    pub count: int,
    /// The value that the cell owns.
    pub value: T,
}

impl<T> CellView<T> {
    /// The counter stands for a set of holds: it is `-1` or a count that a
    /// machine word can keep.
    pub open spec fn wf(self) -> bool {
        -1 <= self.count <= isize::MAX
    }

    /// No hold is out.
    pub open spec fn is_free(self) -> bool {
        self.count == 0
    }

    /// A shared hold can be taken.
    pub open spec fn can_borrow(self) -> bool {
        0 <= self.count < isize::MAX
    }

    /// The exclusive hold can be taken.
    pub open spec fn can_borrow_mut(self) -> bool {
        self.count == 0
    }

    /// The cell after one more shared hold was taken.
    pub open spec fn borrowed(self) -> Self {
        CellView { count: self.count + 1, ..self }
    }

    /// The cell after the exclusive hold was taken.
    pub open spec fn borrowed_mut(self) -> Self {
        CellView { count: -1, ..self }
    }

    /// The counter agrees with a hold of the given kind being out.
    pub open spec fn counts(self, mutably: bool) -> bool {
        if mutably {
            self.count == -1
        } else {
            self.count > 0
        }
    }

    /// The guard was taken from this cell, and the counter agrees with its
    /// hold being out.
    pub open spec fn holds<U>(self, guard: RefView<U>) -> bool {
        guard.cell == self.id && self.counts(guard.mutably)
    }

    /// The cell after a hold of the given kind was handed back.
    pub open spec fn released(self, mutably: bool) -> Self {
        CellView { count: if mutably { 0 } else { self.count - 1 }, ..self }
    }

    /// The same holds on another value.
    pub open spec fn with_value(self, value: T) -> Self {
        CellView { value, ..self }
    }
}

/// A value together with the count of the holds on it.
pub struct RefCell<T> {
    borrow: BorrowFlag,
    value: T,
    id: Ghost<int>,
}

impl<T> View for RefCell<T> {
    type V = CellView<T>;

    closed spec fn view(&self) -> CellView<T> {
        CellView { id: self.id@, count: self.borrow.count(), value: self.value }
    }
}

impl<T> From<T> for RefCell<T> {
    /// A free cell around `value`.
    fn from(value: T) -> (cell: Self)
        ensures
            cell@.is_free(),
            cell@.value == value,
    {
        Self::new(value)
    }
}

impl<T> vstd::std_specs::convert::FromSpecImpl<T> for RefCell<T> {
    /// No two cells are known to bear the same label, so what `from` gives
    /// is not a function of the value alone.
    open spec fn obeys_from_spec() -> bool {
        false
    }

    closed spec fn from_spec(v: T) -> Self {
        RefCell { borrow: BorrowFlag(0), value: v, id: Ghost(0) }
    }
}

/// One hold on a cell: shared, or exclusive.
struct BorrowRef {
    mutably: bool,
}

impl BorrowRef {
    /// Whether this is the exclusive hold.
    spec fn mutably(&self) -> bool {
        self.mutably
    }

    /// Hands the hold back to the flag it was taken from.
    fn release(self, flag: &mut BorrowFlag)
        requires
            if self.mutably() {
                old(flag).count() == -1
            } else {
                old(flag).count() > 0
            },
        ensures
            final(flag).count() == if self.mutably() {
                0
            } else {
                old(flag).count() - 1
            },
    {
        if !self.mutably {
            flag.rm_ref();
        } else {
            flag.rm_ref_mut();
        }
    }
}

/// A guard as contracts see it: the cell it was taken from, the kind of its
/// hold and the value it carries.
pub struct RefView<T> {
    /// The label of the cell that gave the guard.
    pub cell: int,
    /// Whether the hold is the exclusive one.
    pub mutably: bool,
    /// The value that travels with the hold.
    pub value: T,
}

/// A hold on a cell together with a value that lives as long as the hold.
pub struct Ref<T> {
    value: T,
    borrow: BorrowRef,
    cell: Ghost<int>,
}

impl<T> View for Ref<T> {
    type V = RefView<T>;

    closed spec fn view(&self) -> RefView<T> {
        RefView { cell: self.cell@, mutably: self.borrow.mutably(), value: self.value }
    }
}

impl<T> RefCell<T> {
    /// A free cell around `v`.
    pub fn new(v: T) -> (cell: Self)
        ensures
            cell@.is_free(),
            cell@.value == v,
    {
        Self { value: v, borrow: BorrowFlag::unused(), id: Ghost(arbitrary()) }
    }

    /// The counter of the holds, as it stands.
    pub fn flag(&self) -> (flag: BorrowFlag)
        ensures
            flag.count() == self@.count,
            self@.wf(),
    {
        proof {
            use_type_invariant(&self.borrow);
        }
        self.borrow
    }

    /// Takes the cell apart and gives its value.
    pub fn into_inner(self) -> (value: T)
        ensures
            value == self@.value,
    {
        self.value
    }

    /// Counts one more shared hold, without a guard for it.
    pub fn increment_ref(&mut self)
        requires
            old(self)@.can_borrow(),
        ensures
            final(self)@ == old(self)@.borrowed(),
    {
        let _ = self.borrow.add_ref();
    }

    /// Counts the exclusive hold, without a guard for it.
    pub fn increment_ref_mut(&mut self)
        requires
            old(self)@.can_borrow_mut(),
        ensures
            final(self)@ == old(self)@.borrowed_mut(),
    {
        let _ = self.borrow.add_ref_mut();
    }

    /// Counts one more shared hold and lends the value for it. The hold is
    /// never handed back.
    pub fn leak_ref(&mut self) -> (value: &T)
        requires
            old(self)@.can_borrow(),
        ensures
            *value == old(self)@.value,
            final(self)@ == old(self)@.borrowed(),
    {
        self.increment_ref();
        &self.value
    }

    /// Takes a shared hold.
    pub fn borrow(&mut self) -> (guard: Ref<()>)
        requires
            old(self)@.can_borrow(),
        ensures
            final(self)@ == old(self)@.borrowed(),
            guard@ == (RefView { cell: old(self)@.id, mutably: false, value: () }),
    {
        self.increment_ref();
        Ref { value: (), borrow: BorrowRef { mutably: false }, cell: Ghost(self.id@) }
    }

    /// Takes the exclusive hold.
    pub fn borrow_mut(&mut self) -> (guard: Ref<()>)
        requires
            old(self)@.can_borrow_mut(),
        ensures
            final(self)@ == old(self)@.borrowed_mut(),
            guard@ == (RefView { cell: old(self)@.id, mutably: true, value: () }),
    {
        self.increment_ref_mut();
        Ref { value: (), borrow: BorrowRef { mutably: true }, cell: Ghost(self.id@) }
    }

    /// Takes a shared hold if the cell allows one, and leaves the cell as it
    /// is if not.
    pub fn try_borrow(&mut self) -> (guard: Option<Ref<()>>)
        ensures
            guard is Some <==> old(self)@.can_borrow(),
            guard matches Some(g) ==> g@ == (RefView {
                cell: old(self)@.id,
                mutably: false,
                value: (),
            }),
            final(self)@ == if old(self)@.can_borrow() {
                old(self)@.borrowed()
            } else {
                old(self)@
            },
    {
        if self.borrow.add_ref() {
            Some(Ref { value: (), borrow: BorrowRef { mutably: false }, cell: Ghost(self.id@) })
        } else {
            None
        }
    }

    /// Takes the exclusive hold if the cell is free, and leaves the cell as
    /// it is if not.
    pub fn try_borrow_mut(&mut self) -> (guard: Option<Ref<()>>)
        ensures
            guard is Some <==> old(self)@.can_borrow_mut(),
            guard matches Some(g) ==> g@ == (RefView {
                cell: old(self)@.id,
                mutably: true,
                value: (),
            }),
            final(self)@ == if old(self)@.can_borrow_mut() {
                old(self)@.borrowed_mut()
            } else {
                old(self)@
            },
    {
        if self.borrow.add_ref_mut() {
            Some(Ref { value: (), borrow: BorrowRef { mutably: true }, cell: Ghost(self.id@) })
        } else {
            None
        }
    }

    /// Whether the counter agrees with the guard's hold being out: some
    /// shared hold for a shared guard, the exclusive hold for an exclusive
    /// one.
    pub fn counts<U>(&self, guard: &Ref<U>) -> (agrees: bool)
        ensures
            agrees == self@.counts(guard@.mutably),
    {
        if guard.borrow.mutably {
            self.borrow.0 == -1
        } else {
            self.borrow.is_reading()
        }
    }

    /// Reads the value under a hold.
    pub fn get<U>(&self, guard: &Ref<U>) -> (value: &T)
        requires
            self@.holds(guard@),
        ensures
            *value == self@.value,
    {
        &self.value
    }

    /// Reaches the value for writing under the exclusive hold.
    pub fn get_mut<U>(&mut self, guard: &Ref<U>) -> (value: &mut T)
        requires
            guard@.mutably,
            old(self)@.holds(guard@),
        ensures
            *value == old(self)@.value,
            final(self)@ == old(self)@.with_value(*final(value)),
    {
        &mut self.value
    }

    /// Ends a guard's life: its hold goes back to the cell, and the value it
    /// carried goes with it.
    pub fn release<U>(&mut self, guard: Ref<U>)
        requires
            old(self)@.holds(guard@),
        ensures
            final(self)@ == old(self)@.released(guard@.mutably),
    {
        let Ref { value: _, borrow, cell: _ } = guard;
        borrow.release(&mut self.borrow);
    }

    /// Derives a value from the cell's value under a hold. The guard that
    /// comes back keeps the hold and carries what `f` made.
    pub fn project<U, V, F>(&self, guard: Ref<U>, f: F) -> (derived: Ref<V>) where
        F: FnOnce(&T) -> V,

        requires
            self@.holds(guard@),
            f.requires((&self@.value,)),
        ensures
            derived@.cell == guard@.cell,
            derived@.mutably == guard@.mutably,
            f.ensures((&self@.value,), derived@.value),
    {
        let Ref { value: _, borrow, cell } = guard;
        Ref { value: f(&self.value), borrow, cell }
    }

    /// Derives a value from the cell's value under a hold, where deriving can
    /// fail. On success the guard that comes back keeps the hold and carries
    /// what `f` made. On failure the hold is handed back before the error is.
    pub fn try_project<U, V, E, F>(&mut self, guard: Ref<U>, f: F) -> (derived: Result<
        Ref<V>,
        E,
    >) where F: FnOnce(&T) -> Result<V, E>
        requires
            old(self)@.holds(guard@),
            f.requires((&old(self)@.value,)),
        ensures
            match derived {
                Ok(kept) => {
                    &&& f.ensures((&old(self)@.value,), Ok(kept@.value))
                    &&& kept@.cell == guard@.cell
                    &&& kept@.mutably == guard@.mutably
                    &&& final(self)@ == old(self)@
                },
                Err(e) => {
                    &&& f.ensures((&old(self)@.value,), Err(e))
                    &&& final(self)@ == old(self)@.released(guard@.mutably)
                },
            },
    {
        let attempt = self.project(guard, f);
        Ref::transpose(attempt, self)
    }
}

impl<T> Ref<T> {
    /// Replaces the carried value by what `f` makes of it. The hold stays.
    pub fn map<F, U>(me: Self, f: F) -> (mapped: Ref<U>) where F: FnOnce(T) -> U
        requires
            f.requires((me@.value,)),
        ensures
            mapped@.cell == me@.cell,
            mapped@.mutably == me@.mutably,
            f.ensures((me@.value,), mapped@.value),
    {
        let Ref { value, borrow, cell } = me;
        Ref { value: f(value), borrow, cell }
    }
}

impl<R, E> Ref<Result<R, E>> {
    /// Turns a guard around a result into the result of a guard. A guard
    /// that carries a success keeps its hold. One that carries a failure
    /// hands its hold back to `cell`, and only the error is left.
    pub fn transpose<T>(me: Self, cell: &mut RefCell<T>) -> (turned: Result<Ref<R>, E>)
        requires
            old(cell)@.holds(me@),
        ensures
            match me@.value {
                Ok(value) => {
                    &&& turned matches Ok(kept)
                    &&& kept@ == (RefView { cell: me@.cell, mutably: me@.mutably, value })
                    &&& final(cell)@ == old(cell)@
                },
                Err(e) => {
                    &&& turned matches Err(same)
                    &&& same == e
                    &&& final(cell)@ == old(cell)@.released(me@.mutably)
                },
            },
    {
        let Ref { value, borrow, cell: origin } = me;
        match value {
            Ok(value) => Ok(Ref { value, borrow, cell: origin }),
            Err(e) => {
                borrow.release(&mut cell.borrow);
                Err(e)
            },
        }
    }
}

impl<T> std::ops::Deref for Ref<T> {
    type Target = T;

    /// The carried value.
    fn deref(&self) -> (value: &T)
        ensures
            *value == self@.value,
    {
        &self.value
    }
}

impl<T> std::ops::DerefMut for Ref<T> {
    /// The carried value, for writing.
    fn deref_mut(&mut self) -> (value: &mut T)
        ensures
            *value == old(self)@.value,
            final(self)@ == (RefView { value: *final(value), ..old(self)@ }),
    {
        &mut self.value
    }
}

/// One thing that can happen to the holds on a cell.
pub enum Step {
    /// A shared hold is taken.
    Borrow,
    /// The exclusive hold is taken.
    BorrowMut,
    /// A hold of the given kind is handed back.
    Release { mutably: bool },
}

impl<T> CellView<T> {
    /// The cell lets the step happen.
    pub open spec fn accepts(self, step: Step) -> bool {
        match step {
            Step::Borrow => self.can_borrow(),
            Step::BorrowMut => self.can_borrow_mut(),
            Step::Release { mutably } => self.counts(mutably),
        }
    }

    /// The cell after the step.
    pub open spec fn after(self, step: Step) -> Self {
        match step {
            Step::Borrow => self.borrowed(),
            Step::BorrowMut => self.borrowed_mut(),
            Step::Release { mutably } => self.released(mutably),
        }
    }

    /// The cell lets the steps happen, one after the other.
    pub open spec fn accepts_all(self, steps: Seq<Step>) -> bool
        decreases steps.len(),
    {
        steps.len() == 0 || (self.accepts(steps[0]) && self.after(steps[0]).accepts_all(
            steps.drop_first(),
        ))
    }

    /// The cell after all the steps.
    pub open spec fn after_all(self, steps: Seq<Step>) -> Self
        decreases steps.len(),
    {
        if steps.len() == 0 {
            self
        } else {
            self.after(steps[0]).after_all(steps.drop_first())
        }
    }

    /// The counter stands for exactly these holds: `shared` shared ones and
    /// no exclusive one, or the exclusive one alone.
    pub open spec fn tracks(self, shared: int, exclusive: int) -> bool {
        ||| exclusive == 0 && shared >= 0 && self.count == shared
        ||| exclusive == 1 && shared == 0 && self.count == -1
    }
}

/// The shared holds that the steps leave out: those taken less those handed
/// back.
pub open spec fn shared_out(steps: Seq<Step>) -> int
    decreases steps.len(),
{
    if steps.len() == 0 {
        0
    } else {
        shared_out(steps.drop_first()) + match steps[0] {
            Step::Borrow => 1int,
            Step::Release { mutably: false } => -1int,
            _ => 0int,
        }
    }
}

/// The exclusive holds that the steps leave out: those taken less those
/// handed back.
pub open spec fn exclusive_out(steps: Seq<Step>) -> int
    decreases steps.len(),
{
    if steps.len() == 0 {
        0
    } else {
        exclusive_out(steps.drop_first()) + match steps[0] {
            Step::BorrowMut => 1int,
            Step::Release { mutably: true } => -1int,
            _ => 0int,
        }
    }
}

/// On a cell that is not held exclusively and whose counter has room for
/// two more, two shared holds can be taken one after the other, and both are
/// then out together.
pub proof fn lemma_two_shared_holds<T>(cell: CellView<T>)
    requires
        0 <= cell.count,
        cell.count + 2 <= isize::MAX,
    ensures
        cell.can_borrow(),
        cell.borrowed().can_borrow(),
        cell.borrowed().borrowed().tracks(cell.count + 2, 0),
{
}

/// While any hold is out, shared or exclusive, the exclusive hold cannot be
/// taken.
pub proof fn lemma_exclusive_needs_free_cell<T>(cell: CellView<T>, mutably: bool)
    requires
        cell.counts(mutably),
    ensures
        !cell.can_borrow_mut(),
{
}

/// While the exclusive hold is out, no shared hold can be taken.
pub proof fn lemma_shared_needs_no_writer<T>(cell: CellView<T>)
    requires
        cell.counts(true),
    ensures
        !cell.can_borrow(),
{
}

/// Handing a hold back undoes exactly the taking of it: the cell is again
/// what it was before the hold was taken.
pub proof fn lemma_release_undoes_borrow<T>(cell: CellView<T>)
    ensures
        cell.can_borrow() ==> cell.borrowed().counts(false) && cell.borrowed().released(false)
            == cell,
        cell.can_borrow_mut() ==> cell.borrowed_mut().counts(true) && cell.borrowed_mut().released(
            true,
        ) == cell,
{
}

/// When the only hold on a cell is handed back, the exclusive hold can be
/// taken at once. This is the state of a cell after a failed
/// [`RefCell::try_project`] on its only guard, and after the release of its
/// only guard.
pub proof fn lemma_last_release_frees<T>(cell: CellView<T>, mutably: bool)
    requires
        cell.counts(mutably),
        !mutably ==> cell.count == 1,
    ensures
        cell.released(mutably).is_free(),
        cell.released(mutably).can_borrow_mut(),
{
}

/// Through any steps that a cell lets happen, its counter stands for the
/// holds that are out: if it stood for them before, it does after.
pub proof fn lemma_steps_keep_track<T>(
    cell: CellView<T>,
    shared: int,
    exclusive: int,
    steps: Seq<Step>,
)
    requires
        cell.tracks(shared, exclusive),
        cell.accepts_all(steps),
    ensures
        cell.after_all(steps).tracks(shared + shared_out(steps), exclusive + exclusive_out(steps)),
        cell.after_all(steps).value == cell.value,
        cell.after_all(steps).id == cell.id,
    decreases steps.len(),
{
    if steps.len() > 0 {
        let next = cell.after(steps[0]);
        let shared_next = shared + shared_out(steps) - shared_out(steps.drop_first());
        let exclusive_next = exclusive + exclusive_out(steps) - exclusive_out(steps.drop_first());
        assert(next.tracks(shared_next, exclusive_next));
        lemma_steps_keep_track(next, shared_next, exclusive_next, steps.drop_first());
    }
}

/// Whatever is done with a free cell, it is held either by some number of
/// shared holds or by one exclusive hold, never by both, and its counter
/// says which. The steps never touch the value.
pub proof fn lemma_shared_or_exclusive<T>(cell: CellView<T>, steps: Seq<Step>)
    requires
        cell.is_free(),
        cell.accepts_all(steps),
    ensures
        cell.after_all(steps).tracks(shared_out(steps), exclusive_out(steps)),
        cell.after_all(steps).wf(),
        cell.after_all(steps).value == cell.value,
        cell.after_all(steps).id == cell.id,
{
    lemma_steps_keep_track(cell, 0, 0, steps);
    lemma_steps_stay_in_range(cell, steps);
}

/// Steps that a cell lets happen keep its counter in range.
pub proof fn lemma_steps_stay_in_range<T>(cell: CellView<T>, steps: Seq<Step>)
    requires
        cell.wf(),
        cell.accepts_all(steps),
    ensures
        cell.after_all(steps).wf(),
    decreases steps.len(),
{
    if steps.len() > 0 {
        lemma_steps_stay_in_range(cell.after(steps[0]), steps.drop_first());
    }
}

/// Once every hold that was taken on a free cell has been handed back, the
/// cell is free again and the exclusive hold can be taken.
pub proof fn lemma_free_after_all_released<T>(cell: CellView<T>, steps: Seq<Step>)
    requires
        cell.is_free(),
        cell.accepts_all(steps),
        shared_out(steps) == 0,
        exclusive_out(steps) == 0,
    ensures
        cell.after_all(steps) == cell,
        cell.after_all(steps).can_borrow_mut(),
{
    lemma_steps_keep_track(cell, 0, 0, steps);
}

} // verus!
