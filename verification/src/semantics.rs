//! Behavior of the synthesized operations.
//!
//! The synthesizers emit declarations; this module states what those
//! declarations do once spliced and run. A builder instance is one optional
//! slot per origin field, in declaration order. The factory yields every
//! slot empty; a mutator unconditionally overwrites its slot and hands the
//! builder back for chaining; the finalizer checks the slots in order,
//! reports the first empty one, and otherwise constructs the instance from
//! duplicates of the slot contents, leaving the builder intact.
//!
//! Slot values are copyable, matching the duplication that the finalizer
//! performs; field types are otherwise opaque to the generator.

use vstd::prelude::*;
use vstd::pervasive::VecAdditionalExecFns;
use vstd::string::StringExecFns;
use crate::decl::views_of;
use crate::synth::missing_message_of;

verus! {

/// The runtime state of a builder instance: one optional slot per origin
/// field, in declaration order. The factory is its sole constructor, as it
/// is for the synthesized builder type.
pub struct BuilderState<V> {
    slots: Vec<Option<V>>,
}

impl<V> View for BuilderState<V> {
    type V = Seq<Option<V>>;

    closed spec fn view(&self) -> Seq<Option<V>> {
        self.slots@
    }
}

/// Index of the first empty slot, if any: the one whose check the finalizer
/// reaches first.
pub open spec fn first_unset<V>(slots: Seq<Option<V>>) -> Option<int>
    decreases slots.len(),
{
    if slots.len() == 0 {
        None
    } else if slots[0] is None {
        Some(0)
    } else {
        match first_unset(slots.drop_first()) {
            Some(j) => Some(j + 1),
            None => None,
        }
    }
}

/// What the finalizer returns, as a function of the slots and the field
/// names: the missing-field message of the first empty slot, or the held
/// values in declaration order.
pub open spec fn spec_build<V>(slots: Seq<Option<V>>, names: Seq<Seq<char>>) -> Result<
    Seq<V>,
    Seq<char>,
> {
    match first_unset(slots) {
        Some(j) => Err(missing_message_of(names[j])),
        None => Ok(Seq::new(slots.len(), |i: int| slots[i]->0)),
    }
}

/// The finalizer's exec outcome, lifted to the spec level.
pub open spec fn outcome_of<V>(r: Result<Vec<V>, String>) -> Result<Seq<V>, Seq<char>> {
    match r {
        Ok(values) => Ok(values@),
        Err(message) => Err(message@),
    }
}

/// The first empty slot determines `first_unset`.
pub proof fn lemma_first_unset_at<V>(slots: Seq<Option<V>>, i: int)
    requires
        0 <= i < slots.len(),
        slots[i] is None,
        forall|k: int| 0 <= k < i ==> slots[k] is Some,
    ensures
        first_unset(slots) == Some(i),
    decreases i,
{
    if i > 0 {
        lemma_first_unset_at(slots.drop_first(), i - 1);
    }
}

/// Every slot filled means no first empty slot.
pub proof fn lemma_first_unset_none<V>(slots: Seq<Option<V>>)
    requires
        forall|k: int| 0 <= k < slots.len() ==> slots[k] is Some,
    ensures
        first_unset(slots) is None,
    decreases slots.len(),
{
    if slots.len() > 0 {
        lemma_first_unset_none(slots.drop_first());
    }
}

impl<V: Copy> BuilderState<V> {
    /// The factory's behavior: a fresh builder with `count` slots, every one
    /// of them empty. This is the sole way the generated code constructs a
    /// builder.
    pub fn fresh(count: usize) -> (b: Self)
        ensures
            b@ == Seq::new(count as nat, |i: int| None::<V>),
    {
        let mut slots: Vec<Option<V>> = Vec::new();
        for i in 0..count
            invariant
                slots@ == Seq::new(i as nat, |j: int| None::<V>),
        {
            slots.push(None);
            proof {
                assert(slots@ =~= Seq::new((i + 1) as nat, |j: int| None::<V>));
            }
        }
        BuilderState { slots }
    }

    /// A mutator's behavior: unconditionally store `value` in the slot at
    /// `index`, overwriting whatever was there, and hand the builder back so
    /// that calls can be chained. Setting never fails and validates nothing.
    pub fn assign(&mut self, index: usize, value: V) -> (ret: &mut Self)
        requires
            index < old(self)@.len(),
        ensures
            (*ret)@ == old(self)@.update(index as int, Some(value)),
            *final(self) == *final(ret),
    {
        self.slots.set(index, Some(value));
        self
    }

    /// The finalizer's behavior: walk the slots in declaration order; report
    /// the first empty one by its field name and stop there; otherwise hand
    /// out duplicates of every held value, in order, leaving the builder as
    /// it was — a successful build may be repeated.
    pub fn build(&mut self, names: &Vec<String>) -> (r: Result<Vec<V>, String>)
        requires
            old(self)@.len() == names@.len(),
        ensures
            *final(self) == *old(self),
            outcome_of(r) == spec_build(old(self)@, views_of(names@)),
    {
        let count = self.slots.len();
        for i in 0..count
            invariant
                count == self@.len(),
                self@.len() == names@.len(),
                *self == *old(self),
                forall|k: int| 0 <= k < i ==> self@[k] is Some,
        {
            if self.slots[i].is_none() {
                let message = names[i].clone().concat(" is required.");
                proof {
                    lemma_first_unset_at(self@, i as int);
                    assert(views_of(names@)[i as int] == names@[i as int]@);
                }
                return Err(message);
            }
        }
        proof {
            lemma_first_unset_none(self@);
        }
        let mut values: Vec<V> = Vec::new();
        for i in 0..count
            invariant
                count == self@.len(),
                *self == *old(self),
                forall|k: int| 0 <= k < count ==> self@[k] is Some,
                values@ == Seq::new(i as nat, |j: int| self@[j]->0),
        {
            values.push(self.slots[i].unwrap());
            proof {
                assert(values@ =~= Seq::new((i + 1) as nat, |j: int| self@[j]->0));
            }
        }
        proof {
            assert(values@ =~= Seq::new(self@.len(), |j: int| self@[j]->0));
        }
        Ok(values)
    }
}

/// Mutators are idempotent by last write: setting the same slot first to one
/// value and then to another leaves the slot holding only the later value,
/// and the builder exactly as if the earlier call had never happened.
pub proof fn lemma_assign_last_write_wins<V>(slots: Seq<Option<V>>, i: int, first: V, second: V)
    requires
        0 <= i < slots.len(),
    ensures
        slots.update(i, Some(first)).update(i, Some(second)) == slots.update(i, Some(second)),
        slots.update(i, Some(first)).update(i, Some(second))[i] == Some(second),
{
    assert(slots.update(i, Some(first)).update(i, Some(second)) =~= slots.update(
        i,
        Some(second),
    ));
}

/// The finalizer fails fast: when slot `j` is the first empty one, the build
/// outcome is exactly the missing-field error for field `j` — later empty
/// slots are never reported.
pub proof fn lemma_build_fail_fast<V>(slots: Seq<Option<V>>, names: Seq<Seq<char>>, j: int)
    requires
        slots.len() == names.len(),
        0 <= j < slots.len(),
        slots[j] is None,
        forall|k: int| 0 <= k < j ==> slots[k] is Some,
    ensures
        spec_build(slots, names) == Err::<Seq<V>, Seq<char>>(missing_message_of(names[j])),
{
    lemma_first_unset_at(slots, j);
}

/// A complete builder finalizes successfully, and the instance carries
/// exactly the held slot values, bound in declaration order: success is owed
/// precisely when every slot is filled.
pub proof fn lemma_build_complete<V>(slots: Seq<Option<V>>, names: Seq<Seq<char>>)
    requires
        slots.len() == names.len(),
        forall|k: int| 0 <= k < slots.len() ==> slots[k] is Some,
    ensures
        spec_build(slots, names) == Ok::<Seq<V>, Seq<char>>(
            Seq::new(slots.len(), |i: int| slots[i]->0),
        ),
{
    lemma_first_unset_none(slots);
}

/// The build outcome is a function of the slots alone, and a build leaves
/// the slots unchanged; so a second build on the untouched builder yields an
/// equal outcome.
pub proof fn lemma_rebuild_equal<V>(
    before: Seq<Option<V>>,
    after: Seq<Option<V>>,
    names: Seq<Seq<char>>,
)
    requires
        after == before,
    ensures
        spec_build(after, names) == spec_build(before, names),
{
}

/// A builder for a record with no fields finalizes at once: nothing can be
/// missing, and the unique zero-field instance comes back.
pub proof fn lemma_build_zero_fields<V>(slots: Seq<Option<V>>, names: Seq<Seq<char>>)
    requires
        slots.len() == 0,
        names.len() == 0,
    ensures
        spec_build(slots, names) == Ok::<Seq<V>, Seq<char>>(Seq::empty()),
{
    assert(Seq::new(slots.len(), |i: int| slots[i]->0) =~= Seq::<V>::empty());
}

} // verus!
