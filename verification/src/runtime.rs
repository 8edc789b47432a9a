//! A builder at work: slots that are filled one by one, and the assembly
//! of a record from them.
//!
//! This is what the generated code does, written once for every record:
//! the builder is keyed by its descriptor, a field is named by its
//! position in declaration order, and values are of any one type `V`.

use vstd::prelude::*;
use vstd::string::*;
use crate::descriptor::{BuilderDescriptor, BuilderDescriptorView};

verus! {

/// The final value of one field of an assembled record.
#[derive(Debug, PartialEq, Eq)]
pub enum FieldValue<V> {
    /// The value of a required field, taken out of its slot.
    Bare(V),
    /// The value of an optional field, left as the slot held it.
    Wrapped(Option<V>),
}

/// Why a record could not be assembled.
#[derive(Debug, PartialEq, Eq)]
pub enum BuildError {
    /// A required field was never set; carries the field's name.
    RequiredFieldMissing(String),
}

/// Mathematical counterpart of [`BuildError`].
pub enum BuildErrorView {
    RequiredFieldMissing(Seq<char>),
}

impl View for BuildError {
    type V = BuildErrorView;

    open spec fn view(&self) -> BuildErrorView {
        match self {
            BuildError::RequiredFieldMissing(field) => BuildErrorView::RequiredFieldMissing(
                field@,
            ),
        }
    }
}

impl BuildErrorView {
    /// The error in words: the field's name, then ` not set`.
    pub open spec fn message(self) -> Seq<char> {
        match self {
            BuildErrorView::RequiredFieldMissing(field) => field + " not set"@,
        }
    }
}

impl BuildError {
    /// The name of the field that was missing.
    pub fn field(&self) -> (name: &String)
        ensures
            self@ == BuildErrorView::RequiredFieldMissing(name@),
    {
        match self {
            BuildError::RequiredFieldMissing(field) => field,
        }
    }

    /// The error in words: the field's name, then ` not set`.
    pub fn message(&self) -> (text: String)
        ensures
            text@ == self@.message(),
    {
        match self {
            BuildError::RequiredFieldMissing(field) => {
                let mut text = field.clone();
                text.append(" not set");
                text
            },
        }
    }
}

/// The state of a builder: its descriptor, and what each slot holds.
pub struct BuilderView<V> {
    pub descriptor: BuilderDescriptorView,
    pub slots: Seq<Option<V>>,
}

/// The state of a fresh builder: every slot absent.
pub open spec fn zero_state<V>(d: BuilderDescriptorView) -> BuilderView<V> {
    BuilderView { descriptor: d, slots: Seq::new(d.slots.len(), |i: int| None::<V>) }
}

impl<V> BuilderView<V> {
    /// There is one slot per described field.
    pub open spec fn wf(self) -> bool {
        self.slots.len() == self.descriptor.slots.len()
    }

    /// Whether the slot of `field` holds a value.
    pub open spec fn is_set(self, field: int) -> bool {
        0 <= field < self.slots.len() && self.slots[field] is Some
    }

    /// The state after the setter of `field` has been given `value`.
    pub open spec fn set(self, field: int, value: V) -> BuilderView<V> {
        BuilderView { descriptor: self.descriptor, slots: self.slots.update(field, Some(value)) }
    }

    /// The state after the setters named in `writes` have been called in
    /// order, each with its value.
    pub open spec fn set_all(self, writes: Seq<(int, V)>) -> BuilderView<V>
        decreases writes.len(),
    {
        if writes.len() == 0 {
            self
        } else {
            self.set_all(writes.drop_last()).set(writes.last().0, writes.last().1)
        }
    }

    /// Whether no required field is missing.
    pub open spec fn complete(self) -> bool {
        forall|field: int| 0 <= field < self.slots.len() ==> !self.missing(field)
    }

    /// Whether `field` is required and its slot is absent.
    pub open spec fn missing(self, field: int) -> bool {
        self.descriptor.slots[field].required && self.slots[field] is None
    }

    /// The first missing field at or after `from`, in declaration order.
    pub open spec fn first_missing_from(self, from: int) -> Option<int>
        decreases self.slots.len() - from,
    {
        if from < 0 || from >= self.slots.len() {
            None
        } else if self.missing(from) {
            Some(from)
        } else {
            self.first_missing_from(from + 1)
        }
    }

    /// The final value of `field`: a required field's value out of its
    /// slot, an optional field's slot as it is.
    pub open spec fn field_value(self, field: int) -> FieldValue<V> {
        if self.descriptor.slots[field].required {
            FieldValue::Bare(self.slots[field].unwrap())
        } else {
            FieldValue::Wrapped(self.slots[field])
        }
    }

    /// The outcome of assembly: the record's fields in declaration order,
    /// or the error that names the first missing field.
    pub open spec fn assemble(self) -> Result<Seq<FieldValue<V>>, BuildErrorView> {
        match self.first_missing_from(0) {
            Some(field) => Err(
                BuildErrorView::RequiredFieldMissing(self.descriptor.slots[field].name),
            ),
            None => Ok(Seq::new(self.slots.len(), |i: int| self.field_value(i))),
        }
    }

    /// What the search for a missing field finds: the least missing field
    /// from `from` on, or nothing where none is missing.
    pub proof fn lemma_first_missing(self, from: int)
        requires
            0 <= from,
        ensures
            match self.first_missing_from(from) {
                Some(field) => {
                    &&& from <= field < self.slots.len()
                    &&& self.missing(field)
                    &&& forall|j: int| from <= j < field ==> !self.missing(j)
                },
                None => forall|j: int| from <= j < self.slots.len() ==> !self.missing(j),
            },
        decreases self.slots.len() - from,
    {
        if from < self.slots.len() && !self.missing(from) {
            self.lemma_first_missing(from + 1);
        }
    }
}

/// Whether `copy` is what cloning `source` may give.
pub open spec fn field_cloned<V: Clone>(source: FieldValue<V>, copy: FieldValue<V>) -> bool {
    match (source, copy) {
        (FieldValue::Bare(a), FieldValue::Bare(b)) => cloned(a, b),
        (FieldValue::Wrapped(None), FieldValue::Wrapped(None)) => true,
        (FieldValue::Wrapped(Some(a)), FieldValue::Wrapped(Some(b))) => cloned(a, b),
        _ => false,
    }
}

/// A builder for the record that `descriptor` describes.
pub struct Builder<'a, V> {
    descriptor: &'a BuilderDescriptor,
    slots: Vec<Option<V>>,
}

impl<'a, V> View for Builder<'a, V> {
    type V = BuilderView<V>;

    closed spec fn view(&self) -> BuilderView<V> {
        BuilderView { descriptor: self.descriptor@, slots: self.slots@ }
    }
}

impl BuilderDescriptor {
    /// A fresh builder: one slot per field, every slot absent.
    pub fn builder<'a, V>(&'a self) -> (b: Builder<'a, V>)
        ensures
            b@ == zero_state::<V>(self@),
    {
        let mut slots: Vec<Option<V>> = Vec::new();
        let mut i: usize = 0;
        while i < self.slots.len()
            invariant
                i <= self.slots.len(),
                slots.len() == i,
                forall|j: int| 0 <= j < i ==> slots[j] is None,
            decreases self.slots.len() - i,
        {
            slots.push(None);
            i += 1;
        }
        let b = Builder { descriptor: self, slots };
        assert(b@.slots =~= zero_state::<V>(self@).slots);
        b
    }

    /// The position of the first field named `name`, if there is one.
    pub fn position(&self, name: &str) -> (r: Option<usize>)
        ensures
            match r {
                Some(i) => {
                    &&& i < self@.slots.len()
                    &&& self@.slots[i as int].name == name@
                    &&& forall|j: int| 0 <= j < i ==> self@.slots[j].name != name@
                },
                None => forall|j: int| 0 <= j < self@.slots.len() ==> self@.slots[j].name != name@,
            },
    {
        let wanted = String::from_str(name);
        let mut i: usize = 0;
        while i < self.slots.len()
            invariant
                i <= self.slots.len(),
                wanted@ == name@,
                forall|j: int| 0 <= j < i ==> self@.slots[j].name != name@,
            decreases self.slots.len() - i,
        {
            if self.slots[i].name == wanted {
                return Some(i);
            }
            i += 1;
        }
        None
    }
}

impl<'a, V> Builder<'a, V> {
    #[verifier::type_invariant]
    spec fn slots_match(self) -> bool {
        self.slots.len() == self.descriptor.slots.len()
    }

    /// The descriptor that the builder was made from.
    pub fn descriptor(&self) -> (d: &'a BuilderDescriptor)
        ensures
            d@ == self@.descriptor,
            self@.wf(),
    {
        proof {
            use_type_invariant(self);
        }
        self.descriptor
    }

    /// The number of slots.
    pub fn len(&self) -> (n: usize)
        ensures
            n == self@.slots.len(),
            self@.wf(),
    {
        proof {
            use_type_invariant(self);
        }
        self.slots.len()
    }

    /// Whether the slot of `field` holds a value. No slot, no value.
    pub fn is_set(&self, field: usize) -> (b: bool)
        ensures
            b == self@.is_set(field as int),
    {
        field < self.slots.len() && self.slots[field].is_some()
    }

    /// What the slot of `field` holds.
    pub fn get(&self, field: usize) -> (value: Option<&V>)
        ensures
            match value {
                Some(v) => self@.is_set(field as int) && self@.slots[field as int] == Some(*v),
                None => !self@.is_set(field as int),
            },
    {
        if field < self.slots.len() {
            self.slots[field].as_ref()
        } else {
            None
        }
    }

    /// The setter of `field`: stores `value` as present in that slot, leaves
    /// every other slot as it is, and hands the builder back.
    pub fn set(&mut self, field: usize, value: V) -> (same: &mut Self)
        requires
            field < old(self)@.slots.len(),
        ensures
            same@ == old(self)@.set(field as int, value),
            *final(self) == *final(same),
    {
        proof {
            use_type_invariant(&*self);
        }
        self.slots[field] = Some(value);
        self
    }
}

impl<'a, V: Clone> Builder<'a, V> {
    /// Assembles the record: for each field in declaration order, a copy
    /// of what its slot holds. The first required field whose slot is
    /// absent ends the assembly with the error that names it; the fields
    /// after it are not looked at. The builder is left as it was.
    pub fn build(&self) -> (r: Result<Vec<FieldValue<V>>, BuildError>)
        ensures
            match r {
                Ok(record) => {
                    &&& self@.assemble() matches Ok(exact)
                    &&& record@.len() == exact.len()
                    &&& forall|i: int|
                        0 <= i < exact.len() ==> field_cloned(exact[i], #[trigger] record@[i])
                },
                Err(e) => self@.assemble() == Err::<Seq<FieldValue<V>>, BuildErrorView>(e@),
            },
    {
        proof {
            use_type_invariant(self);
        }
        let mut record: Vec<FieldValue<V>> = Vec::new();
        let mut i: usize = 0;
        while i < self.slots.len()
            invariant
                i <= self.slots.len(),
                self.slots.len() == self.descriptor.slots.len(),
                record.len() == i,
                forall|j: int| 0 <= j < i ==> !self@.missing(j),
                forall|j: int|
                    0 <= j < i ==> field_cloned(self@.field_value(j), #[trigger] record@[j]),
            decreases self.slots.len() - i,
        {
            let slot = &self.descriptor.slots[i];
            assert(slot@ == self@.descriptor.slots[i as int]);
            if slot.required {
                match &self.slots[i] {
                    Some(value) => {
                        record.push(FieldValue::Bare(value.clone()));
                    },
                    None => {
                        proof {
                            self@.lemma_first_missing(0);
                            assert(self@.missing(i as int));
                        }
                        return Err(BuildError::RequiredFieldMissing(slot.name.clone()));
                    },
                }
            } else {
                record.push(FieldValue::Wrapped(self.slots[i].clone()));
            }
            i += 1;
        }
        proof {
            self@.lemma_first_missing(0);
        }
        Ok(record)
    }
}

} // verus!
