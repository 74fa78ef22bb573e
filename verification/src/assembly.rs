//! A value-level reading of what the derived items do: a builder with one
//! slot per field, its setters and its assembly operation, and a record with
//! one accessor per field, for a structure given by its descriptor.

use crate::builder::{not_found_variant, variant_name};
use crate::model::{FieldDescriptor, MacroError, Shape, StructDescriptor};
use crate::text::same_text;
use vstd::prelude::*;
use vstd::string::*;

verus! {

/// The names of a list of fields, in declaration order.
pub open spec fn field_names(fields: Seq<FieldDescriptor>) -> Seq<Seq<char>> {
    fields.map_values(|f: FieldDescriptor| f.name@)
}

/// The views of a list of names, in order.
pub open spec fn name_views(names: Seq<String>) -> Seq<Seq<char>> {
    names.map_values(|name: String| name@)
}

/// True where `index` is the first position at which `name` stands in
/// `names`.
pub open spec fn is_position(names: Seq<Seq<char>>, name: Seq<char>, index: int) -> bool {
    &&& 0 <= index < names.len()
    &&& names[index] == name
    &&& forall|j: int| 0 <= j < index ==> names[j] != name
}

/// True where `name` stands in `names`.
pub open spec fn is_known(names: Seq<Seq<char>>, name: Seq<char>) -> bool {
    exists|i: int| 0 <= i < names.len() && names[i] == name
}

/// The first position at which `name` stands in `names`, where it is known.
pub open spec fn position_of(names: Seq<Seq<char>>, name: Seq<char>) -> int {
    choose|i: int| is_position(names, name, i)
}

/// A name has at most one first position, and `position_of` is it.
pub proof fn lemma_position_of(names: Seq<Seq<char>>, name: Seq<char>, index: int)
    requires
        is_position(names, name, index),
    ensures
        position_of(names, name) == index,
        is_known(names, name),
{
    let chosen = position_of(names, name);
    assert(is_position(names, name, chosen));
    if chosen < index {
        assert(names[chosen] != name);
    } else if index < chosen {
        assert(names[index] != name);
    }
}

/// True where every slot holds a value.
pub open spec fn is_complete<V>(slots: Seq<Option<V>>) -> bool {
    forall|i: int| 0 <= i < slots.len() ==> (#[trigger] slots[i]) is Some
}

/// True where `index` is the first empty slot.
pub open spec fn is_first_empty<V>(slots: Seq<Option<V>>, index: int) -> bool {
    &&& 0 <= index < slots.len()
    &&& slots[index] is None
    &&& forall|j: int| 0 <= j < index ==> (#[trigger] slots[j]) is Some
}

/// The slots after the setter of `name` has stored `value`: the slot of the
/// field `name` holds the value, every other slot is as before. Where no field
/// has that name, nothing changes.
pub open spec fn after_set<V>(
    names: Seq<Seq<char>>,
    slots: Seq<Option<V>>,
    name: Seq<char>,
    value: V,
) -> Seq<Option<V>> {
    if is_known(names, name) {
        slots.update(position_of(names, name), Some(value))
    } else {
        slots
    }
}

/// The slots of a fresh builder: `count` of them, all empty.
pub open spec fn empty_slots<V>(count: nat) -> Seq<Option<V>> {
    Seq::new(count, |i: int| None::<V>)
}

/// The slots of a fresh builder after the setters of the first `count` fields
/// have been called, in declaration order, each with the value at its
/// position.
pub open spec fn after_setters<V>(names: Seq<Seq<char>>, values: Seq<V>, count: nat) -> Seq<
    Option<V>,
>
    decreases count,
{
    if count == 0 {
        empty_slots(names.len())
    } else {
        after_set(
            names,
            after_setters(names, values, (count - 1) as nat),
            names[count - 1],
            values[count - 1],
        )
    }
}

/// True where no name stands twice.
pub open spec fn are_distinct(names: Seq<Seq<char>>) -> bool {
    forall|i: int, j: int| 0 <= i < j < names.len() ==> names[i] != names[j]
}

/// Setting the first `count` fields of a fresh builder fills exactly their
/// slots, each with the value given for it.
pub proof fn lemma_after_setters<V>(names: Seq<Seq<char>>, values: Seq<V>, count: nat)
    requires
        are_distinct(names),
        values.len() == names.len(),
        count <= names.len(),
    ensures
        after_setters(names, values, count).len() == names.len(),
        forall|i: int|
            0 <= i < count ==> #[trigger] after_setters(names, values, count)[i] == Some(values[i]),
        forall|i: int|
            count <= i < names.len() ==> (#[trigger] after_setters(names, values, count)[i])
                is None,
    decreases count,
{
    if count > 0 {
        let last = count - 1;
        lemma_after_setters(names, values, last as nat);
        assert(is_position(names, names[last], last));
        lemma_position_of(names, names[last], last);
    }
}

/// Setting every field of a fresh builder, whatever the structure, leaves
/// every slot filled with the value given for its field: the builder is
/// complete, so that the assembly operation succeeds with clones of exactly
/// these values, as a directly constructed record holds them.
pub proof fn lemma_all_set_is_complete<V>(names: Seq<Seq<char>>, values: Seq<V>)
    requires
        are_distinct(names),
        values.len() == names.len(),
    ensures
        is_complete(after_setters(names, values, names.len())),
        after_setters(names, values, names.len()) == values.map_values(|v: V| Some(v)),
{
    lemma_after_setters(names, values, names.len());
    assert(after_setters(names, values, names.len()) =~= values.map_values(|v: V| Some(v)));
}

/// A builder has at most one first empty slot: which error the assembly
/// operation gives is decided by the slots.
pub proof fn lemma_first_empty_is_unique<V>(slots: Seq<Option<V>>, i: int, j: int)
    requires
        is_first_empty(slots, i),
        is_first_empty(slots, j),
    ensures
        i == j,
{
    if i < j {
        assert(slots[i] is Some);
    } else if j < i {
        assert(slots[j] is Some);
    }
}

/// Where exactly one slot is empty, it is the first empty one: the assembly
/// operation gives the error variant of that field.
pub proof fn lemma_single_empty_is_first<V>(slots: Seq<Option<V>>, index: int)
    requires
        0 <= index < slots.len(),
        slots[index] is None,
        forall|j: int| 0 <= j < slots.len() && j != index ==> (#[trigger] slots[j]) is Some,
    ensures
        is_first_empty(slots, index),
        !is_complete(slots),
{
}

/// Where several slots are empty, the first empty one is the least of them in
/// declaration order.
pub proof fn lemma_first_empty_is_least<V>(slots: Seq<Option<V>>, first: int, other: int)
    requires
        is_first_empty(slots, first),
        0 <= other < slots.len(),
        slots[other] is None,
    ensures
        first <= other,
{
    if other < first {
        assert(slots[other] is Some);
    }
}

/// Finds the first position at which `name` stands in `names`.
pub fn position(names: &Vec<String>, name: &str) -> (r: Option<usize>)
    ensures
        match r {
            Some(index) => is_position(name_views(names@), name@, index as int)
                && is_known(name_views(names@), name@) && index == position_of(
                name_views(names@),
                name@,
            ),
            None => !is_known(name_views(names@), name@),
        },
{
    let mut index: usize = 0;
    while index < names.len()
        invariant
            index <= names.len(),
            forall|j: int| 0 <= j < index ==> name_views(names@)[j] != name@,
        decreases names.len() - index,
    {
        if same_text(names[index].as_str(), name) {
            proof {
                lemma_position_of(name_views(names@), name@, index as int);
            }
            return Some(index);
        }
        index += 1;
    }
    None
}

/// Why an assembly failed: the slot of one field was empty.
#[derive(Clone, Debug, PartialEq, Eq)]
pub struct BuilderError {
    /// The position of the field in declaration order.
    pub field: usize,
    /// The error variant that stands for the field.
    pub variant: String,
}

impl BuilderError {
    /// The error as it displays: the name of its variant.
    pub fn message(&self) -> (r: String)
        ensures
            r@ == self.variant@,
    {
        self.variant.clone()
    }
}

/// An instance of a described structure: one value per field, in declaration
/// order.
#[derive(Clone, Debug)]
pub struct Record<V> {
    names: Vec<String>,
    values: Vec<V>,
}

impl<V> Record<V> {
    /// The names of the fields, in declaration order.
    pub closed spec fn names(&self) -> Seq<Seq<char>> {
        name_views(self.names@)
    }

    /// The values of the fields, in declaration order.
    pub closed spec fn values(&self) -> Seq<V> {
        self.values@
    }

    /// Every field has its value.
    pub open spec fn wf(&self) -> bool {
        self.names().len() == self.values().len()
    }

    /// The accessor of the field `name`: a reference to the stored value. The
    /// record is not changed.
    pub fn get(&self, name: &str) -> (r: Option<&V>)
        requires
            self.wf(),
        ensures
            match r {
                Some(value) => is_known(self.names(), name@) && *value == self.values()[position_of(
                    self.names(),
                    name@,
                )],
                None => !is_known(self.names(), name@),
            },
    {
        match position(&self.names, name) {
            Some(index) => Some(&self.values[index]),
            None => None,
        }
    }
}

/// Copies a list of names.
fn copy_names(names: &Vec<String>) -> (r: Vec<String>)
    ensures
        r@ == names@,
{
    let mut out: Vec<String> = Vec::new();
    let mut index: usize = 0;
    while index < names.len()
        invariant
            index <= names.len(),
            out@ == names@.take(index as int),
        decreases names.len() - index,
    {
        out.push(names[index].clone());
        assert(out@ =~= names@.take(index + 1));
        index += 1;
    }
    assert(names@.take(names.len() as int) =~= names@);
    out
}

/// Collects the names of a list of fields, in declaration order.
fn names_of(fields: &Vec<FieldDescriptor>) -> (r: Vec<String>)
    ensures
        name_views(r@) == field_names(fields@),
{
    let mut out: Vec<String> = Vec::new();
    let mut index: usize = 0;
    while index < fields.len()
        invariant
            index <= fields.len(),
            out@.len() == index,
            forall|i: int| 0 <= i < index ==> (#[trigger] out@[i])@ == fields@[i].name@,
        decreases fields.len() - index,
    {
        out.push(fields[index].name.clone());
        index += 1;
    }
    assert(name_views(out@) =~= field_names(fields@));
    out
}

impl<V> Record<V> {
    /// Constructs an instance directly from the values of its fields, given in
    /// declaration order. There must be one value per field, and the fields
    /// must be named.
    pub fn new(descriptor: &StructDescriptor, values: Vec<V>) -> (r: Option<Record<V>>)
        ensures
            r is Some <==> descriptor.shape == Shape::NamedFields && values@.len()
                == descriptor.fields@.len(),
            r matches Some(record) ==> record.wf() && record.names() == field_names(
                descriptor.fields@,
            ) && record.values() == values@,
    {
        match descriptor.shape {
            Shape::NamedFields => {
                if values.len() == descriptor.fields.len() {
                    let names = names_of(&descriptor.fields);
                    assert(name_views(names@).len() == descriptor.fields@.len());
                    Some(Record { names, values })
                } else {
                    None
                }
            },
            _ => None,
        }
    }
}

/// The builder of a described structure: one slot per field, in declaration
/// order. A slot is empty until its setter is called. A copy of a builder has
/// slots of its own.
#[derive(Clone, Debug)]
pub struct Builder<V> {
    names: Vec<String>,
    slots: Vec<Option<V>>,
}

impl<V> Builder<V> {
    /// The names of the fields, in declaration order.
    pub closed spec fn names(&self) -> Seq<Seq<char>> {
        name_views(self.names@)
    }

    /// The slots, in declaration order.
    pub closed spec fn slots(&self) -> Seq<Option<V>> {
        self.slots@
    }

    /// Every field has its slot.
    pub open spec fn wf(&self) -> bool {
        self.names().len() == self.slots().len()
    }

    /// The factory: a builder for the structure with every slot empty. Only a
    /// structure with named fields has one.
    pub fn new(descriptor: &StructDescriptor) -> (r: Result<Builder<V>, MacroError>)
        ensures
            match r {
                Ok(builder) => {
                    &&& descriptor.shape == Shape::NamedFields
                    &&& builder.wf()
                    &&& builder.names() == field_names(descriptor.fields@)
                    &&& builder.slots().len() == descriptor.fields@.len()
                    &&& forall|i: int|
                        0 <= i < builder.slots().len() ==> (#[trigger] builder.slots()[i]) is None
                },
                Err(error) => descriptor.shape != Shape::NamedFields && error
                    == MacroError::UnsupportedShape,
            },
    {
        match descriptor.shape {
            Shape::NamedFields => {
                let names = names_of(&descriptor.fields);
                assert(name_views(names@).len() == descriptor.fields@.len());
                let mut slots: Vec<Option<V>> = Vec::new();
                let mut index: usize = 0;
                while index < names.len()
                    invariant
                        index <= names.len(),
                        slots@.len() == index,
                        forall|i: int| 0 <= i < index ==> (#[trigger] slots@[i]) is None,
                    decreases names.len() - index,
                {
                    slots.push(None);
                    index += 1;
                }
                Ok(Builder { names, slots })
            },
            _ => Err(MacroError::UnsupportedShape),
        }
    }

    /// The setter of the field `name`: stores the value in the field's slot,
    /// over whatever the slot held. Tells whether the structure has such a
    /// field; where it has none, nothing changes.
    pub fn set(&mut self, name: &str, value: V) -> (stored: bool)
        requires
            old(self).wf(),
        ensures
            final(self).wf(),
            final(self).names() == old(self).names(),
            stored == is_known(old(self).names(), name@),
            final(self).slots() == after_set(old(self).names(), old(self).slots(), name@, value),
    {
        match position(&self.names, name) {
            Some(index) => {
                self.slots.set(index, Some(value));
                true
            },
            None => false,
        }
    }

    /// The assembly operation. It examines the slots in declaration order and
    /// stops at the first empty one, with the error variant of that field;
    /// where every slot holds a value, it gives the record whose fields are
    /// clones of the slots' values. The builder is not changed.
    pub fn build(&self) -> (r: Result<Record<V>, BuilderError>) where V: Clone
        requires
            self.wf(),
        ensures
            match r {
                Ok(record) => {
                    &&& is_complete(self.slots())
                    &&& record.wf()
                    &&& record.names() == self.names()
                    &&& record.values().len() == self.slots().len()
                    &&& forall|i: int|
                        0 <= i < self.slots().len() ==> cloned(
                            self.slots()[i]->0,
                            #[trigger] record.values()[i],
                        )
                },
                Err(error) => {
                    &&& is_first_empty(self.slots(), error.field as int)
                    &&& error.variant@ == variant_name(self.names()[error.field as int])
                },
            },
    {
        let mut values: Vec<V> = Vec::new();
        let mut index: usize = 0;
        while index < self.slots.len()
            invariant
                self.wf(),
                index <= self.slots@.len(),
                values@.len() == index,
                forall|j: int| 0 <= j < index ==> (#[trigger] self.slots@[j]) is Some,
                forall|j: int|
                    0 <= j < index ==> cloned(self.slots@[j]->0, #[trigger] values@[j]),
            decreases self.slots@.len() - index,
        {
            match &self.slots[index] {
                Some(value) => {
                    values.push(value.clone());
                },
                None => {
                    return Err(
                        BuilderError {
                            field: index,
                            variant: not_found_variant(self.names[index].as_str()),
                        },
                    );
                },
            }
            index += 1;
        }
        Ok(Record { names: copy_names(&self.names), values })
    }
}

} // verus!
