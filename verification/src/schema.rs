//! The descriptor table of a subgraph: the declarations of all its types,
//! checked once, when the table is built.

use vstd::prelude::*;
use crate::descriptor::{
    ConfigurationError, DescriptorView, Origin, Ownership, OwnershipView, TypeDescriptor,
};
use crate::names::{distinct, first_position, lemma_first_position};

verus! {

/// The declarations of a table as plain values.
pub open spec fn table_view(types: Seq<TypeDescriptor>) -> Seq<DescriptorView> {
    types.map_values(|descriptor: TypeDescriptor| descriptor@)
}

/// The names of the types of a table, in table order.
pub open spec fn type_names(types: Seq<DescriptorView>) -> Seq<Seq<char>> {
    types.map_values(|descriptor: DescriptorView| descriptor.name)
}

/// The declarations of the type called `name`: those of the first type of
/// that name.
pub open spec fn descriptor_of(types: Seq<DescriptorView>, name: Seq<char>) -> Option<
    DescriptorView,
> {
    match first_position(type_names(types), name) {
        Some(i) => Some(types[i]),
        None => None,
    }
}

/// The fault of the first type of the table whose declarations have one.
pub open spec fn first_descriptor_fault(types: Seq<DescriptorView>) -> Option<ConfigurationError>
    decreases types.len(),
{
    if types.len() == 0 {
        None
    } else {
        match types[0].fault() {
            Some(fault) => Some(fault),
            None => first_descriptor_fault(types.drop_first()),
        }
    }
}

/// Field `f` of type `t` is provided, and its source type is not in the table.
pub open spec fn unknown_source_at(types: Seq<DescriptorView>, t: int, f: int) -> bool {
    &&& 0 <= t < types.len()
    &&& 0 <= f < types[t].fields.len()
    &&& types[t].fields[f].ownership matches OwnershipView::Provided { source_type }
    &&& descriptor_of(types, source_type) is None
}

/// Some provided field names a source type that the table does not declare.
pub open spec fn names_unknown_source(types: Seq<DescriptorView>) -> bool {
    exists|t: int, f: int| unknown_source_at(types, t, f)
}

/// What is wrong with a table, if anything: the fault of the first type that
/// has one; else a type name that occurs twice; else a hint whose source type
/// is not declared.
pub open spec fn table_fault(types: Seq<DescriptorView>) -> Option<ConfigurationError> {
    match first_descriptor_fault(types) {
        Some(fault) => Some(fault),
        None => if !distinct(type_names(types)) {
            Some(ConfigurationError::RepeatedType)
        } else if names_unknown_source(types) {
            Some(ConfigurationError::UnknownSourceType)
        } else {
            None
        },
    }
}

/// No type of the table has a fault exactly when every type is well formed.
pub proof fn lemma_first_descriptor_fault(types: Seq<DescriptorView>)
    ensures
        first_descriptor_fault(types) is None <==> forall|i: int|
            0 <= i < types.len() ==> (#[trigger] types[i]).well_formed(),
    decreases types.len(),
{
    if types.len() > 0 {
        let rest = types.drop_first();
        lemma_first_descriptor_fault(rest);
        if first_descriptor_fault(types) is None {
            assert forall|i: int| 0 <= i < types.len() implies (#[trigger] types[i]).well_formed() by {
                if i > 0 {
                    assert(rest[i - 1] == types[i]);
                }
            }
        } else if types[0].well_formed() {
            let i = choose|i: int| 0 <= i < rest.len() && !(#[trigger] rest[i]).well_formed();
            assert(types[i + 1] == rest[i]);
        }
    }
}

/// A table has no fault exactly when every type is well formed, no two types
/// have one name, and every hint names a type of the table.
pub proof fn lemma_sound_table(types: Seq<DescriptorView>)
    ensures
        table_fault(types) is None <==> {
            &&& forall|i: int| 0 <= i < types.len() ==> (#[trigger] types[i]).well_formed()
            &&& distinct(type_names(types))
            &&& !names_unknown_source(types)
        },
{
    lemma_first_descriptor_fault(types);
}

/// The position of the first type called `name`.
fn find_type(types: &Vec<TypeDescriptor>, name: &String) -> (found: Option<usize>)
    ensures
        match found {
            Some(i) => i < types.len() && first_position(
                type_names(table_view(types@)),
                name@,
            ) == Some(i as int),
            None => first_position(type_names(table_view(types@)), name@) is None,
        },
{
    let ghost names = type_names(table_view(types@));
    let mut i: usize = 0;
    while i < types.len()
        invariant
            i <= types.len(),
            names == type_names(table_view(types@)),
            forall|j: int| 0 <= j < i ==> names[j] != name@,
        decreases types.len() - i,
    {
        if types[i].name == *name {
            proof {
                assert(names[i as int] == types[i as int]@.name);
                lemma_first_position(names, name@);
            }
            return Some(i);
        }
        i += 1;
    }
    proof {
        lemma_first_position(names, name@);
    }
    None
}

/// The fault of the first type whose declarations have one.
fn find_descriptor_fault(types: &Vec<TypeDescriptor>) -> (found: Option<ConfigurationError>)
    ensures
        found == first_descriptor_fault(table_view(types@)),
{
    let ghost table = table_view(types@);
    let mut i: usize = 0;
    assert(table.skip(0) =~= table);
    while i < types.len()
        invariant
            i <= types.len(),
            table == table_view(types@),
            first_descriptor_fault(table) == first_descriptor_fault(table.skip(i as int)),
        decreases types.len() - i,
    {
        proof {
            assert(table.skip(i as int).drop_first() =~= table.skip(i as int + 1));
            assert(table.skip(i as int)[0] == types[i as int]@);
        }
        match types[i].validate() {
            Err(fault) => {
                return Some(fault);
            },
            Ok(_) => {},
        }
        i += 1;
    }
    None
}

/// Whether two types of the table have one name.
fn repeats_a_type(types: &Vec<TypeDescriptor>) -> (yes: bool)
    ensures
        yes == !distinct(type_names(table_view(types@))),
{
    let ghost names = type_names(table_view(types@));
    let mut i: usize = 0;
    while i < types.len()
        invariant
            i <= types.len(),
            names == type_names(table_view(types@)),
            forall|a: int, b: int| 0 <= a < i && a < b < names.len() ==> names[a] != names[b],
        decreases types.len() - i,
    {
        let mut j: usize = i + 1;
        while j < types.len()
            invariant
                i < j <= types.len(),
                names == type_names(table_view(types@)),
                forall|b: int| i < b < j ==> names[i as int] != names[b],
            decreases types.len() - j,
        {
            if types[i].name == types[j].name {
                assert(names[i as int] == names[j as int]);
                return true;
            }
            j += 1;
        }
        i += 1;
    }
    false
}

/// Whether some provided field names a source type that is not in the table.
fn has_unknown_source(types: &Vec<TypeDescriptor>) -> (yes: bool)
    ensures
        yes == names_unknown_source(table_view(types@)),
{
    let ghost table = table_view(types@);
    let mut t: usize = 0;
    while t < types.len()
        invariant
            t <= types.len(),
            table == table_view(types@),
            forall|a: int, b: int| 0 <= a < t ==> !unknown_source_at(table, a, b),
        decreases types.len() - t,
    {
        let fields = &types[t].fields;
        let mut f: usize = 0;
        while f < fields.len()
            invariant
                t < types.len(),
                f <= fields.len(),
                table == table_view(types@),
                *fields == types[t as int].fields,
                forall|b: int| 0 <= b < f ==> !unknown_source_at(table, t as int, b),
            decreases fields.len() - f,
        {
            assert(table[t as int].fields[f as int] == fields[f as int]@);
            match &fields[f].ownership {
                Ownership::Provided { source_type } => {
                    if find_type(types, source_type).is_none() {
                        assert(unknown_source_at(table, t as int, f as int));
                        return true;
                    }
                },
                _ => {},
            }
            f += 1;
        }
        t += 1;
    }
    false
}

/// A table of type descriptors that was checked when it was built.
pub struct Schema {
    types: Vec<TypeDescriptor>,
}

impl View for Schema {
    type V = Seq<DescriptorView>;

    closed spec fn view(&self) -> Seq<DescriptorView> {
        table_view(self.types@)
    }
}

impl Schema {
    #[verifier::type_invariant]
    spec fn checked(self) -> bool {
        table_fault(table_view(self.types@)) is None
    }

    /// Checks a table and keeps it. A table with a fault is refused, with the
    /// fault that `table_fault` names.
    pub fn build(types: Vec<TypeDescriptor>) -> (built: Result<Schema, ConfigurationError>)
        ensures
            match built {
                Ok(schema) => schema@ == table_view(types@) && table_fault(schema@) is None,
                Err(fault) => table_fault(table_view(types@)) == Some(fault),
            },
    {
        match find_descriptor_fault(&types) {
            Some(fault) => {
                return Err(fault);
            },
            None => {},
        }
        if repeats_a_type(&types) {
            return Err(ConfigurationError::RepeatedType);
        }
        if has_unknown_source(&types) {
            return Err(ConfigurationError::UnknownSourceType);
        }
        Ok(Schema { types })
    }

    /// The descriptors, in table order. The table has no fault.
    pub fn types(&self) -> (types: &Vec<TypeDescriptor>)
        ensures
            table_view(types@) == self@,
            table_fault(self@) is None,
    {
        proof {
            use_type_invariant(self);
        }
        &self.types
    }

    /// The descriptor of the type called `name`, if the table declares it.
    pub fn descriptor(&self, name: &str) -> (found: Option<&TypeDescriptor>)
        ensures
            match found {
                Some(descriptor) => descriptor_of(self@, name@) == Some(descriptor@),
                None => descriptor_of(self@, name@) is None,
            },
    {
        let wanted = name.to_owned();
        match find_type(&self.types, &wanted) {
            Some(i) => {
                assert(self@[i as int] == self.types[i as int]@);
                Some(&self.types[i])
            },
            None => None,
        }
    }

    /// Whether this subgraph can answer `field` of the type called `name`:
    /// the type is declared, and the field is owned or external on it.
    pub fn answers_locally(&self, name: &str, field: &str) -> (yes: bool)
        ensures
            yes == match descriptor_of(self@, name@) {
                Some(descriptor) => descriptor.answerable_locally(field@),
                None => false,
            },
    {
        match self.descriptor(name) {
            Some(descriptor) => descriptor.answers_locally(field),
            None => false,
        }
    }

    /// The key field of the type called `name`, if the table declares the
    /// type, and as one that extends a type of another subgraph.
    pub fn key_of(&self, name: &str) -> (key: Option<&String>)
        ensures
            match key {
                Some(key) => descriptor_of(self@, name@) matches Some(descriptor)
                    && descriptor.key == Some(key@),
                None => !(descriptor_of(self@, name@) matches Some(descriptor)
                    && descriptor.key is Some),
            },
    {
        match self.descriptor(name) {
            Some(descriptor) => match &descriptor.origin {
                Origin::Extended { key } => Some(key),
                Origin::Owned => None,
            },
            None => None,
        }
    }
}

} // verus!
