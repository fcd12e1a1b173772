//! Ownership-aware type descriptors: for each type of the subgraph, which
//! fields are answered here, which are key material owned elsewhere, and
//! which may be supplied as a hint for another subgraph's field.

use vstd::prelude::*;
use crate::names::{distinct, first_position, lemma_first_position};

verus! {

/// Who answers a field.
#[derive(Clone, Debug, PartialEq, Eq)]
pub enum Ownership {
    /// Answered by this subgraph from its own data.
    Owned,
    /// Owned by another subgraph; held here as key material and returned
    /// verbatim, never joined against local data.
    External,
    /// Owned by the subgraph of `source_type`; this subgraph may supply a
    /// value for it when it has one at hand.
    Provided { source_type: String },
}

/// One field of a type, with its ownership.
#[derive(Clone, Debug, PartialEq, Eq)]
pub struct FieldDeclaration {
    pub name: String,
    pub ownership: Ownership,
}

/// Where the canonical definition of a type lives.
#[derive(Clone, Debug, PartialEq, Eq)]
pub enum Origin {
    /// Defined by this subgraph.
    Owned,
    /// Defined by another subgraph and extended here; `key` names the field
    /// by which the gateway matches its entities.
    Extended { key: String },
}

/// The declarations of one type.
#[derive(Clone, Debug, PartialEq, Eq)]
pub struct TypeDescriptor {
    pub name: String,
    pub origin: Origin,
    pub fields: Vec<FieldDeclaration>,
}

/// Why a set of declarations is refused.
#[derive(Clone, Copy, Debug, PartialEq, Eq)]
pub enum ConfigurationError {
    /// A type declares one field name more than once.
    RepeatedField,
    /// An extended type does not declare its key as an external field.
    MissingKey,
    /// A type that this subgraph owns outright declares an external field.
    MisplacedExternal,
    /// Two types have one name.
    RepeatedType,
    /// A provided field names a source type that is not declared.
    UnknownSourceType,
}

/// An ownership as a plain value.
pub enum OwnershipView {
    Owned,
    External,
    Provided { source_type: Seq<char> },
}

/// A field declaration as plain values.
pub struct FieldView {
    pub name: Seq<char>,
    pub ownership: OwnershipView,
}

/// The declarations of one type as plain values; `key` is the key field of an
/// extended type, and `None` for a type that this subgraph owns.
pub struct DescriptorView {
    pub name: Seq<char>,
    pub key: Option<Seq<char>>,
    pub fields: Seq<FieldView>,
}

impl View for Ownership {
    type V = OwnershipView;

    open spec fn view(&self) -> OwnershipView {
        match *self {
            Ownership::Owned => OwnershipView::Owned,
            Ownership::External => OwnershipView::External,
            Ownership::Provided { source_type } => OwnershipView::Provided {
                source_type: source_type@,
            },
        }
    }
}

impl View for FieldDeclaration {
    type V = FieldView;

    open spec fn view(&self) -> FieldView {
        FieldView { name: self.name@, ownership: self.ownership@ }
    }
}

impl View for Origin {
    type V = Option<Seq<char>>;

    open spec fn view(&self) -> Option<Seq<char>> {
        match *self {
            Origin::Owned => None,
            Origin::Extended { key } => Some(key@),
        }
    }
}

impl View for TypeDescriptor {
    type V = DescriptorView;

    open spec fn view(&self) -> DescriptorView {
        DescriptorView {
            name: self.name@,
            key: self.origin@,
            fields: self.fields@.map_values(|field: FieldDeclaration| field@),
        }
    }
}

impl DescriptorView {
    /// The names of the declared fields, in declaration order.
    pub open spec fn field_names(self) -> Seq<Seq<char>> {
        self.fields.map_values(|field: FieldView| field.name)
    }

    /// The ownership declared for `field`: that of its first declaration.
    pub open spec fn ownership_of(self, field: Seq<char>) -> Option<OwnershipView> {
        match first_position(self.field_names(), field) {
            Some(i) => Some(self.fields[i].ownership),
            None => None,
        }
    }

    /// The fields that this subgraph answers from its own data.
    pub open spec fn owned_fields(self) -> Set<Seq<char>> {
        Set::new(|field: Seq<char>| self.ownership_of(field) == Some(OwnershipView::Owned))
    }

    /// The fields held as key material for another subgraph.
    pub open spec fn external_fields(self) -> Set<Seq<char>> {
        Set::new(|field: Seq<char>| self.ownership_of(field) == Some(OwnershipView::External))
    }

    /// The hints: each provided field, with the type that owns it.
    pub open spec fn provided_hints(self) -> Map<Seq<char>, Seq<char>> {
        Map::new(
            |field: Seq<char>| self.ownership_of(field) matches Some(OwnershipView::Provided { .. }),
            |field: Seq<char>| self.ownership_of(field).unwrap()->source_type,
        )
    }

    /// A requested field can be answered here when it is owned, or external
    /// and so answered by the stored key. A provided field cannot: no value
    /// is held for it.
    pub open spec fn answerable_locally(self, field: Seq<char>) -> bool {
        self.owned_fields().contains(field) || self.external_fields().contains(field)
    }

    /// Some field is declared external.
    pub open spec fn declares_external(self) -> bool {
        exists|i: int| 0 <= i < self.fields.len() && #[trigger] self.fields[i].ownership
            == OwnershipView::External
    }

    /// What is wrong with the declarations, if anything. A repeated field
    /// name is reported before a fault of the key.
    pub open spec fn fault(self) -> Option<ConfigurationError> {
        if !distinct(self.field_names()) {
            Some(ConfigurationError::RepeatedField)
        } else {
            match self.key {
                Some(key) => if self.external_fields().contains(key) {
                    None
                } else {
                    Some(ConfigurationError::MissingKey)
                },
                None => if self.declares_external() {
                    Some(ConfigurationError::MisplacedExternal)
                } else {
                    None
                },
            }
        }
    }

    /// No field is declared twice; an extended type declares its key
    /// external; a type owned here declares no external field.
    pub open spec fn well_formed(self) -> bool {
        self.fault() is None
    }
}

/// No field is both owned and external, and no hint is given for a field that
/// is answered here.
pub proof fn lemma_ownership_is_exclusive(descriptor: DescriptorView, field: Seq<char>)
    ensures
        !(descriptor.owned_fields().contains(field) && descriptor.external_fields().contains(
            field,
        )),
        descriptor.provided_hints().dom().contains(field) ==> !descriptor.answerable_locally(
            field,
        ),
{
}

/// In well-formed declarations, a field's ownership is that of any of its
/// declarations: there is only one.
pub proof fn lemma_single_declaration(descriptor: DescriptorView, i: int)
    requires
        descriptor.well_formed(),
        0 <= i < descriptor.fields.len(),
    ensures
        descriptor.ownership_of(descriptor.fields[i].name) == Some(descriptor.fields[i].ownership),
{
    let names = descriptor.field_names();
    lemma_first_position(names, descriptor.fields[i].name);
    let first = first_position(names, names[i]).unwrap();
    if first < i {
        assert(names[first] != names[i]);
    }
}

impl TypeDescriptor {
    /// The first declaration of `field`, if the type declares it.
    pub fn declaration(&self, field: &str) -> (found: Option<&FieldDeclaration>)
        ensures
            match found {
                Some(declaration) => declaration.name@ == field@ && self@.ownership_of(field@)
                    == Some(declaration.ownership@) && self.fields@.contains(*declaration),
                None => self@.ownership_of(field@) is None,
            },
    {
        let wanted = field.to_owned();
        let mut i: usize = 0;
        while i < self.fields.len()
            invariant
                i <= self.fields.len(),
                wanted@ == field@,
                forall|j: int| 0 <= j < i ==> self@.field_names()[j] != field@,
            decreases self.fields.len() - i,
        {
            if self.fields[i].name == wanted {
                proof {
                    assert(self@.fields[i as int] == self.fields[i as int]@);
                    assert(self@.field_names()[i as int] == field@);
                    lemma_first_position(self@.field_names(), field@);
                }
                return Some(&self.fields[i]);
            }
            i += 1;
        }
        proof {
            lemma_first_position(self@.field_names(), field@);
        }
        None
    }

    /// Whether a requested field can be answered by this subgraph.
    pub fn answers_locally(&self, field: &str) -> (yes: bool)
        ensures
            yes == self@.answerable_locally(field@),
    {
        match self.declaration(field) {
            Some(declaration) => match declaration.ownership {
                Ownership::Owned => true,
                Ownership::External => true,
                Ownership::Provided { .. } => false,
            },
            None => false,
        }
    }

    /// Whether some field name is declared more than once.
    fn repeats_a_field(&self) -> (yes: bool)
        ensures
            yes == !distinct(self@.field_names()),
    {
        let ghost names = self@.field_names();
        let mut i: usize = 0;
        while i < self.fields.len()
            invariant
                i <= self.fields.len(),
                names == self@.field_names(),
                forall|a: int, b: int| 0 <= a < i && a < b < names.len() ==> names[a] != names[b],
            decreases self.fields.len() - i,
        {
            let mut j: usize = i + 1;
            while j < self.fields.len()
                invariant
                    i < j <= self.fields.len(),
                    names == self@.field_names(),
                    forall|b: int| i < b < j ==> names[i as int] != names[b],
                decreases self.fields.len() - j,
            {
                if self.fields[i].name == self.fields[j].name {
                    assert(names[i as int] == names[j as int]);
                    return true;
                }
                j += 1;
            }
            i += 1;
        }
        false
    }

    /// Whether some field is declared external.
    fn has_external_field(&self) -> (yes: bool)
        ensures
            yes == self@.declares_external(),
    {
        let mut i: usize = 0;
        while i < self.fields.len()
            invariant
                i <= self.fields.len(),
                forall|j: int| 0 <= j < i ==> self@.fields[j].ownership != OwnershipView::External,
            decreases self.fields.len() - i,
        {
            let external = match self.fields[i].ownership {
                Ownership::External => true,
                _ => false,
            };
            if external {
                assert(self@.fields[i as int].ownership == OwnershipView::External);
                return true;
            }
            i += 1;
        }
        false
    }

    /// Checks the declarations of the type, and says what is wrong with them.
    pub fn validate(&self) -> (checked: Result<(), ConfigurationError>)
        ensures
            checked is Ok <==> self@.well_formed(),
            checked matches Err(fault) ==> self@.fault() == Some(fault),
    {
        if self.repeats_a_field() {
            return Err(ConfigurationError::RepeatedField);
        }
        match &self.origin {
            Origin::Extended { key } => {
                let declared_external = match self.declaration(key.as_str()) {
                    Some(declaration) => match declaration.ownership {
                        Ownership::External => true,
                        _ => false,
                    },
                    None => false,
                };
                if declared_external {
                    Ok(())
                } else {
                    Err(ConfigurationError::MissingKey)
                }
            },
            Origin::Owned => {
                if self.has_external_field() {
                    Err(ConfigurationError::MisplacedExternal)
                } else {
                    Ok(())
                }
            },
        }
    }
}

} // verus!
