//! The schema catalog: an immutable table binding each collection name to its
//! entity descriptor (key fields, property metadata, navigation metadata).
//! The catalog is built once at startup and only read afterwards; its
//! construction-time invariants (unique collection names, non-empty key
//! fields) are established statically by `build_catalog`.

use vstd::prelude::*;

verus! {

/// Semantic type tag of a property on the wire.
#[derive(Clone, Copy, Debug, PartialEq, Eq, Structural)]
pub enum PropertyType {
    Text,
    Integer,
    Decimal,
    DateTime,
    Boolean,
}

/// Client-facing display hint carried by a vendor annotation.
#[derive(Clone, Copy, Debug, PartialEq, Eq, Structural)]
pub enum DisplayFormat {
    UpperCase,
    NonNegative,
    Date,
}

/// Visibility/mutability class of a field, carried by a vendor annotation.
#[derive(Clone, Copy, Debug, PartialEq, Eq, Structural)]
pub enum FieldControl {
    ReadOnly,
    Optional,
    Mandatory,
}

/// Aggregation role of a field, carried by a vendor annotation.
#[derive(Clone, Copy, Debug, PartialEq, Eq, Structural)]
pub enum AggregationRole {
    Dimension,
    Measure,
    Unit,
}

/// Semantic meaning of a field, carried by a vendor annotation.
#[derive(Clone, Copy, Debug, PartialEq, Eq, Structural)]
pub enum Semantics {
    EmailAddress,
    PhoneNumber,
    CurrencyCode,
    UnitOfMeasure,
}

/// Vendor-specific hints attached to a property.  These affect client-facing
/// behaviour only; no gateway decision reads them.
#[derive(Clone, Copy, Debug, PartialEq, Eq, Structural)]
pub struct SemanticAnnotation {
    pub display_format: Option<DisplayFormat>,
    pub filterable: bool,
    pub field_control: Option<FieldControl>,
    pub aggregation_role: Option<AggregationRole>,
    pub meaning: Option<Semantics>,
}

/// One property of a collection's record schema.  `name` is the client-facing
/// field name; `wire_name` is the element tag used in the feed XML.
#[derive(Clone, Debug, PartialEq, Eq)]
pub struct PropertyDescriptor {
    pub name: String,
    pub wire_name: String,
    pub prop_type: PropertyType,
    pub nullable: bool,
    pub max_length: Option<u32>,
    pub precision: Option<u32>,
    pub scale: Option<u32>,
    pub annotation: Option<SemanticAnnotation>,
}

/// A relationship from one collection to another; informational only, never
/// traversed by the gateway.
#[derive(Clone, Debug, PartialEq, Eq)]
pub struct NavigationDescriptor {
    pub name: String,
    pub from_role: String,
    pub to_role: String,
    pub creatable: bool,
    pub filterable: bool,
}

/// The static schema binding of one collection, held in the catalog.
#[derive(Clone, Debug, PartialEq, Eq)]
pub struct EntityDescriptor {
    pub collection_name: String,
    pub key_fields: Vec<String>,
    pub properties: Vec<PropertyDescriptor>,
    pub navigations: Vec<NavigationDescriptor>,
}

/// Mathematical model of a property: the parts of the schema that gateway
/// logic and contracts depend on.
#[verifier::ext_equal]
pub struct PropertyModel {
    pub name: Seq<char>,
    pub wire_name: Seq<char>,
    pub prop_type: PropertyType,
    pub nullable: bool,
}

/// Mathematical model of a descriptor.
#[verifier::ext_equal]
pub struct DescriptorModel {
    pub name: Seq<char>,
    pub key_fields: Seq<Seq<char>>,
    pub properties: Seq<PropertyModel>,
}

impl PropertyDescriptor {
    pub open spec fn model(self) -> PropertyModel {
        (PropertyModel {
            name: self.name@,
            wire_name: self.wire_name@,
            prop_type: self.prop_type,
            nullable: self.nullable,
        })
    }
}

impl EntityDescriptor {
    pub open spec fn model(self) -> DescriptorModel {
        (DescriptorModel {
            name: self.collection_name@,
            key_fields: self.key_fields@.map_values(|f: String| f@),
            properties: self.properties@.map_values(|p: PropertyDescriptor| p.model()),
        })
    }
}

/// The catalog: a mapping from collection name to entity descriptor, built
/// once and never mutated afterwards.
pub struct Catalog {
    pub entries: Vec<EntityDescriptor>,
}

/// `n` is the name of some descriptor in `ms`.
pub open spec fn models_contain_name(ms: Seq<DescriptorModel>, n: Seq<char>) -> bool {
    exists|i: int| 0 <= i < ms.len() && #[trigger] ms[i].name == n
}

impl Catalog {
    pub open spec fn models(self) -> Seq<DescriptorModel> {
        self.entries@.map_values(|e: EntityDescriptor| e.model())
    }

    /// Catalog invariants: collection names are unique and every composite
    /// key is non-empty.
    pub open spec fn wf(self) -> bool {
        &&& forall|i: int, j: int|
            0 <= i < j < self.entries@.len() ==> (#[trigger] self.entries@[i]).collection_name@
                != (#[trigger] self.entries@[j]).collection_name@
        &&& forall|i: int|
            0 <= i < self.entries@.len() ==> (#[trigger] self.entries@[i]).key_fields@.len() > 0
    }

    /// How many collections the catalog holds.
    pub fn len(&self) -> (n: usize)
        ensures
            n == self.models().len(),
    {
        self.entries.len()
    }

    /// Look a collection name up.  Succeeds exactly on the names the catalog
    /// holds; a returned descriptor echoes the queried name, is the catalog's
    /// entry for it, and (by the catalog invariant) has a non-empty key.
    pub fn lookup<'a>(&'a self, name: &String) -> (r: Option<&'a EntityDescriptor>)
        requires
            self.wf(),
        ensures
            match r {
                Some(d) => {
                    &&& models_contain_name(self.models(), name@)
                    &&& exists|i: int|
                        0 <= i < self.models().len() && #[trigger] self.models()[i] == d.model()
                    &&& d.model().name == name@
                    &&& d.model().key_fields.len() > 0
                },
                None => !models_contain_name(self.models(), name@),
            },
    {
        let mut i: usize = 0;
        while i < self.entries.len()
            invariant
                self.wf(),
                i <= self.entries.len(),
                forall|j: int| 0 <= j < i ==> (#[trigger] self.models()[j]).name != name@,
            decreases self.entries.len() - i,
        {
            if self.entries[i].collection_name.eq(name) {
                let d = &self.entries[i];
                proof {
                    assert(self.models()[i as int] == d.model());
                    assert(self.models()[i as int].name == name@);
                    assert(self.entries@[i as int].key_fields@.len() > 0);
                    assert(d.model().key_fields.len() > 0);
                }
                return Some(d);
            }
            i = i + 1;
        }
        None
    }

    /// The construction-time invariant check: true exactly when every
    /// collection name is unique and every key is non-empty.  A caller
    /// outside the library can test a catalog with this before relying on
    /// it; a violated invariant is a startup-fatal configuration error.
    pub fn check_invariants(&self) -> (ok: bool)
        ensures
            ok == self.wf(),
    {
        let n = self.entries.len();
        let mut i: usize = 0;
        while i < n
            invariant
                n == self.entries@.len(),
                i <= n,
                forall|k: int| 0 <= k < i ==> (#[trigger] self.entries@[k]).key_fields@.len() > 0,
            decreases n - i,
        {
            if self.entries[i].key_fields.len() == 0 {
                return false;
            }
            i = i + 1;
        }
        let mut a: usize = 0;
        while a < n
            invariant
                n == self.entries@.len(),
                a <= n,
                forall|k: int| 0 <= k < n ==> (#[trigger] self.entries@[k]).key_fields@.len() > 0,
                forall|k1: int, k2: int|
                    0 <= k1 < k2 < n && k1 < a ==> (#[trigger] self.entries@[k1]).collection_name@
                        != (#[trigger] self.entries@[k2]).collection_name@,
            decreases n - a,
        {
            let mut b: usize = a + 1;
            while b < n
                invariant
                    n == self.entries@.len(),
                    a < b <= n,
                    a < n,
                    forall|k2: int|
                        a < k2 < b ==> (#[trigger] self.entries@[k2]).collection_name@
                            != self.entries@[a as int].collection_name@,
                decreases n - b,
            {
                if self.entries[a].collection_name.eq(&self.entries[b].collection_name) {
                    return false;
                }
                b = b + 1;
            }
            a = a + 1;
        }
        true
    }

    /// The collection names, in catalog order: the data behind the landing
    /// page's listing.
    pub fn collection_names(&self) -> (names: Vec<String>)
        ensures
            names@.len() == self.models().len(),
            forall|i: int|
                0 <= i < names@.len() ==> (#[trigger] names@[i])@ == self.models()[i].name,
    {
        let mut names: Vec<String> = Vec::new();
        let mut i: usize = 0;
        while i < self.entries.len()
            invariant
                i <= self.entries.len(),
                names@.len() == i,
                forall|j: int| 0 <= j < i ==> (#[trigger] names@[j])@ == self.models()[j].name,
            decreases self.entries.len() - i,
        {
            names.push(self.entries[i].collection_name.clone());
            i = i + 1;
        }
        names
    }
}

} // verus!
