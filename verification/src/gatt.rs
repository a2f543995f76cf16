//! The characteristics that discovery found on a peripheral, and the lookup
//! of one of them by its UUID pair.

use crate::text::{same_uuid, uuid_matches};
use vstd::prelude::*;

verus! {

/// Service of the MJ_HT_V1 sensor that carries its measurements.
pub const MJ_HT_V1_SERVICE: &'static str = "226c0000-6476-4566-7562-66734470666d";

/// Characteristic of the MJ_HT_V1 sensor that notifies the temperature.
pub const MJ_HT_V1_TEMPERATURE: &'static str = "226caa55-6476-4566-7562-66734470666d";

/// Characteristic of the MJ_HT_V1 sensor that notifies the humidity.
pub const MJ_HT_V1_HUMIDITY: &'static str = "226cbb55-6476-4566-7562-66734470666d";

/// One operation that a characteristic may support.
#[derive(Clone, Copy, Debug, PartialEq, Eq, Structural)]
pub enum Property {
    Broadcast,
    Read,
    WriteWithoutResponse,
    Write,
    Notify,
    Indicate,
    AuthenticatedSignedWrites,
    ExtendedProperties,
}

impl Property {
    /// The bit that stands for this property in a GATT properties octet.
    pub open spec fn spec_mask(self) -> u8 {
        match self {
            Property::Broadcast => 0x01,
            Property::Read => 0x02,
            Property::WriteWithoutResponse => 0x04,
            Property::Write => 0x08,
            Property::Notify => 0x10,
            Property::Indicate => 0x20,
            Property::AuthenticatedSignedWrites => 0x40,
            Property::ExtendedProperties => 0x80,
        }
    }

    #[verifier::when_used_as_spec(spec_mask)]
    pub fn mask(self) -> (m: u8)
        ensures
            m == self.spec_mask(),
    {
        match self {
            Property::Broadcast => 0x01,
            Property::Read => 0x02,
            Property::WriteWithoutResponse => 0x04,
            Property::Write => 0x08,
            Property::Notify => 0x10,
            Property::Indicate => 0x20,
            Property::AuthenticatedSignedWrites => 0x40,
            Property::ExtendedProperties => 0x80,
        }
    }
}

/// The property flags of a characteristic, as the GATT properties octet.
#[derive(Clone, Copy, Debug, PartialEq, Eq, Structural)]
pub struct CharPropFlags {
    pub bits: u8,
}

impl CharPropFlags {
    /// Whether the flag of `property` is set.
    pub open spec fn spec_contains(self, property: Property) -> bool {
        self.bits & property.spec_mask() != 0
    }

    pub fn empty() -> (flags: Self)
        ensures
            flags.bits == 0,
    {
        CharPropFlags { bits: 0 }
    }

    pub fn from_bits(bits: u8) -> (flags: Self)
        ensures
            flags.bits == bits,
    {
        CharPropFlags { bits }
    }

    #[verifier::when_used_as_spec(spec_contains)]
    pub fn contains(self, property: Property) -> (r: bool)
        ensures
            r == self.spec_contains(property),
    {
        self.bits & property.mask() != 0
    }

    /// These flags with the flag of `property` set as well.
    pub fn with(self, property: Property) -> (flags: Self)
        ensures
            flags.bits == self.bits | property.spec_mask(),
            forall|other: Property|
                #[trigger] flags.spec_contains(other) == (other == property || self.spec_contains(
                    other,
                )),
    {
        let flags = CharPropFlags { bits: self.bits | property.mask() };
        assert forall|other: Property|
            #[trigger] flags.spec_contains(other) == (other == property || self.spec_contains(
                other,
            )) by {
            lemma_set_flag(self.bits, property, other);
        }
        flags
    }
}

/// Setting the flag of one property sets that flag and changes no other.
pub proof fn lemma_set_flag(bits: u8, set: Property, asked: Property)
    ensures
        (bits | set.spec_mask()) & asked.spec_mask() != 0 <==> (asked == set || bits
            & asked.spec_mask() != 0),
{
    let m = set.spec_mask();
    let n = asked.spec_mask();
    if asked == set {
        assert(m != 0 ==> (bits | m) & m != 0) by (bit_vector);
    } else {
        assert(m & n == 0) by (bit_vector)
            requires
                (m == 0x01 || m == 0x02 || m == 0x04 || m == 0x08 || m == 0x10 || m == 0x20 || m
                    == 0x40 || m == 0x80),
                (n == 0x01 || n == 0x02 || n == 0x04 || n == 0x08 || n == 0x10 || n == 0x20 || n
                    == 0x40 || n == 0x80),
                m != n,
        ;
        assert(m & n == 0 ==> (bits | m) & n == bits & n) by (bit_vector);
    }
}

/// A characteristic as discovery reported it: the service it belongs to, its
/// own UUID, and what it supports.
#[derive(Clone, Debug, PartialEq, Eq)]
pub struct CharacteristicDescriptor {
    pub service_uuid: String,
    pub uuid: String,
    pub properties: CharPropFlags,
}

impl CharacteristicDescriptor {
    pub fn new(service_uuid: String, uuid: String, properties: CharPropFlags) -> (d: Self)
        ensures
            d.service_uuid == service_uuid,
            d.uuid == uuid,
            d.properties == properties,
    {
        CharacteristicDescriptor { service_uuid, uuid, properties }
    }

    /// Whether this characteristic is the one named by the UUID pair.
    pub open spec fn spec_answers_to(self, service_uuid: Seq<char>, uuid: Seq<char>) -> bool {
        same_uuid(self.service_uuid@, service_uuid) && same_uuid(self.uuid@, uuid)
    }

    pub fn answers_to(&self, service_uuid: &str, uuid: &str) -> (r: bool)
        ensures
            r == self.spec_answers_to(service_uuid@, uuid@),
    {
        uuid_matches(self.service_uuid.as_str(), service_uuid) && uuid_matches(
            self.uuid.as_str(),
            uuid,
        )
    }

    /// A copy of this descriptor.
    pub fn duplicate(&self) -> (d: Self)
        ensures
            d == *self,
    {
        CharacteristicDescriptor {
            service_uuid: self.service_uuid.clone(),
            uuid: self.uuid.clone(),
            properties: self.properties,
        }
    }

    /// Checks that the characteristic supports `required`, before any radio
    /// request is made for it.
    pub fn require(&self, required: Property) -> (r: Result<(), UnsupportedOperationError>)
        ensures
            r is Ok <==> self.properties.spec_contains(required),
            r matches Err(e) ==> e.characteristic_uuid == self.uuid && e.required == required,
    {
        if self.properties.contains(required) {
            Ok(())
        } else {
            Err(UnsupportedOperationError { characteristic_uuid: self.uuid.clone(), required })
        }
    }
}

/// No characteristic of the tree answers to the requested UUID pair.
#[derive(Clone, Debug, PartialEq, Eq)]
pub struct NotFoundError {
    pub service_uuid: String,
    pub characteristic_uuid: String,
}

/// The characteristic lacks the property that the operation needs.
#[derive(Clone, Debug, PartialEq, Eq)]
pub struct UnsupportedOperationError {
    pub characteristic_uuid: String,
    pub required: Property,
}

/// Snapshot of what one discovery found: every characteristic of every
/// service, in the order in which discovery listed them.
#[derive(Clone, Debug, PartialEq, Eq)]
pub struct ServiceTree {
    pub characteristics: Vec<CharacteristicDescriptor>,
}

/// The first of `characteristics` that the UUID pair names, if any.
pub open spec fn first_named(
    characteristics: Seq<CharacteristicDescriptor>,
    service_uuid: Seq<char>,
    uuid: Seq<char>,
) -> Option<CharacteristicDescriptor>
    decreases characteristics.len(),
{
    if characteristics.len() == 0 {
        None
    } else if characteristics[0].spec_answers_to(service_uuid, uuid) {
        Some(characteristics[0])
    } else {
        first_named(characteristics.drop_first(), service_uuid, uuid)
    }
}

impl ServiceTree {
    pub fn new(characteristics: Vec<CharacteristicDescriptor>) -> (tree: Self)
        ensures
            tree.characteristics == characteristics,
    {
        ServiceTree { characteristics }
    }

    /// The characteristic that a lookup of the UUID pair yields.
    pub open spec fn spec_find(self, service_uuid: Seq<char>, uuid: Seq<char>) -> Option<
        CharacteristicDescriptor,
    > {
        first_named(self.characteristics@, service_uuid, uuid)
    }

    /// Linear scan for the first characteristic that the UUID pair names.
    pub fn find(&self, service_uuid: &str, uuid: &str) -> (r: Option<&CharacteristicDescriptor>)
        ensures
            match r {
                Some(d) => self.spec_find(service_uuid@, uuid@) == Some(*d),
                None => self.spec_find(service_uuid@, uuid@) is None,
            },
    {
        let mut i: usize = 0;
        assert(self.characteristics@.skip(0) == self.characteristics@);
        while i < self.characteristics.len()
            invariant
                i <= self.characteristics.len(),
                self.spec_find(service_uuid@, uuid@) == first_named(
                    self.characteristics@.skip(i as int),
                    service_uuid@,
                    uuid@,
                ),
            decreases self.characteristics.len() - i,
        {
            let d = &self.characteristics[i];
            if d.answers_to(service_uuid, uuid) {
                return Some(d);
            }
            assert(self.characteristics@.skip(i as int).drop_first()
                == self.characteristics@.skip(i + 1));
            i = i + 1;
        }
        None
    }

    /// Looks the UUID pair up and reports a miss as an error that names the
    /// characteristic asked for.
    pub fn resolve(&self, service_uuid: &str, uuid: &str) -> (r: Result<
        CharacteristicDescriptor,
        NotFoundError,
    >)
        ensures
            match r {
                Ok(d) => self.spec_find(service_uuid@, uuid@) == Some(d),
                Err(e) => {
                    &&& self.spec_find(service_uuid@, uuid@) is None
                    &&& e.service_uuid@ == service_uuid@
                    &&& e.characteristic_uuid@ == uuid@
                },
            },
    {
        match self.find(service_uuid, uuid) {
            Some(d) => Ok(d.duplicate()),
            None => Err(
                NotFoundError {
                    service_uuid: service_uuid.to_owned(),
                    characteristic_uuid: uuid.to_owned(),
                },
            ),
        }
    }
}

/// A lookup yields the first characteristic, in the order of the tree,
/// that the UUID pair names, and nothing exactly when the pair names none.
pub proof fn lemma_first_named(
    characteristics: Seq<CharacteristicDescriptor>,
    service_uuid: Seq<char>,
    uuid: Seq<char>,
)
    ensures
        match first_named(characteristics, service_uuid, uuid) {
            Some(found) => exists|i: int|
                {
                    &&& 0 <= i < characteristics.len()
                    &&& #[trigger] characteristics[i] == found
                    &&& found.spec_answers_to(service_uuid, uuid)
                    &&& forall|j: int| 0 <= j < i ==> !characteristics[j].spec_answers_to(service_uuid, uuid)
                },
            None => forall|i: int|
                0 <= i < characteristics.len() ==> !(#[trigger] characteristics[i]).spec_answers_to(
                    service_uuid,
                    uuid,
                ),
        },
    decreases characteristics.len(),
{
    if characteristics.len() > 0 && !characteristics[0].spec_answers_to(service_uuid, uuid) {
        let rest = characteristics.drop_first();
        lemma_first_named(rest, service_uuid, uuid);
        match first_named(rest, service_uuid, uuid) {
            Some(found) => {
                let i = choose|i: int|
                    {
                        &&& 0 <= i < rest.len()
                        &&& #[trigger] rest[i] == found
                        &&& found.spec_answers_to(service_uuid, uuid)
                        &&& forall|j: int| 0 <= j < i ==> !rest[j].spec_answers_to(service_uuid, uuid)
                    };
                assert(characteristics[i + 1] == found);
                assert forall|j: int| 0 <= j < i + 1 implies !characteristics[j].spec_answers_to(
                    service_uuid,
                    uuid,
                ) by {
                    if j > 0 {
                        assert(characteristics[j] == rest[j - 1]);
                    }
                }
            },
            None => {
                assert forall|i: int| 0 <= i < characteristics.len() implies !(
                #[trigger] characteristics[i]).spec_answers_to(service_uuid, uuid) by {
                    if i > 0 {
                        assert(characteristics[i] == rest[i - 1]);
                    }
                }
            },
        }
    } else if characteristics.len() > 0 {
        assert(characteristics[0] == characteristics[0]);
    }
}

/// Characteristic resolution. A UUID pair that no characteristic of the
/// tree answers to is not found, and only such a pair.
pub proof fn lemma_absent_is_not_found(tree: ServiceTree, service_uuid: Seq<char>, uuid: Seq<char>)
    ensures
        tree.spec_find(service_uuid, uuid) is None <==> forall|i: int|
            0 <= i < tree.characteristics@.len() ==> !(
            #[trigger] tree.characteristics@[i]).spec_answers_to(service_uuid, uuid),
{
    lemma_first_named(tree.characteristics@, service_uuid, uuid);
}

} // verus!
