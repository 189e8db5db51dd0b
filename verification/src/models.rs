//! Data model: extension identities, semantic versions, metadata, and the
//! records an extension definition is converted into.

use vstd::prelude::*;

verus! {

/// Uniquely names an inventory extension across the staged and loaded
/// collections. Equality of identities is the sole basis for matching.
#[derive(Debug)]
pub struct ExtensionID {
    pub id: String,
}

impl View for ExtensionID {
    type V = Seq<char>;

    open spec fn view(&self) -> Seq<char> {
        self.id@
    }
}

impl ExtensionID {
    pub fn new(id: &str) -> (r: Self)
        ensures
            r.id@ == id@,
    {
        ExtensionID { id: id.to_owned() }
    }
}

impl Clone for ExtensionID {
    fn clone(&self) -> (r: Self)
        ensures
            r == *self,
    {
        ExtensionID { id: self.id.clone() }
    }
}

impl PartialEq for ExtensionID {
    fn eq(&self, other: &Self) -> (r: bool) {
        self.id == other.id
    }
}

impl vstd::std_specs::cmp::PartialEqSpecImpl for ExtensionID {
    open spec fn obeys_eq_spec() -> bool {
        true
    }

    open spec fn eq_spec(&self, other: &Self) -> bool {
        self.id@ == other.id@
    }
}

/// A semantic version, reduced to its numeric components and ordered
/// lexicographically by major, then minor, then patch.
#[derive(Debug, Clone, Copy, PartialEq, Eq, Structural)]
pub struct Version {
    pub major: u64,
    pub minor: u64,
    pub patch: u64,
}

impl Version {
    /// Strict lexicographic order on (major, minor, patch).
    pub open spec fn spec_lt(self, other: Version) -> bool {
        ||| self.major < other.major
        ||| (self.major == other.major && self.minor < other.minor)
        ||| (self.major == other.major && self.minor == other.minor && self.patch < other.patch)
    }

    pub fn lt(&self, other: &Version) -> (r: bool)
        ensures
            r == self.spec_lt(*other),
    {
        self.major < other.major
        || (self.major == other.major && self.minor < other.minor)
        || (self.major == other.major && self.minor == other.minor && self.patch < other.patch)
    }
}

/// The numeric components of the version that `semver` parses out of the
/// given text, or `None` when the text is not a valid semantic version.
pub uninterp spec fn parsed_semver(s: Seq<char>) -> Option<(u64, u64, u64)>;

/// Relies on `semver::Version::parse`: the result depends on the text alone,
/// and its `major`, `minor` and `patch` fields are the numeric components of
/// the parsed version; parsing fails exactly on invalid version text.
#[verifier::external_body]
fn parse_semver(s: &str) -> (r: Option<(u64, u64, u64)>)
    ensures
        r == parsed_semver(s@),
{
    match semver::Version::parse(s) {
        Ok(v) => Some((v.major, v.minor, v.patch)),
        Err(_) => None,
    }
}

/// The part of an extension that reconciliation looks at: identity, display
/// name and version. Richer extension content is opaque payload.
#[derive(Debug)]
pub struct Metadata {
    pub id: ExtensionID,
    pub display_name: String,
    pub version: Version,
}

impl Clone for Metadata {
    fn clone(&self) -> (r: Self)
        ensures
            r == *self,
    {
        Metadata {
            id: self.id.clone(),
            display_name: self.display_name.clone(),
            version: self.version,
        }
    }
}

/// Names a device manufacturer within the inventory.
#[derive(Debug, Clone)]
pub struct ManufacturerID {
    pub id: String,
}

impl ManufacturerID {
    pub fn new(id: &str) -> (r: Self)
        ensures
            r.id@ == id@,
    {
        ManufacturerID { id: id.to_owned() }
    }
}

/// Names a classification of device within the inventory.
#[derive(Debug, Clone)]
pub struct ClassificationID {
    pub id: String,
}

impl ClassificationID {
    pub fn new(id: &str) -> (r: Self)
        ensures
            r.id@ == id@,
    {
        ClassificationID { id: id.to_owned() }
    }
}

/// Names a device within the inventory, qualified by the extension it comes
/// from, its manufacturer and its classification.
#[derive(Debug, Clone)]
pub struct DeviceID {
    pub extension_id: String,
    pub manufacturer: String,
    pub classification: String,
    pub true_name: String,
}

impl DeviceID {
    pub fn new(extension_id: &str, manufacturer: &str, classification: &str, true_name: &str) -> (r:
        Self)
        ensures
            r.extension_id@ == extension_id@,
            r.manufacturer@ == manufacturer@,
            r.classification@ == classification@,
            r.true_name@ == true_name@,
    {
        DeviceID {
            extension_id: extension_id.to_owned(),
            manufacturer: manufacturer.to_owned(),
            classification: classification.to_owned(),
            true_name: true_name.to_owned(),
        }
    }
}

/// A device manufacturer carried by an extension.
#[derive(Debug, Clone)]
pub struct Manufacturer {
    pub id: ManufacturerID,
    pub common_name: String,
    pub extensions: Vec<ExtensionID>,
}

/// A classification of device carried by an extension.
#[derive(Debug, Clone)]
pub struct Classification {
    pub id: ClassificationID,
    pub common_name: String,
    pub extensions: Vec<ExtensionID>,
}

/// A device and its metadata carried by an extension.
#[derive(Debug, Clone)]
pub struct Device {
    pub id: DeviceID,
    pub common_name: String,
    pub manufacturer: ManufacturerID,
    pub classification: ClassificationID,
    pub extension: ExtensionID,
    pub primary_model_identifiers: Vec<String>,
    pub extended_model_identifiers: Vec<String>,
}

/// An extension of the database inventory system: reconciliation-relevant
/// metadata plus the inventory content it carries.
#[derive(Debug, Clone)]
pub struct InventoryExtension {
    pub metadata: Metadata,
    pub manufacturers: Vec<Manufacturer>,
    pub classifications: Vec<Classification>,
    pub devices: Vec<Device>,
}

/// An inventory extension as read from a TOML definition file. Some types
/// are not compatible with the inventory, so this must be converted into an
/// [`InventoryExtension`] before the extension can be loaded.
#[derive(Debug)]
pub struct InventoryExtensionToml {
    pub extension_id: String,
    pub extension_common_name: String,
    pub extension_version: String,
    pub manufacturers: Vec<ManufacturerToml>,
    pub classifications: Option<Vec<ClassificationToml>>,
    pub devices: Vec<DeviceToml>,
}

/// A device manufacturer as read from a TOML extension.
#[derive(Debug)]
pub struct ManufacturerToml {
    pub id: String,
    pub common_name: String,
}

/// A classification of device as read from a TOML extension.
#[derive(Debug)]
pub struct ClassificationToml {
    pub id: String,
    pub common_name: String,
}

/// A device and its metadata as read from a TOML extension.
#[derive(Debug)]
pub struct DeviceToml {
    pub true_name: String,
    pub common_name: String,
    pub manufacturer: String,
    pub classification: String,
    pub primary_model_identifiers: Vec<String>,
    pub extended_model_identifiers: Vec<String>,
}

/// The manufacturer record that a TOML manufacturer converts into, under
/// the extension named `extension_id`.
pub open spec fn manufacturer_converted(
    t: ManufacturerToml,
    extension_id: Seq<char>,
    m: Manufacturer,
) -> bool {
    &&& m.id.id@ == t.id@
    &&& m.common_name@ == t.common_name@
    &&& m.extensions@.len() == 1
    &&& m.extensions@[0]@ == extension_id
}

/// The classification record that a TOML classification converts into,
/// under the extension named `extension_id`.
pub open spec fn classification_converted(
    t: ClassificationToml,
    extension_id: Seq<char>,
    c: Classification,
) -> bool {
    &&& c.id.id@ == t.id@
    &&& c.common_name@ == t.common_name@
    &&& c.extensions@.len() == 1
    &&& c.extensions@[0]@ == extension_id
}

/// The device record that a TOML device converts into, under the extension
/// named `extension_id`.
pub open spec fn device_converted(t: DeviceToml, extension_id: Seq<char>, d: Device) -> bool {
    &&& d.id.extension_id@ == extension_id
    &&& d.id.manufacturer@ == t.manufacturer@
    &&& d.id.classification@ == t.classification@
    &&& d.id.true_name@ == t.true_name@
    &&& d.common_name@ == t.common_name@
    &&& d.manufacturer.id@ == t.manufacturer@
    &&& d.classification.id@ == t.classification@
    &&& d.extension@ == extension_id
    &&& d.primary_model_identifiers == t.primary_model_identifiers
    &&& d.extended_model_identifiers == t.extended_model_identifiers
}

/// The classifications of a TOML extension, which are optional in the file
/// format and default to none.
pub open spec fn spec_classifications_or_empty(c: Option<Vec<ClassificationToml>>) -> Seq<
    ClassificationToml,
> {
    match c {
        Some(v) => v@,
        None => Seq::empty(),
    }
}

/// The extension that a whole TOML definition converts into, given the
/// numeric components of its parsed version.
pub open spec fn extension_converted(
    toml: InventoryExtensionToml,
    parts: (u64, u64, u64),
    e: InventoryExtension,
) -> bool {
    &&& e.metadata.id@ == toml.extension_id@
    &&& e.metadata.display_name@ == toml.extension_common_name@
    &&& e.metadata.version == (Version { major: parts.0, minor: parts.1, patch: parts.2 })
    &&& e.manufacturers@.len() == toml.manufacturers@.len()
    &&& (forall|i: int|
        0 <= i < toml.manufacturers@.len() ==> manufacturer_converted(
            toml.manufacturers@[i],
            toml.extension_id@,
            #[trigger] e.manufacturers@[i],
        ))
    &&& e.classifications@.len() == spec_classifications_or_empty(toml.classifications).len()
    &&& (forall|i: int|
        0 <= i < spec_classifications_or_empty(toml.classifications).len()
            ==> classification_converted(
            spec_classifications_or_empty(toml.classifications)[i],
            toml.extension_id@,
            #[trigger] e.classifications@[i],
        ))
    &&& e.devices@.len() == toml.devices@.len()
    &&& (forall|i: int|
        0 <= i < toml.devices@.len() ==> device_converted(
            toml.devices@[i],
            toml.extension_id@,
            #[trigger] e.devices@[i],
        ))
}

impl InventoryExtension {
    /// Converts a parsed TOML definition into an extension, returning
    /// `None` when the version text is not a valid semantic version. Inner
    /// records must be converted with context provided by the extension
    /// definition itself, so they cannot be converted on their own.
    pub fn from_toml(toml: InventoryExtensionToml) -> (r: Option<InventoryExtension>)
        ensures
            (match parsed_semver(toml.extension_version@) {
                None => r is None,
                Some(parts) => r matches Some(e) && extension_converted(toml, parts, e),
            }),
    {
        let parts = match parse_semver(toml.extension_version.as_str()) {
            Some(parts) => parts,
            None => {
                return None;
            },
        };
        let (major, minor, patch) = parts;

        let extension_id = toml.extension_id;
        let ghost ext_id = extension_id@;

        let mut manufacturers_toml = toml.manufacturers;
        let ghost orig_manufacturers = manufacturers_toml@;
        let mut manufacturers: Vec<Manufacturer> = Vec::new();
        proof {
            assert(manufacturers_toml@ =~= orig_manufacturers.skip(0));
        }
        while manufacturers_toml.len() > 0
            invariant
                manufacturers@.len() + manufacturers_toml@.len() == orig_manufacturers.len(),
                manufacturers_toml@ == orig_manufacturers.skip(manufacturers@.len() as int),
                extension_id@ == ext_id,
                forall|i: int|
                    0 <= i < manufacturers@.len() ==> manufacturer_converted(
                        orig_manufacturers[i],
                        ext_id,
                        #[trigger] manufacturers@[i],
                    ),
            decreases manufacturers_toml.len(),
        {
            let ghost k = manufacturers@.len() as int;
            let m = manufacturers_toml.remove(0);
            proof {
                assert(m == orig_manufacturers[k]);
                assert(manufacturers_toml@ =~= orig_manufacturers.skip(k + 1));
            }
            let mut extension_ids: Vec<ExtensionID> = Vec::new();
            extension_ids.push(ExtensionID::new(extension_id.as_str()));
            manufacturers.push(
                Manufacturer {
                    id: ManufacturerID::new(m.id.as_str()),
                    common_name: m.common_name,
                    extensions: extension_ids,
                },
            );
        }

        let mut classifications_toml = match toml.classifications {
            Some(classifications) => classifications,
            None => Vec::new(),
        };
        let ghost orig_classifications = classifications_toml@;
        let mut classifications: Vec<Classification> = Vec::new();
        proof {
            assert(classifications_toml@ =~= orig_classifications.skip(0));
        }
        while classifications_toml.len() > 0
            invariant
                classifications@.len() + classifications_toml@.len() == orig_classifications.len(),
                classifications_toml@ == orig_classifications.skip(classifications@.len() as int),
                extension_id@ == ext_id,
                forall|i: int|
                    0 <= i < classifications@.len() ==> classification_converted(
                        orig_classifications[i],
                        ext_id,
                        #[trigger] classifications@[i],
                    ),
            decreases classifications_toml.len(),
        {
            let ghost k = classifications@.len() as int;
            let c = classifications_toml.remove(0);
            proof {
                assert(c == orig_classifications[k]);
                assert(classifications_toml@ =~= orig_classifications.skip(k + 1));
            }
            let mut extension_ids: Vec<ExtensionID> = Vec::new();
            extension_ids.push(ExtensionID::new(extension_id.as_str()));
            classifications.push(
                Classification {
                    id: ClassificationID::new(c.id.as_str()),
                    common_name: c.common_name,
                    extensions: extension_ids,
                },
            );
        }

        let mut devices_toml = toml.devices;
        let ghost orig_devices = devices_toml@;
        let mut devices: Vec<Device> = Vec::new();
        proof {
            assert(devices_toml@ =~= orig_devices.skip(0));
        }
        while devices_toml.len() > 0
            invariant
                devices@.len() + devices_toml@.len() == orig_devices.len(),
                devices_toml@ == orig_devices.skip(devices@.len() as int),
                extension_id@ == ext_id,
                forall|i: int|
                    0 <= i < devices@.len() ==> device_converted(
                        orig_devices[i],
                        ext_id,
                        #[trigger] devices@[i],
                    ),
            decreases devices_toml.len(),
        {
            let ghost k = devices@.len() as int;
            let d = devices_toml.remove(0);
            proof {
                assert(d == orig_devices[k]);
                assert(devices_toml@ =~= orig_devices.skip(k + 1));
            }
            devices.push(
                Device {
                    id: DeviceID::new(
                        extension_id.as_str(),
                        d.manufacturer.as_str(),
                        d.classification.as_str(),
                        d.true_name.as_str(),
                    ),
                    common_name: d.common_name,
                    manufacturer: ManufacturerID::new(d.manufacturer.as_str()),
                    classification: ClassificationID::new(d.classification.as_str()),
                    extension: ExtensionID::new(extension_id.as_str()),
                    primary_model_identifiers: d.primary_model_identifiers,
                    extended_model_identifiers: d.extended_model_identifiers,
                },
            );
        }

        Some(
            InventoryExtension {
                metadata: Metadata {
                    id: ExtensionID { id: extension_id },
                    display_name: toml.extension_common_name,
                    version: Version { major, minor, patch },
                },
                manufacturers,
                classifications,
                devices,
            },
        )
    }
}

} // verus!
