//! The identification record and the registry values it is built from.

use vstd::prelude::*;
use vstd::string::StringExecFns;

verus! {

/// The four registry values, as text, that identify the installed system.
#[derive(Debug, PartialEq, Eq)]
pub struct RegistryValues {
    /// The value `ProductName`.
    pub product_name: String,
    /// The value `DisplayVersion`.
    pub display_version: String,
    /// The value `CurrentBuild`.
    pub current_build: String,
    /// The value `ReleaseId`.
    pub release_id: String,
}

/// Mathematical content of [`RegistryValues`].
pub struct RegistryValuesView {
    pub product_name: Seq<char>,
    pub display_version: Seq<char>,
    pub current_build: Seq<char>,
    pub release_id: Seq<char>,
}

impl View for RegistryValues {
    type V = RegistryValuesView;

    open spec fn view(&self) -> RegistryValuesView {
        RegistryValuesView {
            product_name: self.product_name@,
            display_version: self.display_version@,
            current_build: self.current_build@,
            release_id: self.release_id@,
        }
    }
}

/// Mathematical content of [`WindowsInfo`].
pub struct WindowsInfoView {
    pub distributor_id: Seq<char>,
    pub description: Seq<char>,
    pub release: Seq<char>,
    pub codename: Seq<char>,
}

/// The distributor of every Windows release.
pub open spec fn distributor() -> Seq<char> {
    "Microsoft"@
}

/// The release string: the display version and the build number, joined by a dot.
pub open spec fn release_of(display_version: Seq<char>, current_build: Seq<char>) -> Seq<char> {
    display_version + "."@ + current_build
}

/// The identification record that a set of registry values stands for.
pub open spec fn identity_of(values: RegistryValuesView) -> WindowsInfoView {
    WindowsInfoView {
        distributor_id: distributor(),
        description: values.product_name,
        release: release_of(values.display_version, values.current_build),
        codename: values.release_id,
    }
}

/// Identification of the installed system. A value is built once and only read afterwards.
#[derive(Debug, PartialEq, Eq)]
pub struct WindowsInfo {
    distributor_id: String,
    description: String,
    release: String,
    codename: String,
}

impl View for WindowsInfo {
    type V = WindowsInfoView;

    closed spec fn view(&self) -> WindowsInfoView {
        WindowsInfoView {
            distributor_id: self.distributor_id@,
            description: self.description@,
            release: self.release@,
            codename: self.codename@,
        }
    }
}

impl WindowsInfo {
    /// Every record names the same distributor, and its release holds the joining dot.
    #[verifier::type_invariant]
    closed spec fn well_formed(self) -> bool {
        &&& self.distributor_id@ == distributor()
        &&& self.release@.contains('.')
    }

    /// Builds the record from the four registry values.
    pub fn new(values: RegistryValues) -> (info: WindowsInfo)
        ensures
            info@ == identity_of(values@),
    {
        let mut release = values.display_version;
        release.append(".");
        release.append(values.current_build.as_str());
        proof {
            reveal_strlit(".");
            let dot = values.display_version@.len() as int;
            assert(release@[dot] == '.');
        }
        WindowsInfo {
            distributor_id: String::from_str("Microsoft"),
            description: values.product_name,
            release,
            codename: values.release_id,
        }
    }

    /// The vendor name.
    pub fn distributor_id(&self) -> (text: &str)
        ensures
            text@ == self@.distributor_id,
            text@ == distributor(),
    {
        proof {
            use_type_invariant(self);
        }
        self.distributor_id.as_str()
    }

    /// The product name and edition.
    pub fn description(&self) -> (text: &str)
        ensures
            text@ == self@.description,
    {
        self.description.as_str()
    }

    /// The display version and build number, joined by a dot.
    pub fn release(&self) -> (text: &str)
        ensures
            text@ == self@.release,
            text@.contains('.'),
    {
        proof {
            use_type_invariant(self);
        }
        self.release.as_str()
    }

    /// The platform's internal release identifier.
    pub fn codename(&self) -> (text: &str)
        ensures
            text@ == self@.codename,
    {
        self.codename.as_str()
    }
}

} // verus!
