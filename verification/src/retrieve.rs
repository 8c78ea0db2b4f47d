//! Where the identification is kept in the registry, and what becomes of an
//! attempt to fetch it.

use vstd::prelude::*;
use vstd::string::StringExecFns;
use crate::identity::{RegistryValues, RegistryValuesView, WindowsInfo, WindowsInfoView, identity_of};

verus! {

/// The key under `HKEY_LOCAL_MACHINE` that holds the four values.
pub const CURRENT_VERSION_KEY: &'static str = "SOFTWARE\\Microsoft\\Windows NT\\CurrentVersion";

/// The name of the value that holds the product name and edition.
pub const PRODUCT_NAME: &'static str = "ProductName";

/// The name of the value that holds the display version.
pub const DISPLAY_VERSION: &'static str = "DisplayVersion";

/// The name of the value that holds the build number.
pub const CURRENT_BUILD: &'static str = "CurrentBuild";

/// The name of the value that holds the release identifier.
pub const RELEASE_ID: &'static str = "ReleaseId";

/// The key could not be opened, or one of the four values is missing or is
/// no string.
#[derive(Debug, PartialEq, Eq)]
pub struct RetrievalError {
    /// What went wrong, in words.
    pub cause: String,
}

impl View for RetrievalError {
    type V = Seq<char>;

    open spec fn view(&self) -> Seq<char> {
        self.cause@
    }
}

/// The line that reports a failed retrieval.
pub open spec fn error_report(cause: Seq<char>) -> Seq<char> {
    "Error: "@ + cause + "\n"@
}

impl RetrievalError {
    /// The line that reports this error.
    pub fn report(&self) -> (text: String)
        ensures
            text@ == error_report(self@),
    {
        let mut text = String::from_str("Error: ");
        text.append(self.cause.as_str());
        text.append("\n");
        text
    }
}

/// What a fetch brought, as mathematical text: the four values, or the cause of the failure.
pub open spec fn fetched_view(fetched: Result<RegistryValues, RetrievalError>) -> Result<
    RegistryValuesView,
    Seq<char>,
> {
    match fetched {
        Ok(values) => Ok(values@),
        Err(error) => Err(error@),
    }
}

/// The identification that a fetch leads to. Retrieval is all or nothing: a
/// failed fetch gives no record, only its cause.
pub open spec fn retrieved(fetched: Result<RegistryValuesView, Seq<char>>) -> Result<
    WindowsInfoView,
    Seq<char>,
> {
    match fetched {
        Ok(values) => Ok(identity_of(values)),
        Err(cause) => Err(cause),
    }
}

/// Turns what was fetched from the registry into the identification record,
/// or hands the failure on unchanged.
pub fn get_windows_info(fetched: Result<RegistryValues, RetrievalError>) -> (result: Result<
    WindowsInfo,
    RetrievalError,
>)
    ensures
        match retrieved(fetched_view(fetched)) {
            Ok(identity) => result matches Ok(info) && info@ == identity,
            Err(cause) => result matches Err(error) && error@ == cause,
        },
{
    match fetched {
        Ok(values) => Ok(WindowsInfo::new(values)),
        Err(error) => Err(error),
    }
}

} // verus!
