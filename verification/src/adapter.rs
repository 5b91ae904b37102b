//! Choices made once at startup, before a device exists: which backend and
//! which kind of adapter to ask for, and which features to enable on the
//! device.

use vstd::prelude::*;
use vstd::string::*;

verus! {

/// A graphics backend that can be asked for by name.
#[derive(Clone, Copy, Debug, PartialEq, Eq, Structural)]
pub enum Backend {
    Vulkan,
    Metal,
    Dx12,
    Dx11,
    Gl,
    BrowserWebGpu,
}

/// The backends among which an adapter is looked for.
#[derive(Clone, Copy, Debug, PartialEq, Eq, Structural)]
pub enum BackendChoice {
    /// Every backend with first-tier support.
    Primary,
    /// The one backend that was asked for.
    Only(Backend),
}

/// The kind of adapter to prefer.
#[derive(Clone, Copy, Debug, PartialEq, Eq, Structural)]
pub enum PowerPreference {
    LowPower,
    HighPerformance,
}

/// A request that names no known backend or power preference.
#[derive(Clone, Debug, PartialEq, Eq)]
pub struct UnknownName {
    /// The name that was asked for, in lower case.
    pub name: String,
}

/// Features that the simulation requires and the adapter lacks.
#[derive(Clone, Copy, Debug, PartialEq, Eq, Structural)]
pub struct MissingFeatures {
    /// The bits of the missing features.
    pub missing: u64,
}

/// The lower-case form of a text, as the standard library computes it.
pub uninterp spec fn lowercase_of(text: Seq<char>) -> Seq<char>;

/// The backend with the given lower-case name.
pub open spec fn spec_backend_named(lower: Seq<char>) -> Option<Backend> {
    if lower == "vulkan"@ {
        Some(Backend::Vulkan)
    } else if lower == "metal"@ {
        Some(Backend::Metal)
    } else if lower == "dx12"@ {
        Some(Backend::Dx12)
    } else if lower == "dx11"@ {
        Some(Backend::Dx11)
    } else if lower == "gl"@ {
        Some(Backend::Gl)
    } else if lower == "webgpu"@ {
        Some(Backend::BrowserWebGpu)
    } else {
        None
    }
}

/// The power preference with the given lower-case name.
pub open spec fn spec_power_named(lower: Seq<char>) -> Option<PowerPreference> {
    if lower == "low"@ {
        Some(PowerPreference::LowPower)
    } else if lower == "high"@ {
        Some(PowerPreference::HighPerformance)
    } else {
        None
    }
}

/// The features that the adapter lacks of those required.
pub open spec fn spec_missing(required: u64, adapter: u64) -> u64 {
    required & !adapter
}

/// A text in lower case.
///
/// Trusted: calls `str::to_lowercase` of the standard library. The contract
/// gives the result a name and claims nothing else of it.
#[verifier::external_body]
fn lowercase(text: &str) -> (lower: String)
    ensures
        lower@ == lowercase_of(text@),
{
    text.to_lowercase()
}

/// Whether a text is the given word.
fn is_word(text: &str, word: &str) -> (same: bool)
    ensures
        same == (text@ == word@),
{
    String::from_str(text) == String::from_str(word)
}

/// The backend with the given name, which is taken as it is: in lower case.
pub fn backend_named(lower: &str) -> (backend: Option<Backend>)
    ensures
        backend == spec_backend_named(lower@),
{
    if is_word(lower, "vulkan") {
        Some(Backend::Vulkan)
    } else if is_word(lower, "metal") {
        Some(Backend::Metal)
    } else if is_word(lower, "dx12") {
        Some(Backend::Dx12)
    } else if is_word(lower, "dx11") {
        Some(Backend::Dx11)
    } else if is_word(lower, "gl") {
        Some(Backend::Gl)
    } else if is_word(lower, "webgpu") {
        Some(Backend::BrowserWebGpu)
    } else {
        None
    }
}

/// The power preference with the given name, which is taken as it is: in
/// lower case.
pub fn power_named(lower: &str) -> (preference: Option<PowerPreference>)
    ensures
        preference == spec_power_named(lower@),
{
    if is_word(lower, "low") {
        Some(PowerPreference::LowPower)
    } else if is_word(lower, "high") {
        Some(PowerPreference::HighPerformance)
    } else {
        None
    }
}

/// The backends to look for an adapter among: every first-tier backend
/// where none is asked for, else the one that is named, in any mix of upper
/// and lower case.
pub fn choose_backend(requested: Option<&str>) -> (r: Result<BackendChoice, UnknownName>)
    ensures
        requested is None ==> r == Ok::<BackendChoice, UnknownName>(BackendChoice::Primary),
        requested matches Some(name) ==> match spec_backend_named(lowercase_of(name@)) {
            Some(backend) => r == Ok::<BackendChoice, UnknownName>(BackendChoice::Only(backend)),
            None => r matches Err(unknown) && unknown.name@ == lowercase_of(name@),
        },
{
    match requested {
        None => Ok(BackendChoice::Primary),
        Some(name) => {
            let lower = lowercase(name);
            match backend_named(lower.as_str()) {
                Some(backend) => Ok(BackendChoice::Only(backend)),
                None => Err(UnknownName { name: lower }),
            }
        },
    }
}

/// The kind of adapter that is asked for by name, in any mix of upper and
/// lower case: none where nothing is asked for, which leaves the choice to
/// the device layer.
pub fn choose_power_preference(requested: Option<&str>) -> (r: Result<
    Option<PowerPreference>,
    UnknownName,
>)
    ensures
        requested is None ==> r == Ok::<Option<PowerPreference>, UnknownName>(None),
        requested matches Some(name) ==> match spec_power_named(lowercase_of(name@)) {
            Some(preference) => r == Ok::<Option<PowerPreference>, UnknownName>(
                Some(preference),
            ),
            None => r matches Err(unknown) && unknown.name@ == lowercase_of(name@),
        },
{
    match requested {
        None => Ok(None),
        Some(name) => {
            let lower = lowercase(name);
            match power_named(lower.as_str()) {
                Some(preference) => Ok(Some(preference)),
                None => Err(UnknownName { name: lower }),
            }
        },
    }
}

/// The features to enable on the device: all that are required, and of the
/// optional ones those the adapter has. An adapter that lacks a required
/// feature is refused, with the features it lacks.
pub fn device_features(optional: u64, required: u64, adapter: u64) -> (r: Result<
    u64,
    MissingFeatures,
>)
    ensures
        spec_missing(required, adapter) == 0 ==> r == Ok::<u64, MissingFeatures>(
            (optional & adapter) | required,
        ),
        spec_missing(required, adapter) != 0 ==> r == Err::<u64, MissingFeatures>(
            MissingFeatures { missing: spec_missing(required, adapter) },
        ),
{
    let missing = required & !adapter;
    if missing == 0 {
        Ok((optional & adapter) | required)
    } else {
        Err(MissingFeatures { missing })
    }
}

/// What is enabled on the device is there on the adapter, holds everything
/// required, and nothing that was neither required nor optional.
pub proof fn lemma_enabled_features_are_supported(optional: u64, required: u64, adapter: u64)
    requires
        spec_missing(required, adapter) == 0,
    ensures
        ((optional & adapter) | required) & !adapter == 0,
        required & !((optional & adapter) | required) == 0,
        ((optional & adapter) | required) & !(optional | required) == 0,
{
    assert(required & !adapter == 0 ==> ((optional & adapter) | required) & !adapter == 0)
        by (bit_vector);
    assert(required & !((optional & adapter) | required) == 0) by (bit_vector);
    assert(((optional & adapter) | required) & !(optional | required) == 0) by (bit_vector);
}

} // verus!
