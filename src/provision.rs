//! Provisioning of the runtime artifact: the descriptor read from the
//! buildpack's configuration, the cache decision, the metadata to persist
//! before a download, and the checks after it.
use vstd::prelude::*;
use crate::fingerprint::{fingerprint, fingerprint_of};
use crate::layer::{runtime_layer_facets, runtime_facets_spec, LayerFacets};
use crate::toml_doc::{
    is_parser_safe, key_path, lookup_string, opt_view, parser_safe, toml_accepts, toml_string_at,
};

verus! {

/// Where the runtime artifact is fetched from and the fingerprint it must have.
#[derive(Clone, Debug)]
pub struct RuntimeDescriptor {
    pub url: String,
    pub expected_fingerprint: String,
}

/// Why the runtime descriptor could not be read from the configuration.
#[derive(Clone, Copy, Debug, PartialEq, Eq, Structural)]
pub enum ConfigError {
    /// The configuration is not a TOML document, or nests deeper than the
    /// parser is allowed to descend.
    Malformed,
    /// `metadata.runtime.sha256` is missing or not a string.
    MissingFingerprint,
    /// `metadata.runtime.url` is missing or not a string.
    MissingUrl,
}

impl ConfigError {
    /// The explanation shown to the user.
    pub fn message(&self) -> (r: &'static str)
        ensures
            *self == ConfigError::Malformed ==> r@ == "buildpack.toml is not a valid TOML document, or nests too deeply to be read safely"@,
            *self == ConfigError::MissingFingerprint ==> r@
                == "buildpack.toml does not have `metadata.runtime.sha256` key"@,
            *self == ConfigError::MissingUrl ==> r@
                == "buildpack.toml does not have `metadata.runtime.url` key"@,
    {
        match self {
            ConfigError::Malformed => "buildpack.toml is not a valid TOML document, or nests too deeply to be read safely",
            ConfigError::MissingFingerprint => "buildpack.toml does not have `metadata.runtime.sha256` key",
            ConfigError::MissingUrl => "buildpack.toml does not have `metadata.runtime.url` key",
        }
    }
}

/// The key path of the expected fingerprint in the configuration.
pub open spec fn fingerprint_key() -> Seq<Seq<char>> {
    seq!["metadata"@, "runtime"@, "sha256"@]
}

/// The key path of the download location in the configuration.
pub open spec fn url_key() -> Seq<Seq<char>> {
    seq!["metadata"@, "runtime"@, "url"@]
}

/// What reading the descriptor yields, given the two looked-up values:
/// `(url, expected fingerprint)` or the first missing key.
pub open spec fn descriptor_outcome(
    fingerprint: Option<Seq<char>>,
    url: Option<Seq<char>>,
) -> Result<(Seq<char>, Seq<char>), ConfigError> {
    match (fingerprint, url) {
        (None, _) => Err(ConfigError::MissingFingerprint),
        (Some(_), None) => Err(ConfigError::MissingUrl),
        (Some(f), Some(u)) => Ok((u, f)),
    }
}

/// What reading the descriptor from the configuration text yields. A text
/// too deeply nested to parse safely counts as malformed.
pub open spec fn config_outcome(text: &str) -> Result<(Seq<char>, Seq<char>), ConfigError> {
    if !parser_safe(text) || !toml_accepts(text@) {
        Err(ConfigError::Malformed)
    } else {
        descriptor_outcome(toml_string_at(text@, fingerprint_key()), toml_string_at(text@, url_key()))
    }
}

/// The view of a descriptor result: `(url, expected fingerprint)` or the error.
pub open spec fn descriptor_view(r: Result<RuntimeDescriptor, ConfigError>) -> Result<
    (Seq<char>, Seq<char>),
    ConfigError,
> {
    match r {
        Ok(d) => Ok((d.url@, d.expected_fingerprint@)),
        Err(e) => Err(e),
    }
}

/// Builds the descriptor from the looked-up fingerprint and url, reporting the
/// first one that is missing.
pub fn descriptor_from_values(fingerprint: Option<String>, url: Option<String>) -> (r: Result<
    RuntimeDescriptor,
    ConfigError,
>)
    ensures
        descriptor_view(r) == descriptor_outcome(
            opt_view(fingerprint),
            opt_view(url),
        ),
{
    match fingerprint {
        None => Err(ConfigError::MissingFingerprint),
        Some(f) => match url {
            None => Err(ConfigError::MissingUrl),
            Some(u) => Ok(RuntimeDescriptor { url: u, expected_fingerprint: f }),
        },
    }
}

/// Reads `metadata.runtime.url` and `metadata.runtime.sha256` from the
/// buildpack's configuration text.
pub fn read_descriptor(config: &str) -> (r: Result<RuntimeDescriptor, ConfigError>)
    ensures
        descriptor_view(r) == config_outcome(config),
{
    if !is_parser_safe(config) {
        return Err(ConfigError::Malformed);
    }
    let fp_path = ["metadata", "runtime", "sha256"];
    let url_path = ["metadata", "runtime", "url"];
    proof {
        assert(key_path(fp_path@) =~= fingerprint_key());
        assert(key_path(url_path@) =~= url_key());
    }
    let fp = match lookup_string(config, fp_path.as_slice()) {
        None => return Err(ConfigError::Malformed),
        Some(v) => v,
    };
    let url = match lookup_string(config, url_path.as_slice()) {
        None => return Err(ConfigError::Malformed),
        Some(v) => v,
    };
    descriptor_from_values(fp, url)
}

/// Whether the artifact already in the layer may be reused: the fingerprint
/// recorded by the last install equals the expected one, and the artifact
/// file is still there.
pub open spec fn cache_valid(expected: Seq<char>, cached: Seq<char>, artifact_exists: bool) -> bool {
    expected == cached && artifact_exists
}

/// Decides whether the runtime layer can be reused. `cached` is the
/// fingerprint recorded in the layer's metadata, empty when none is.
pub fn is_valid(descriptor: &RuntimeDescriptor, cached: &String, artifact_exists: bool) -> (r: bool)
    ensures
        r == cache_valid(descriptor.expected_fingerprint@, cached@, artifact_exists),
{
    artifact_exists && descriptor.expected_fingerprint == *cached
}

/// The metadata written into the runtime layer before the artifact is fetched.
#[derive(Clone, Debug)]
pub struct RuntimeLayerWrite {
    pub facets: LayerFacets,
    /// Recorded under the layer's url key.
    pub url: String,
    /// Recorded under the layer's fingerprint key.
    pub fingerprint: String,
}

/// What a provisioning run does with the runtime layer.
#[derive(Clone, Debug)]
pub enum RuntimePlan {
    /// The artifact in the layer is used as it is; nothing is written.
    Reuse,
    /// The metadata is persisted, then the artifact is fetched.
    Install(RuntimeLayerWrite),
}

/// The mathematical form of a plan.
pub ghost enum PlanModel {
    Reuse,
    Install { facets: LayerFacets, url: Seq<char>, fingerprint: Seq<char> },
}

impl View for RuntimePlan {
    type V = PlanModel;

    open spec fn view(&self) -> PlanModel {
        match self {
            RuntimePlan::Reuse => PlanModel::Reuse,
            RuntimePlan::Install(w) => PlanModel::Install {
                facets: w.facets,
                url: w.url@,
                fingerprint: w.fingerprint@,
            },
        }
    }
}

/// The plan for a layer whose recorded fingerprint is `cached`: reuse on a
/// valid cache; else persist the runtime facets, the url and the expected
/// fingerprint, then fetch.
pub open spec fn plan_of(
    url: Seq<char>,
    expected: Seq<char>,
    cached: Seq<char>,
    artifact_exists: bool,
) -> PlanModel {
    if cache_valid(expected, cached, artifact_exists) {
        PlanModel::Reuse
    } else {
        PlanModel::Install { facets: runtime_facets_spec(), url, fingerprint: expected }
    }
}

/// Plans the provisioning run for the runtime layer.
pub fn plan_runtime(descriptor: &RuntimeDescriptor, cached: &String, artifact_exists: bool) -> (r:
    RuntimePlan)
    ensures
        r@ == plan_of(
            descriptor.url@,
            descriptor.expected_fingerprint@,
            cached@,
            artifact_exists,
        ),
{
    if is_valid(descriptor, cached, artifact_exists) {
        RuntimePlan::Reuse
    } else {
        RuntimePlan::Install(
            RuntimeLayerWrite {
                facets: runtime_layer_facets(),
                url: descriptor.url.clone(),
                fingerprint: descriptor.expected_fingerprint.clone(),
            },
        )
    }
}

/// The state of the runtime layer that the cache decision reads.
pub ghost struct LayerState {
    /// The recorded fingerprint, empty when none is recorded.
    pub cached: Seq<char>,
    /// Whether the artifact file is present.
    pub artifact_exists: bool,
}

/// The layer after a run that succeeded: unchanged on reuse; else holding
/// the recorded fingerprint and the fetched artifact.
pub open spec fn after_run(url: Seq<char>, expected: Seq<char>, layer: LayerState) -> LayerState {
    match plan_of(url, expected, layer.cached, layer.artifact_exists) {
        PlanModel::Reuse => layer,
        PlanModel::Install { fingerprint, .. } => LayerState { cached: fingerprint, artifact_exists: true },
    }
}

/// The number of fetches that a run on `layer` performs.
pub open spec fn fetches(url: Seq<char>, expected: Seq<char>, layer: LayerState) -> nat {
    match plan_of(url, expected, layer.cached, layer.artifact_exists) {
        PlanModel::Reuse => 0,
        PlanModel::Install { .. } => 1,
    }
}

/// Provisioning twice with the same descriptor and no tampering in between
/// fetches at most once: the second run reuses the layer and writes nothing,
/// and the layer it leaves is the one the first run left.
pub proof fn lemma_second_run_reuses(url: Seq<char>, expected: Seq<char>, layer: LayerState)
    ensures
        plan_of(url, expected, after_run(url, expected, layer).cached, after_run(url, expected, layer).artifact_exists)
            == PlanModel::Reuse,
        fetches(url, expected, after_run(url, expected, layer)) == 0,
        after_run(url, expected, after_run(url, expected, layer)) == after_run(url, expected, layer),
        fetches(url, expected, layer) + fetches(url, expected, after_run(url, expected, layer)) <= 1,
{
}

/// A layer that records no fingerprint and holds no artifact is installed:
/// one fetch, after which the expected fingerprint is recorded.
pub proof fn lemma_first_run_installs(url: Seq<char>, expected: Seq<char>)
    ensures
        plan_of(url, expected, Seq::empty(), false) == (PlanModel::Install {
            facets: runtime_facets_spec(),
            url,
            fingerprint: expected,
        }),
        fetches(url, expected, LayerState { cached: Seq::empty(), artifact_exists: false }) == 1,
        after_run(url, expected, LayerState { cached: Seq::empty(), artifact_exists: false })
            == (LayerState { cached: expected, artifact_exists: true }),
{
}

/// Why provisioning the runtime failed. Both end the build phase.
#[derive(Clone, Debug)]
pub enum ProvisionError {
    /// The artifact could not be fetched from `url`.
    Download { url: String },
    /// The fetched artifact's fingerprint is not the expected one.
    Integrity { expected: String, actual: String },
}

impl ProvisionError {
    /// The short title that identifies the failure.
    pub fn title(&self) -> (r: &'static str)
        ensures
            self is Download ==> r@ == "Download of function runtime failed"@,
            self is Integrity ==> r@ == "Function runtime integrity check failed"@,
    {
        match self {
            ProvisionError::Download { .. } => "Download of function runtime failed",
            ProvisionError::Integrity { .. } => "Function runtime integrity check failed",
        }
    }

    /// The explanation shown to the user beneath the title.
    pub fn message(&self) -> (r: String)
        ensures
            self matches ProvisionError::Download { url } ==> r@ == "\nWe couldn't download the function runtime at "@
                + url@ + ".\n\nThis is usually caused by intermittent network issues. Please try again and contact us should the error persist.\n"@,
            self is Integrity ==> r@ == "\nWe could not verify the integrity of the downloaded function runtime.\nPlease try again and contact us should the error persist.\n"@,
    {
        match self {
            ProvisionError::Download { url } => {
                let head = String::from_str("\nWe couldn't download the function runtime at ");
                head.concat(url.as_str()).concat(
                    ".\n\nThis is usually caused by intermittent network issues. Please try again and contact us should the error persist.\n",
                )
            },
            ProvisionError::Integrity { .. } => String::from_str(
                "\nWe could not verify the integrity of the downloaded function runtime.\nPlease try again and contact us should the error persist.\n",
            ),
        }
    }
}

/// The outcome of the fetch: a failed fetch is a download error for the
/// descriptor's url, never retried.
pub fn download_outcome(descriptor: &RuntimeDescriptor, fetched: bool) -> (r: Result<(), ProvisionError>)
    ensures
        fetched <==> r is Ok,
        !fetched ==> (r matches Err(ProvisionError::Download { url }) && url@ == descriptor.url@),
{
    if fetched {
        Ok(())
    } else {
        Err(ProvisionError::Download { url: descriptor.url.clone() })
    }
}

/// Compares the fingerprint `actual` of the fetched artifact to the expected one.
pub fn check_integrity(descriptor: &RuntimeDescriptor, actual: &String) -> (r: Result<(), ProvisionError>)
    ensures
        r is Ok <==> actual@ == descriptor.expected_fingerprint@,
        r is Err ==> (r matches Err(ProvisionError::Integrity { expected, actual: a })
            && expected@ == descriptor.expected_fingerprint@ && a@ == actual@),
{
    if descriptor.expected_fingerprint == *actual {
        Ok(())
    } else {
        Err(
            ProvisionError::Integrity {
                expected: descriptor.expected_fingerprint.clone(),
                actual: actual.clone(),
            },
        )
    }
}

/// Verifies the content of the fetched artifact against the expected fingerprint.
pub fn verify_artifact(descriptor: &RuntimeDescriptor, artifact: &[u8]) -> (r: Result<(), ProvisionError>)
    ensures
        r is Ok <==> fingerprint_of(artifact@) == descriptor.expected_fingerprint@,
        r is Err ==> (r matches Err(ProvisionError::Integrity { expected, actual })
            && expected@ == descriptor.expected_fingerprint@ && actual@ == fingerprint_of(artifact@)),
{
    let actual = fingerprint(artifact);
    check_integrity(descriptor, &actual)
}

/// What follows a fetch.
#[derive(Clone, Debug)]
pub enum InstallStep {
    /// The phase ends with this error.
    Fail(ProvisionError),
    /// The fetched artifact is to be checked with `verify_artifact`.
    VerifyArtifact,
    /// The artifact is installed.
    Installed,
}

/// Decides what follows the fetch: a failed fetch ends the phase with a
/// download error; a successful one is verified when integrity checking is
/// on, and is installed as it is when it is off.
pub fn after_download(descriptor: &RuntimeDescriptor, verify_integrity: bool, fetched: bool) -> (r:
    InstallStep)
    ensures
        !fetched ==> (r matches InstallStep::Fail(ProvisionError::Download { url }) && url@
            == descriptor.url@),
        fetched && verify_integrity ==> r is VerifyArtifact,
        fetched && !verify_integrity ==> r is Installed,
{
    match download_outcome(descriptor, fetched) {
        Err(e) => InstallStep::Fail(e),
        Ok(()) => if verify_integrity {
            InstallStep::VerifyArtifact
        } else {
            InstallStep::Installed
        },
    }
}

} // verus!
