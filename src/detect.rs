//! Detection of the project's function: the detector's exit-code contract and
//! the manifest it leaves behind.
use vstd::prelude::*;
use crate::text::{decimal_of, decimal_text};
use crate::toml_doc::{is_parser_safe, key_path, lookup_string, opt_view, string_in};

verus! {

/// Why detection failed. Every variant ends the build phase.
#[derive(Clone, Copy, Debug, PartialEq, Eq, Structural)]
pub enum DetectError {
    /// The detector found no function (exit code 1).
    NoUnitFound,
    /// The detector found more than one function (exit code 2).
    MultipleUnitsFound,
    /// The detector failed internally with the given code (3 to 6).
    Internal(i32),
    /// Any other exit code, or none when the detector was killed by a signal.
    Unexpected(Option<i32>),
    /// The detector succeeded but its manifest is missing or malformed.
    ManifestUnreadable,
}

/// The outcome of the detector's exit status: `Ok` means the manifest is to be read.
pub open spec fn exit_outcome(code: Option<i32>) -> Result<(), DetectError> {
    match code {
        Some(c) => if c == 0 {
            Ok(())
        } else if c == 1 {
            Err(DetectError::NoUnitFound)
        } else if c == 2 {
            Err(DetectError::MultipleUnitsFound)
        } else if 3 <= c <= 6 {
            Err(DetectError::Internal(c))
        } else {
            Err(DetectError::Unexpected(code))
        },
        None => Err(DetectError::Unexpected(None)),
    }
}

/// Classifies the detector's exit code; `None` stands for a process that
/// ended without one.
pub fn classify_exit(code: Option<i32>) -> (r: Result<(), DetectError>)
    ensures
        r == exit_outcome(code),
{
    match code {
        Some(0) => Ok(()),
        Some(1) => Err(DetectError::NoUnitFound),
        Some(2) => Err(DetectError::MultipleUnitsFound),
        Some(c) => if 3 <= c && c <= 6 {
            Err(DetectError::Internal(c))
        } else {
            Err(DetectError::Unexpected(code))
        },
        None => Err(DetectError::Unexpected(None)),
    }
}

/// Every exit status maps to exactly one outcome: success for 0, one error
/// per documented code, and `Unexpected` for every other code or none. No
/// exit status maps to a manifest error.
pub proof fn lemma_exit_mapping_total(code: Option<i32>)
    ensures
        exit_outcome(code) is Ok <==> code == Some(0i32),
        exit_outcome(code) == Err::<(), DetectError>(DetectError::NoUnitFound) <==> code == Some(1i32),
        exit_outcome(code) == Err::<(), DetectError>(DetectError::MultipleUnitsFound) <==> code == Some(2i32),
        (exists|c: i32| exit_outcome(code) == Err::<(), DetectError>(DetectError::Internal(c)))
            <==> (code is Some && 3 <= code.unwrap() <= 6),
        forall|c: i32|
            code == Some(c) && 3 <= c <= 6 ==> exit_outcome(code) == Err::<(), DetectError>(
                DetectError::Internal(c),
            ),
        exit_outcome(code) == Err::<(), DetectError>(DetectError::Unexpected(code)) <==> (code is None
            || code.unwrap() < 0 || code.unwrap() > 6),
        exit_outcome(code) != Err::<(), DetectError>(DetectError::ManifestUnreadable),
{
    if code is Some && 3 <= code.unwrap() <= 6 {
        assert(exit_outcome(code) == Err::<(), DetectError>(DetectError::Internal(code.unwrap())));
    }
}

impl DetectError {
    /// The short title that identifies the failure.
    pub fn title(&self) -> (r: &'static str)
        ensures
            *self == DetectError::NoUnitFound ==> r@ == "No functions found"@,
            *self == DetectError::MultipleUnitsFound ==> r@ == "Multiple functions found"@,
            (self is Internal || self is Unexpected) ==> r@ == "Detection failed"@,
            *self == DetectError::ManifestUnreadable ==> r@ == "Function manifest unreadable"@,
    {
        match self {
            DetectError::NoUnitFound => "No functions found",
            DetectError::MultipleUnitsFound => "Multiple functions found",
            DetectError::Internal(_) => "Detection failed",
            DetectError::Unexpected(_) => "Detection failed",
            DetectError::ManifestUnreadable => "Function manifest unreadable",
        }
    }

    /// The explanation shown to the user beneath the title; a detector code
    /// is given in decimal.
    pub fn message(&self) -> (r: String)
        ensures
            *self == DetectError::NoUnitFound ==> r@
                == "\nYour project does not seem to contain any Java functions.\nThe output above might contain information about issues with your function.\n"@,
            *self == DetectError::MultipleUnitsFound ==> r@
                == "\nYour project contains multiple Java functions.\nCurrently, only projects that contain exactly one (1) function are supported.\n"@,
            self matches DetectError::Internal(c) ==> r@ == "Function detection failed with internal error \""@
                + decimal_of(c as int) + "\""@,
            self matches DetectError::Unexpected(Some(c)) ==> r@
                == "\nFunction detection failed with unexpected error code "@ + decimal_of(c as int)
                + ".\nThe output above might contain hints what caused this error to happen.\n"@,
            *self == DetectError::Unexpected(None) ==> r@
                == "\nFunction detection ended without an exit code.\nThe output above might contain hints what caused this error to happen.\n"@,
            *self == DetectError::ManifestUnreadable ==> r@
                == "\nFunction detection succeeded but left no readable function-bundle.toml.\n"@,
    {
        match self {
            DetectError::NoUnitFound => String::from_str(
                "\nYour project does not seem to contain any Java functions.\nThe output above might contain information about issues with your function.\n",
            ),
            DetectError::MultipleUnitsFound => String::from_str(
                "\nYour project contains multiple Java functions.\nCurrently, only projects that contain exactly one (1) function are supported.\n",
            ),
            DetectError::Internal(c) => {
                let head = String::from_str("Function detection failed with internal error \"");
                head.concat(decimal_text(*c).as_str()).concat("\"")
            },
            DetectError::Unexpected(Some(c)) => {
                let head = String::from_str(
                    "\nFunction detection failed with unexpected error code ",
                );
                head.concat(decimal_text(*c).as_str()).concat(
                    ".\nThe output above might contain hints what caused this error to happen.\n",
                )
            },
            DetectError::Unexpected(None) => String::from_str(
                "\nFunction detection ended without an exit code.\nThe output above might contain hints what caused this error to happen.\n",
            ),
            DetectError::ManifestUnreadable => String::from_str(
                "\nFunction detection succeeded but left no readable function-bundle.toml.\n",
            ),
        }
    }
}

/// What the detector reports of the function it found, read from the
/// `[function]` table of its manifest.
#[derive(Clone, Debug)]
pub struct UnitManifest {
    /// `function.class`
    pub class_name: String,
    /// `function.payload_class`
    pub payload_type: String,
    /// `function.payload_media_type`
    pub payload_media_type: String,
    /// `function.return_class`
    pub return_type: String,
    /// `function.return_media_type`
    pub return_media_type: String,
}

impl View for UnitManifest {
    type V = (Seq<char>, Seq<char>, Seq<char>, Seq<char>, Seq<char>);

    open spec fn view(&self) -> Self::V {
        (
            self.class_name@,
            self.payload_type@,
            self.payload_media_type@,
            self.return_type@,
            self.return_media_type@,
        )
    }
}

/// The manifest built from its five looked-up values: present only when all are.
pub open spec fn manifest_outcome(
    class_name: Option<Seq<char>>,
    payload_type: Option<Seq<char>>,
    payload_media_type: Option<Seq<char>>,
    return_type: Option<Seq<char>>,
    return_media_type: Option<Seq<char>>,
) -> Option<(Seq<char>, Seq<char>, Seq<char>, Seq<char>, Seq<char>)> {
    match (class_name, payload_type, payload_media_type, return_type, return_media_type) {
        (Some(a), Some(b), Some(c), Some(d), Some(e)) => Some((a, b, c, d, e)),
        _ => None,
    }
}

/// The key path of a field of the manifest's `[function]` table.
pub open spec fn manifest_key(field: Seq<char>) -> Seq<Seq<char>> {
    seq!["function"@, field]
}

/// The manifest that the text of a `function-bundle.toml` describes, if any.
pub open spec fn manifest_of(text: &str) -> Option<
    (Seq<char>, Seq<char>, Seq<char>, Seq<char>, Seq<char>),
> {
    manifest_outcome(
        string_in(text, manifest_key("class"@)),
        string_in(text, manifest_key("payload_class"@)),
        string_in(text, manifest_key("payload_media_type"@)),
        string_in(text, manifest_key("return_class"@)),
        string_in(text, manifest_key("return_media_type"@)),
    )
}

/// The view of an optional manifest.
pub open spec fn manifest_view(m: Option<UnitManifest>) -> Option<
    (Seq<char>, Seq<char>, Seq<char>, Seq<char>, Seq<char>),
> {
    match m {
        Some(m) => Some(m@),
        None => None,
    }
}

/// Builds the manifest from its five looked-up values.
pub fn manifest_from_values(
    class_name: Option<String>,
    payload_type: Option<String>,
    payload_media_type: Option<String>,
    return_type: Option<String>,
    return_media_type: Option<String>,
) -> (r: Option<UnitManifest>)
    ensures
        manifest_view(r) == manifest_outcome(
            opt_view(class_name),
            opt_view(payload_type),
            opt_view(payload_media_type),
            opt_view(return_type),
            opt_view(return_media_type),
        ),
{
    match (class_name, payload_type, payload_media_type, return_type, return_media_type) {
        (Some(a), Some(b), Some(c), Some(d), Some(e)) => Some(
            UnitManifest {
                class_name: a,
                payload_type: b,
                payload_media_type: c,
                return_type: d,
                return_media_type: e,
            },
        ),
        _ => None,
    }
}

fn manifest_field(text: &str, field: &str) -> (r: Option<String>)
    ensures
        opt_view(r) == string_in(text, manifest_key(field@)),
{
    if !is_parser_safe(text) {
        return None;
    }
    let path = ["function", field];
    assert(key_path(path@) =~= manifest_key(field@));
    match lookup_string(text, path.as_slice()) {
        Some(v) => v,
        None => None,
    }
}

/// Reads the detector's manifest from the text of `function-bundle.toml`.
pub fn parse_manifest(text: &str) -> (r: Option<UnitManifest>)
    ensures
        manifest_view(r) == manifest_of(text),
{
    let class_name = manifest_field(text, "class");
    let payload_type = manifest_field(text, "payload_class");
    let payload_media_type = manifest_field(text, "payload_media_type");
    let return_type = manifest_field(text, "return_class");
    let return_media_type = manifest_field(text, "return_media_type");
    manifest_from_values(class_name, payload_type, payload_media_type, return_type, return_media_type)
}

/// The view of a detection result.
pub open spec fn detection_view(r: Result<UnitManifest, DetectError>) -> Result<
    (Seq<char>, Seq<char>, Seq<char>, Seq<char>, Seq<char>),
    DetectError,
> {
    match r {
        Ok(m) => Ok(m@),
        Err(e) => Err(e),
    }
}

/// The result of detection, given the detector's exit code and the text of
/// the manifest (`None` where the file is absent): an exit-code failure
/// whatever the manifest; after success, the manifest or `ManifestUnreadable`.
pub open spec fn detection_outcome(code: Option<i32>, manifest: Option<&str>) -> Result<
    (Seq<char>, Seq<char>, Seq<char>, Seq<char>, Seq<char>),
    DetectError,
> {
    match exit_outcome(code) {
        Err(e) => Err(e),
        Ok(_) => match manifest {
            None => Err(DetectError::ManifestUnreadable),
            Some(text) => match manifest_of(text) {
                Some(m) => Ok(m),
                None => Err(DetectError::ManifestUnreadable),
            },
        },
    }
}

/// Decides the outcome of detection from the detector's exit code and, only
/// when that code is a success, the manifest it wrote.
pub fn detection_result(code: Option<i32>, manifest: Option<&str>) -> (r: Result<
    UnitManifest,
    DetectError,
>)
    ensures
        detection_view(r) == detection_outcome(code, manifest),
        exit_outcome(code) matches Err(e) ==> r == Err::<UnitManifest, DetectError>(e),
{
    match classify_exit(code) {
        Err(e) => Err(e),
        Ok(()) => match manifest {
            None => Err(DetectError::ManifestUnreadable),
            Some(text) => match parse_manifest(text) {
                Some(m) => Ok(m),
                None => Err(DetectError::ManifestUnreadable),
            },
        },
    }
}

/// The detector's command line: the runtime artifact run by `java` with the
/// `bundle` command, the app directory and the layer that receives the manifest.
pub fn detector_command(runtime_artifact: &str, app_dir: &str, layer_dir: &str) -> (r: Vec<String>)
    ensures
        r@.len() == 6,
        r@[0]@ == "java"@,
        r@[1]@ == "-jar"@,
        r@[2]@ == runtime_artifact@,
        r@[3]@ == "bundle"@,
        r@[4]@ == app_dir@,
        r@[5]@ == layer_dir@,
{
    let mut r: Vec<String> = Vec::new();
    r.push(String::from_str("java"));
    r.push(String::from_str("-jar"));
    r.push(String::from_str(runtime_artifact));
    r.push(String::from_str("bundle"));
    r.push(String::from_str(app_dir));
    r.push(String::from_str(layer_dir));
    r
}

} // verus!
