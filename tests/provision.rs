use jvm_function_invoker_buildpack::fingerprint::fingerprint;
use jvm_function_invoker_buildpack::toml_doc::{is_parser_safe, MAX_NESTING};
use jvm_function_invoker_buildpack::layer::{detection_layer_facets, runtime_layer_facets, LayerFacets};
use jvm_function_invoker_buildpack::provision::{
    after_download, check_integrity, descriptor_from_values, InstallStep, download_outcome, is_valid, plan_runtime,
    read_descriptor, verify_artifact, ConfigError, ProvisionError, RuntimeDescriptor, RuntimePlan,
};

fn descriptor(url: &str, fp: &str) -> RuntimeDescriptor {
    RuntimeDescriptor { url: url.to_string(), expected_fingerprint: fp.to_string() }
}

#[test]
fn cache_gate_truth_table() {
    let d = descriptor("https://x/runtime.jar", "abc");
    let same = "abc".to_string();
    let other = "def".to_string();
    assert!(is_valid(&d, &same, true));
    assert!(!is_valid(&d, &same, false));
    assert!(!is_valid(&d, &other, true));
    assert!(!is_valid(&d, &other, false));
}

#[test]
fn empty_cached_fingerprint_never_matches() {
    let d = descriptor("https://x/runtime.jar", "abc");
    assert!(!is_valid(&d, &String::new(), true));
}

#[test]
fn first_run_installs_then_second_run_reuses() {
    let d = descriptor("https://x/runtime.jar", "abc");
    // Fresh layer: nothing recorded, no artifact.
    let mut cached = String::new();
    let mut exists = false;
    let mut fetches = 0;
    for _ in 0..2 {
        match plan_runtime(&d, &cached, exists) {
            RuntimePlan::Reuse => {}
            RuntimePlan::Install(w) => {
                assert_eq!(w.facets, LayerFacets { launch: true, build: false, cache: true });
                assert_eq!(w.url, "https://x/runtime.jar");
                assert_eq!(w.fingerprint, "abc");
                cached = w.fingerprint.clone();
                fetches += 1;
                assert!(download_outcome(&d, true).is_ok());
                exists = true;
            }
        }
    }
    assert_eq!(fetches, 1);
    assert_eq!(cached, "abc");
    assert!(matches!(plan_runtime(&d, &cached, exists), RuntimePlan::Reuse));
}

#[test]
fn changed_descriptor_installs_again() {
    let d = descriptor("https://x/runtime-2.jar", "def");
    assert!(matches!(plan_runtime(&d, &"abc".to_string(), true), RuntimePlan::Install(_)));
}

#[test]
fn removed_artifact_installs_again() {
    let d = descriptor("https://x/runtime.jar", "abc");
    assert!(matches!(plan_runtime(&d, &"abc".to_string(), false), RuntimePlan::Install(_)));
}

#[test]
fn layer_facets() {
    assert_eq!(runtime_layer_facets(), LayerFacets { launch: true, build: false, cache: true });
    assert_eq!(detection_layer_facets(), LayerFacets { launch: true, build: false, cache: false });
}

#[test]
fn download_failure_names_url() {
    let d = descriptor("https://x/runtime.jar", "abc");
    let e = download_outcome(&d, false).unwrap_err();
    assert!(matches!(&e, ProvisionError::Download { url } if url == "https://x/runtime.jar"));
    assert_eq!(e.title(), "Download of function runtime failed");
    assert_eq!(
        e.message(),
        "\nWe couldn't download the function runtime at https://x/runtime.jar.\n\nThis is usually caused by intermittent network issues. Please try again and contact us should the error persist.\n"
    );
}

#[test]
fn integrity_mismatch_is_an_error() {
    let d = descriptor("https://x/runtime.jar", "abc");
    assert!(check_integrity(&d, &"abc".to_string()).is_ok());
    let e = check_integrity(&d, &"abd".to_string()).unwrap_err();
    assert!(matches!(&e, ProvisionError::Integrity { expected, actual } if expected == "abc" && actual == "abd"));
    assert_eq!(e.title(), "Function runtime integrity check failed");
}

#[test]
fn verify_artifact_hashes_content() {
    let good = descriptor(
        "https://x/runtime.jar",
        "ba7816bf8f01cfea414140de5dae2223b00361a396177a9cb410ff61f20015ad",
    );
    assert!(verify_artifact(&good, b"abc").is_ok());
    let e = verify_artifact(&good, b"abd").unwrap_err();
    assert!(matches!(e, ProvisionError::Integrity { .. }));
    // The content itself is not its fingerprint.
    let literal = descriptor("https://x/runtime.jar", "abc");
    assert!(verify_artifact(&literal, b"abc").is_err());
}

#[test]
fn read_descriptor_from_configuration() {
    let text = "[metadata.runtime]\nurl = \"https://x/runtime.jar\"\nsha256 = \"abc\"\n";
    let d = read_descriptor(text).unwrap();
    assert_eq!(d.url, "https://x/runtime.jar");
    assert_eq!(d.expected_fingerprint, "abc");
}

#[test]
fn read_descriptor_missing_keys() {
    assert_eq!(
        read_descriptor("[metadata.runtime]\nurl = \"https://x\"\n").unwrap_err(),
        ConfigError::MissingFingerprint
    );
    assert_eq!(
        read_descriptor("[metadata.runtime]\nsha256 = \"abc\"\n").unwrap_err(),
        ConfigError::MissingUrl
    );
    assert_eq!(read_descriptor("[metadata]\n").unwrap_err(), ConfigError::MissingFingerprint);
    assert_eq!(
        read_descriptor("[metadata.runtime]\nurl = 3\nsha256 = \"abc\"\n").unwrap_err(),
        ConfigError::MissingUrl
    );
}

#[test]
fn read_descriptor_malformed() {
    assert_eq!(read_descriptor("[metadata.runtime\nurl = ").unwrap_err(), ConfigError::Malformed);
}

#[test]
fn descriptor_from_values_reports_first_missing() {
    assert_eq!(descriptor_from_values(None, None).unwrap_err(), ConfigError::MissingFingerprint);
    assert_eq!(
        descriptor_from_values(Some("abc".to_string()), None).unwrap_err(),
        ConfigError::MissingUrl
    );
    let d = descriptor_from_values(Some("abc".to_string()), Some("u".to_string())).unwrap();
    assert_eq!((d.url.as_str(), d.expected_fingerprint.as_str()), ("u", "abc"));
}

#[test]
fn after_download_follows_integrity_setting() {
    let d = descriptor("https://x/runtime.jar", "abc");
    assert!(matches!(after_download(&d, false, true), InstallStep::Installed));
    assert!(matches!(after_download(&d, true, true), InstallStep::VerifyArtifact));
    assert!(matches!(
        after_download(&d, true, false),
        InstallStep::Fail(ProvisionError::Download { url }) if url == "https://x/runtime.jar"
    ));
    assert!(matches!(after_download(&d, false, false), InstallStep::Fail(_)));
}

#[test]
fn one_byte_change_fails_integrity_when_enabled() {
    let b: Vec<u8> = b"the published runtime artifact".to_vec();
    let mut b2 = b.clone();
    b2[7] ^= 0x20;
    assert_eq!(b2.len(), b.len());
    let d = RuntimeDescriptor { url: "https://x/runtime.jar".to_string(), expected_fingerprint: fingerprint(&b) };
    assert!(matches!(plan_runtime(&d, &String::new(), false), RuntimePlan::Install(_)));
    assert!(matches!(after_download(&d, true, true), InstallStep::VerifyArtifact));
    assert_ne!(fingerprint(&b2), fingerprint(&b));
    let e = verify_artifact(&d, &b2).unwrap_err();
    assert!(matches!(&e, ProvisionError::Integrity { actual, .. } if *actual == fingerprint(&b2)));
    assert_eq!(e.title(), "Function runtime integrity check failed");
    assert!(verify_artifact(&d, &b).is_ok());
}

#[test]
fn deeply_nested_configuration_is_malformed() {
    let text = format!("[metadata.runtime]\nurl = \"u\"\nsha256 = \"abc\"\nx = {}", "[".repeat(100_000));
    assert_eq!(read_descriptor(&text).unwrap_err(), ConfigError::Malformed);
    // Nesting within the bound still parses.
    let shallow = "[metadata.runtime]\nurl = \"u\"\nsha256 = \"abc\"\nx = [[[1]]]\n";
    assert_eq!(read_descriptor(shallow).unwrap().url, "u");
}

#[test]
fn config_error_messages() {
    assert_eq!(ConfigError::Malformed.message(), "buildpack.toml is not a valid TOML document, or nests too deeply to be read safely");
    assert_eq!(
        ConfigError::MissingFingerprint.message(),
        "buildpack.toml does not have `metadata.runtime.sha256` key"
    );
    assert_eq!(
        ConfigError::MissingUrl.message(),
        "buildpack.toml does not have `metadata.runtime.url` key"
    );
}

#[test]
fn parser_bound_measures_depth() {
    assert!(is_parser_safe(&"[".repeat(MAX_NESTING)));
    assert!(!is_parser_safe(&"{".repeat(MAX_NESTING + 1)));
    // Balanced nesting is measured by its depth, not by its count.
    assert!(is_parser_safe(&"x = [[1]]\n".repeat(1000)));
    // Brackets inside strings and comments do not count.
    assert!(is_parser_safe(&format!("a = \"{}\"\n", "[".repeat(1000))));
    assert!(is_parser_safe(&format!("b = '{}'\n", "{".repeat(1000))));
    assert!(is_parser_safe(&format!("c = \"\"\"x\"\"{}\"\"\"\"\n", "[".repeat(1000))));
    assert!(is_parser_safe(&format!("d = '''{}'''\n", "[".repeat(1000))));
    assert!(is_parser_safe(&format!("# {}\n", "[".repeat(1000))));
    assert!(is_parser_safe(&format!("e = \"\\\"{}\"\n", "[".repeat(1000))));
    // Dotted keys and table headers count one level per dot.
    assert!(!is_parser_safe(&format!("{}a = 1\n", "a.".repeat(MAX_NESTING + 1))));
    assert!(!is_parser_safe(&format!("[{}a]\n", "a.".repeat(MAX_NESTING))));
    assert!(is_parser_safe(&"a.b.c = 1\n".repeat(1000)));
}

#[test]
fn long_dotted_key_configuration_is_malformed() {
    let text = format!(
        "[metadata.runtime]\nurl = \"u\"\nsha256 = \"abc\"\n{}x = 1\n",
        "x.".repeat(100_000)
    );
    assert_eq!(read_descriptor(&text).unwrap_err(), ConfigError::Malformed);
}

#[test]
fn brackets_in_strings_do_not_reject_configuration() {
    let text = format!(
        "[metadata.runtime]\nurl = \"https://x/{}\"\nsha256 = \"abc\"\n# {}\n",
        "[]".repeat(500),
        "{".repeat(500)
    );
    let d = read_descriptor(&text).unwrap();
    assert_eq!(d.expected_fingerprint, "abc");
    assert!(d.url.starts_with("https://x/[]"));
}
