use sgx_support::build_config::{configure_mode, configure_target, parse_sgx_mode, SgxMode};

#[test]
fn mode_values() {
    assert_eq!(parse_sgx_mode(None), SgxMode::Hardware);
    assert_eq!(parse_sgx_mode(Some("HW")), SgxMode::Hardware);
    assert_eq!(parse_sgx_mode(Some("SIM")), SgxMode::Simulation);
    assert_eq!(parse_sgx_mode(Some("SW")), SgxMode::Simulation);
    assert_eq!(parse_sgx_mode(Some("HYPER")), SgxMode::Hyper);
    assert_eq!(parse_sgx_mode(Some("sim")), SgxMode::Hardware);
    assert_eq!(parse_sgx_mode(Some("")), SgxMode::Hardware);
}

#[test]
fn hardware_mode_emits_only_rerun_lines() {
    let mut out = Vec::new();
    assert_eq!(configure_mode(false, false, None, &mut out), Ok(()));
    assert_eq!(
        out,
        vec!["cargo:rerun-if-env-changed=SGX_MODE", "cargo:rerun-if-changed=build.rs"]
    );
}

#[test]
fn simulation_mode_emits_sim_cfg() {
    let mut out = Vec::new();
    assert_eq!(configure_mode(true, false, Some("SW"), &mut out), Ok(()));
    assert_eq!(
        out,
        vec![
            "cargo:rerun-if-env-changed=SGX_MODE",
            "cargo:rerun-if-changed=build.rs",
            "cargo:rustc-cfg=feature=\"sim\"",
        ]
    );
}

#[test]
fn hyper_mode_emits_hyper_cfg() {
    let mut out = vec!["earlier"];
    assert_eq!(configure_mode(false, true, Some("HYPER"), &mut out), Ok(()));
    assert_eq!(
        out,
        vec![
            "earlier",
            "cargo:rerun-if-env-changed=SGX_MODE",
            "cargo:rerun-if-changed=build.rs",
            "cargo:rustc-cfg=feature=\"hyper\"",
        ]
    );
}

#[test]
fn conflicting_features_are_refused() {
    let mut out = Vec::new();
    assert_eq!(configure_mode(true, true, Some("SIM"), &mut out), Err("Defined feature is illegal."));
    assert_eq!(
        out,
        vec![
            "cargo:rerun-if-env-changed=SGX_MODE",
            "cargo:rerun-if-changed=build.rs",
            "cargo:warning=Sim feature and hyper feature, only one or neither of them can be enabled.",
        ]
    );
}

#[test]
fn sdk_target_gets_sdk_cfg() {
    let mut out = Vec::new();
    configure_target("x86_64-sgx_sdk-linux-sgx", &mut out);
    assert_eq!(out, vec!["cargo:rustc-cfg=feature=\"use_sgx_sdk\""]);
    let mut other = Vec::new();
    configure_target("x86_64-unknown-linux-gnu", &mut other);
    assert!(other.is_empty());
}
