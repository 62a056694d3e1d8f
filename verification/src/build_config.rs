//! Decisions of the trusted-runtime build script: which `cargo:` directives
//! it emits for the enabled features, the `SGX_MODE` setting and the target.

use vstd::prelude::*;

verus! {

/// How the enclave runtime is to be built, as selected by `SGX_MODE`.
#[derive(Clone, Copy, Debug, PartialEq, Eq, Structural)]
pub enum SgxMode {
    /// Real SGX hardware (the default).
    Hardware,
    /// Software simulation (`SIM` or `SW`).
    Simulation,
    /// Hyper mode (`HYPER`).
    Hyper,
}

/// The characters of an optional string.
pub open spec fn opt_chars(value: Option<&str>) -> Option<Seq<char>> {
    match value {
        Some(v) => Some(v@),
        None => None,
    }
}

/// The mode an `SGX_MODE` value selects: `SIM` and `SW` select simulation,
/// `HYPER` selects hyper mode, and anything else, or no value at all,
/// selects hardware.
pub open spec fn mode_of(value: Option<Seq<char>>) -> SgxMode {
    match value {
        Some(v) => if v == "SIM"@ || v == "SW"@ {
            SgxMode::Simulation
        } else if v == "HYPER"@ {
            SgxMode::Hyper
        } else {
            SgxMode::Hardware
        },
        None => SgxMode::Hardware,
    }
}

/// The directives that are always emitted first.
pub open spec fn prologue_lines() -> Seq<Seq<char>> {
    seq!["cargo:rerun-if-env-changed=SGX_MODE"@, "cargo:rerun-if-changed=build.rs"@]
}

/// The warning emitted when both the `sim` and the `hyper` feature are on.
pub open spec fn conflict_warning() -> Seq<char> {
    "cargo:warning=Sim feature and hyper feature, only one or neither of them can be enabled."@
}

/// The error the build script fails with when both features are on.
pub open spec fn conflict_error() -> Seq<char> {
    "Defined feature is illegal."@
}

/// The cfg directive that turns the `sim` feature on.
pub open spec fn sim_cfg() -> Seq<char> {
    "cargo:rustc-cfg=feature=\"sim\""@
}

/// The cfg directive that turns the `hyper` feature on.
pub open spec fn hyper_cfg() -> Seq<char> {
    "cargo:rustc-cfg=feature=\"hyper\""@
}

/// The cfg directive that turns the `use_sgx_sdk` feature on.
pub open spec fn sdk_cfg() -> Seq<char> {
    "cargo:rustc-cfg=feature=\"use_sgx_sdk\""@
}

/// The target triple for which the SGX SDK toolchain is used.
pub open spec fn sdk_target() -> Seq<char> {
    "x86_64-sgx_sdk-linux-sgx"@
}

/// Whether both mode features are enabled at once, which is refused.
pub open spec fn features_conflict(sim_feature: bool, hyper_feature: bool) -> bool {
    sim_feature && hyper_feature
}

/// The directives emitted before the target is looked at.
pub open spec fn mode_lines(sim_feature: bool, hyper_feature: bool, mode: SgxMode) -> Seq<Seq<char>> {
    if features_conflict(sim_feature, hyper_feature) {
        prologue_lines().push(conflict_warning())
    } else {
        match mode {
            SgxMode::Simulation => prologue_lines().push(sim_cfg()),
            SgxMode::Hyper => prologue_lines().push(hyper_cfg()),
            SgxMode::Hardware => prologue_lines(),
        }
    }
}

/// The directives emitted for a target triple.
pub open spec fn target_lines(target: Seq<char>) -> Seq<Seq<char>> {
    if target == sdk_target() {
        seq![sdk_cfg()]
    } else {
        seq![]
    }
}

/// The characters of each directive in a list.
pub open spec fn lines_chars(lines: Seq<&str>) -> Seq<Seq<char>> {
    lines.map_values(|l: &str| l@)
}

/// Whether two strings hold the same characters.
fn same_text(a: &str, b: &str) -> (r: bool)
    ensures
        r == (a@ == b@),
{
    let x = a.to_owned();
    let y = b.to_owned();
    x == y
}

/// The mode that an `SGX_MODE` value (`None` when unset) selects.
pub fn parse_sgx_mode(value: Option<&str>) -> (m: SgxMode)
    ensures
        m == mode_of(opt_chars(value)),
{
    match value {
        Some(v) => {
            if same_text(v, "SIM") || same_text(v, "SW") {
                SgxMode::Simulation
            } else if same_text(v, "HYPER") {
                SgxMode::Hyper
            } else {
                SgxMode::Hardware
            }
        },
        None => SgxMode::Hardware,
    }
}

/// Appends the directives that do not depend on the target to `out`, in the
/// order they are emitted: the two rerun directives, then either the
/// conflict warning, when both `sim_feature` and `hyper_feature` are on, or
/// the cfg directive of the mode `sgx_mode` selects, if any. Returns the
/// conflict error exactly when both features are on.
pub fn configure_mode(
    sim_feature: bool,
    hyper_feature: bool,
    sgx_mode: Option<&str>,
    out: &mut Vec<&'static str>,
) -> (r: Result<(), &'static str>)
    ensures
        lines_chars(final(out)@) == lines_chars(old(out)@) + mode_lines(
            sim_feature,
            hyper_feature,
            mode_of(opt_chars(sgx_mode)),
        ),
        r is Err <==> features_conflict(sim_feature, hyper_feature),
        r matches Err(e) ==> e@ == conflict_error(),
{
    let ghost before = lines_chars(out@);
    out.push("cargo:rerun-if-env-changed=SGX_MODE");
    out.push("cargo:rerun-if-changed=build.rs");
    if sim_feature && hyper_feature {
        out.push(
            "cargo:warning=Sim feature and hyper feature, only one or neither of them can be enabled.",
        );
        assert(lines_chars(out@) =~= before + mode_lines(
            sim_feature,
            hyper_feature,
            mode_of(opt_chars(sgx_mode)),
        ));
        return Err("Defined feature is illegal.");
    }
    let mode = parse_sgx_mode(sgx_mode);
    match mode {
        SgxMode::Simulation => out.push("cargo:rustc-cfg=feature=\"sim\""),
        SgxMode::Hyper => out.push("cargo:rustc-cfg=feature=\"hyper\""),
        SgxMode::Hardware => {},
    }
    assert(lines_chars(out@) =~= before + mode_lines(sim_feature, hyper_feature, mode));
    Ok(())
}

/// Appends the directive for `target` to `out`: the `use_sgx_sdk` cfg when
/// the target is the SGX SDK triple, nothing otherwise.
pub fn configure_target(target: &str, out: &mut Vec<&'static str>)
    ensures
        lines_chars(final(out)@) == lines_chars(old(out)@) + target_lines(target@),
{
    let ghost before = lines_chars(out@);
    if same_text(target, "x86_64-sgx_sdk-linux-sgx") {
        out.push("cargo:rustc-cfg=feature=\"use_sgx_sdk\"");
    }
    assert(lines_chars(out@) =~= before + target_lines(target@));
}

} // verus!

verus! {

/// Whatever the features and the mode, the two rerun directives come first;
/// a `sim` or `hyper` cfg is emitted exactly when the features do not
/// conflict and the mode selects it, so the two are never emitted together,
/// and a conflict emits neither.
pub proof fn lemma_mode_lines_shape(sim_feature: bool, hyper_feature: bool, mode: SgxMode)
    ensures
        mode_lines(sim_feature, hyper_feature, mode).subrange(0, 2) == prologue_lines(),
        mode_lines(sim_feature, hyper_feature, mode).contains(sim_cfg()) <==> (!features_conflict(
            sim_feature,
            hyper_feature,
        ) && mode == SgxMode::Simulation),
        mode_lines(sim_feature, hyper_feature, mode).contains(hyper_cfg()) <==> (
        !features_conflict(sim_feature, hyper_feature) && mode == SgxMode::Hyper),
        !(mode_lines(sim_feature, hyper_feature, mode).contains(sim_cfg()) && mode_lines(
            sim_feature,
            hyper_feature,
            mode,
        ).contains(hyper_cfg())),
{
    reveal_strlit("cargo:rerun-if-env-changed=SGX_MODE");
    reveal_strlit("cargo:rerun-if-changed=build.rs");
    reveal_strlit(
        "cargo:warning=Sim feature and hyper feature, only one or neither of them can be enabled.",
    );
    reveal_strlit("cargo:rustc-cfg=feature=\"sim\"");
    reveal_strlit("cargo:rustc-cfg=feature=\"hyper\"");
    let lines = mode_lines(sim_feature, hyper_feature, mode);
    assert(lines.subrange(0, 2) =~= prologue_lines());
    assert(sim_cfg() != hyper_cfg()) by {
        assert(sim_cfg()[25] != hyper_cfg()[25]);
    }
    assert(!prologue_lines().contains(sim_cfg())) by {
        assert(prologue_lines()[0][0] != sim_cfg()[0] || prologue_lines()[0].len() != sim_cfg().len());
        assert(prologue_lines()[1].len() != sim_cfg().len());
    }
    assert(!prologue_lines().contains(hyper_cfg())) by {
        assert(prologue_lines()[0].len() != hyper_cfg().len());
        assert(prologue_lines()[1][7] != hyper_cfg()[7]);
    }
    assert(conflict_warning() != sim_cfg()) by {
        assert(conflict_warning().len() != sim_cfg().len());
    }
    assert(conflict_warning() != hyper_cfg()) by {
        assert(conflict_warning().len() != hyper_cfg().len());
    }
    if !features_conflict(sim_feature, hyper_feature) {
        match mode {
            SgxMode::Simulation => {
                assert(lines[2] == sim_cfg());
            },
            SgxMode::Hyper => {
                assert(lines[2] == hyper_cfg());
            },
            SgxMode::Hardware => {},
        }
    }
}

/// The directives emitted before the target is looked at are exactly the
/// two rerun lines followed by at most one more line: the conflict warning
/// when both features are on, else the `sim` cfg for simulation, the
/// `hyper` cfg for hyper mode, and nothing for hardware. In particular the
/// SDK cfg is never among them.
pub proof fn lemma_mode_lines_exact(sim_feature: bool, hyper_feature: bool, mode: SgxMode)
    ensures
        ({
            let lines = mode_lines(sim_feature, hyper_feature, mode);
            &&& lines.len() == if sim_feature && hyper_feature || mode != SgxMode::Hardware {
                3int
            } else {
                2int
            }
            &&& lines[0] == "cargo:rerun-if-env-changed=SGX_MODE"@
            &&& lines[1] == "cargo:rerun-if-changed=build.rs"@
            &&& sim_feature && hyper_feature ==> lines[2]
                == "cargo:warning=Sim feature and hyper feature, only one or neither of them can be enabled."@
            &&& !(sim_feature && hyper_feature) && mode == SgxMode::Simulation ==> lines[2]
                == "cargo:rustc-cfg=feature=\"sim\""@
            &&& !(sim_feature && hyper_feature) && mode == SgxMode::Hyper ==> lines[2]
                == "cargo:rustc-cfg=feature=\"hyper\""@
            &&& !lines.contains("cargo:rustc-cfg=feature=\"use_sgx_sdk\""@)
        }),
{
    reveal_strlit("cargo:rerun-if-env-changed=SGX_MODE");
    reveal_strlit("cargo:rerun-if-changed=build.rs");
    reveal_strlit(
        "cargo:warning=Sim feature and hyper feature, only one or neither of them can be enabled.",
    );
    reveal_strlit("cargo:rustc-cfg=feature=\"sim\"");
    reveal_strlit("cargo:rustc-cfg=feature=\"hyper\"");
    reveal_strlit("cargo:rustc-cfg=feature=\"use_sgx_sdk\"");
    let lines = mode_lines(sim_feature, hyper_feature, mode);
    let sdk = "cargo:rustc-cfg=feature=\"use_sgx_sdk\""@;
    assert forall|i: int| 0 <= i < lines.len() implies lines[i] != sdk by {
        assert(lines[i].len() != sdk.len());
    }
}

/// An `SGX_MODE` value selects simulation exactly when it is `SIM` or `SW`,
/// hyper mode exactly when it is `HYPER`, and hardware otherwise,
/// including when it is unset.
pub proof fn lemma_mode_values(value: Option<Seq<char>>)
    ensures
        mode_of(value) == SgxMode::Simulation <==> (value == Some("SIM"@) || value == Some(
            "SW"@,
        )),
        mode_of(value) == SgxMode::Hyper <==> value == Some("HYPER"@),
        mode_of(value) == SgxMode::Hardware <==> !(value == Some("SIM"@) || value == Some("SW"@)
            || value == Some("HYPER"@)),
{
    reveal_strlit("SIM");
    reveal_strlit("SW");
    reveal_strlit("HYPER");
    assert("HYPER"@.len() != "SIM"@.len() && "HYPER"@.len() != "SW"@.len());
}

/// For the SGX SDK triple the target directives are exactly the SDK cfg;
/// for every other target there are none.
pub proof fn lemma_target_lines_exact(target: Seq<char>)
    ensures
        target == "x86_64-sgx_sdk-linux-sgx"@ ==> target_lines(target) == seq![
            "cargo:rustc-cfg=feature=\"use_sgx_sdk\""@,
        ],
        target != "x86_64-sgx_sdk-linux-sgx"@ ==> target_lines(target).len() == 0,
{
}

/// The default mode, when `SGX_MODE` is unset, is hardware, and the SGX SDK
/// cfg is emitted only for the SDK target triple.
pub proof fn lemma_defaults(target: Seq<char>)
    ensures
        mode_of(None) == SgxMode::Hardware,
        target_lines(target).contains(sdk_cfg()) <==> target == sdk_target(),
{
    if target == sdk_target() {
        assert(target_lines(target)[0] == sdk_cfg());
    }
}

} // verus!
