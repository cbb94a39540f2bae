//! End-to-end exercises of the pipeline with a simulated host: an in-memory
//! working directory, a toolchain that "compiles" a body of the shape
//! `a + K` into an artifact adding `K`, and a loader handing out handles.

use std::collections::HashMap;

use plrust::{
    crate_name, dec_string, dummy_user_fn, latest_generation, next_generation, output_has_warnings,
    parse_generation, symbol_name, ArgSpec, BuildOutput, Config, EvalPlan, Invocation, LoadFault,
    PlRustError, Session, SourceUnit, StateGenerated, StateLoaded,
};

fn config(use_generations: bool) -> Config {
    Config { use_generations, dll_suffix: String::from(".so") }
}

fn int_unit(body: &str) -> SourceUnit {
    SourceUnit {
        args: vec![ArgSpec {
            name: String::from("a"),
            value_type: String::from("i64"),
            nullable: false,
        }],
        return_type: String::from("i64"),
        return_nullable: false,
        body: String::from(body),
    }
}

/// The host side of the simulation: disk names, fake artifacts, handles.
struct FakeHost {
    /// Whether the platform's linker caching defect is simulated, so
    /// artifact names carry generations.
    generational: bool,
    /// File names in the working directory.
    listing: Vec<String>,
    /// Artifact name -> the constant its compiled body adds.
    artifacts: HashMap<String, i64>,
    /// Loader handle -> the constant of the artifact it mapped.
    libraries: HashMap<u64, i64>,
    next_handle: u64,
}

impl FakeHost {
    fn with_generations(generational: bool) -> FakeHost {
        FakeHost {
            generational,
            listing: Vec::new(),
            artifacts: HashMap::new(),
            libraries: HashMap::new(),
            next_handle: 1,
        }
    }

    /// Runs the compile operation for `body` (of the shape `a + K`),
    /// placing the artifact on the fake disk.
    fn compile(&mut self, fn_oid: u32, body: &str) -> Result<String, PlRustError> {
        let unit = int_unit(body);
        let generated = StateGenerated::generate(fn_oid, &unit)?;
        // Provisioning overwrites; the fake disk tracks artifacts only.
        let _files = generated.provision_files();
        let provisioned = generated.provisioned();
        let artifact = provisioned
            .artifact_name(self.generational, ".so", &self.listing)
            .expect("generation counter exhausted");
        let output = BuildOutput { stdout: String::new(), stderr: String::new() };
        let (built, _output) = provisioned.finish_build(true, output, artifact)?;
        let delta: i64 = body.trim_start_matches("a +").trim().parse().unwrap();
        self.artifacts.insert(built.shared_object.clone(), delta);
        if !self.listing.contains(&built.shared_object) {
            self.listing.push(built.shared_object.clone());
        }
        Ok(built.shared_object)
    }

    /// Performs one evaluate operation against the session.
    fn evaluate(&mut self, session: &mut Session, fn_oid: u32, arg: i64) -> Result<i64, PlRustError> {
        let plan = session.evaluate_function(fn_oid, arg as u64, &self.listing);
        match plan {
            EvalPlan::Invoke(inv) => Ok(self.invoke(inv)),
            EvalPlan::NeedLoad { shared_object, symbol_name } => {
                let outcome: Result<u64, LoadFault> = match self.artifacts.get(&shared_object) {
                    Some(delta) => {
                        let handle = self.next_handle;
                        self.next_handle += 1;
                        self.libraries.insert(handle, *delta);
                        Ok(handle)
                    }
                    None => Err(LoadFault::OpenFailed(String::from("no such artifact"))),
                };
                let state = StateLoaded::load(fn_oid, shared_object, symbol_name, outcome)?;
                let inv = state.evaluate(arg as u64);
                session.cache_loaded(state);
                Ok(self.invoke(inv))
            }
        }
    }

    /// The "native call": the fake artifact adds its constant.
    fn invoke(&self, inv: Invocation) -> i64 {
        inv.fcinfo as i64 + self.libraries.get(&inv.library).copied().expect("stale handle")
    }
}

#[test]
fn unload_when_nothing_loaded_is_noop() {
    let mut session = Session::new(config(false));
    assert!(session.unload_function(7).is_none());
    assert_eq!(session.cache_len(), 0);
    assert_eq!(session.load_count(), 0);
    // Repeating it is just as harmless.
    assert!(session.unload_function(7).is_none());
    assert_eq!(session.cache_len(), 0);
}

#[test]
fn compile_then_evaluate_caches_one_entry() {
    let mut host = FakeHost::with_generations(false);
    let mut session = Session::new(config(false));
    host.compile(42, "a + 1").unwrap();
    let r = host.evaluate(&mut session, 42, 5).unwrap();
    assert_eq!(r, 6);
    assert_eq!(session.cache_len(), 1);
    assert!(session.is_loaded(42));
}

#[test]
fn evaluate_twice_reuses_handle() {
    let mut host = FakeHost::with_generations(false);
    let mut session = Session::new(config(false));
    host.compile(42, "a + 1").unwrap();
    assert_eq!(host.evaluate(&mut session, 42, 5).unwrap(), 6);
    assert_eq!(session.load_count(), 1);
    assert_eq!(host.evaluate(&mut session, 42, 10).unwrap(), 11);
    // The second call hit the cache: no second load happened.
    assert_eq!(session.load_count(), 1);
    assert_eq!(session.cache_len(), 1);
}

#[test]
fn recompiling_twice_advances_generation_by_one() {
    let mut host = FakeHost::with_generations(true);
    let first = host.compile(7, "a + 1").unwrap();
    let second = host.compile(7, "a + 2").unwrap();
    assert_ne!(first, second);
    let g1 = parse_generation(&first, "plrust_fn_oid_7", ".so").unwrap();
    let g2 = parse_generation(&second, "plrust_fn_oid_7", ".so").unwrap();
    assert_eq!(g1, 0);
    assert_eq!(g2, 1);
    // The scan after two builds returns the higher value.
    assert_eq!(latest_generation(&host.listing, "plrust_fn_oid_7", ".so"), Some(1));
    assert_eq!(next_generation(&host.listing, "plrust_fn_oid_7", ".so"), Some(2));
}

#[test]
fn unload_then_evaluate_forces_one_fresh_load() {
    let mut host = FakeHost::with_generations(false);
    let mut session = Session::new(config(false));
    host.compile(42, "a + 1").unwrap();
    assert_eq!(host.evaluate(&mut session, 42, 5).unwrap(), 6);
    assert_eq!(session.load_count(), 1);
    let unloaded = session.unload_function(42).expect("was loaded");
    assert_eq!(unloaded.fn_oid, 42);
    assert_eq!(session.cache_len(), 0);
    // The artifact bytes at the path are unchanged; the reload still happens.
    assert_eq!(host.evaluate(&mut session, 42, 5).unwrap(), 6);
    assert_eq!(session.load_count(), 2);
    assert_eq!(session.cache_len(), 1);
}

#[test]
fn malformed_body_is_rejected_and_nothing_is_cached() {
    let mut host = FakeHost::with_generations(false);
    let mut session = Session::new(config(false));
    let err = host.compile(9, "a + (").unwrap_err();
    assert!(matches!(err, PlRustError::Template));
    assert_eq!(session.cache_len(), 0);
    // No artifact is reachable under the evaluate-time path either.
    let err = host.evaluate(&mut session, 9, 5).unwrap_err();
    assert!(matches!(err, PlRustError::Load(_)));
    assert_eq!(session.cache_len(), 0);
    assert_eq!(session.load_count(), 0);
}

#[test]
fn empty_body_is_rejected() {
    let unit = int_unit("");
    let r = StateGenerated::generate(3, &unit);
    assert!(matches!(r, Err(PlRustError::Template)));
}

#[test]
fn scenario_recompile_serves_new_code() {
    let mut host = FakeHost::with_generations(false);
    let mut session = Session::new(config(false));
    let artifact = host.compile(42, "a + 1").unwrap();
    // No generation segment on a non-defective platform.
    assert_eq!(artifact, "plrust_fn_oid_42.so");
    assert_eq!(host.evaluate(&mut session, 42, 5).unwrap(), 6);
    // Redefinition: unload, recompile in place, evaluate again.
    if let Some(state) = session.unload_function(42) {
        host.libraries.remove(&state.library);
    }
    let artifact = host.compile(42, "a + 2").unwrap();
    assert_eq!(artifact, "plrust_fn_oid_42.so");
    assert_eq!(host.evaluate(&mut session, 42, 5).unwrap(), 7);
}

#[test]
fn stale_cache_entry_keeps_running_old_code_until_unload() {
    // On a defective platform a rebuild mints a fresh path, but a worker
    // that has not unloaded keeps calling its old mapping.
    let mut host = FakeHost::with_generations(true);
    let mut session = Session::new(config(true));
    host.compile(7, "a + 1").unwrap();
    assert_eq!(host.evaluate(&mut session, 7, 5).unwrap(), 6);
    host.compile(7, "a + 2").unwrap();
    // No unload yet: the cached handle still serves the old code.
    assert_eq!(host.evaluate(&mut session, 7, 5).unwrap(), 6);
    assert_eq!(session.load_count(), 1);
    // After the explicit unload the scan picks the new generation.
    if let Some(state) = session.unload_function(7) {
        host.libraries.remove(&state.library);
    }
    assert_eq!(host.evaluate(&mut session, 7, 5).unwrap(), 7);
    assert_eq!(session.load_count(), 2);
}

#[test]
fn deterministic_names() {
    assert_eq!(crate_name(42), "plrust_fn_oid_42");
    assert_eq!(crate_name(0), "plrust_fn_oid_0");
    assert_eq!(symbol_name(42), "plrust_fn_oid_42_wrapper");
    assert_eq!(dec_string(0), "0");
    assert_eq!(dec_string(907), "907");
    assert_eq!(dec_string(u64::MAX), "18446744073709551615");
}

#[test]
fn parse_generation_accepts_only_matching_names() {
    assert_eq!(parse_generation("plrust_fn_oid_7_3.so", "plrust_fn_oid_7", ".so"), Some(3));
    assert_eq!(
        parse_generation("plrust_fn_oid_7_18446744073709551615.so", "plrust_fn_oid_7", ".so"),
        Some(u64::MAX)
    );
    // Value past the counter's width.
    assert_eq!(
        parse_generation("plrust_fn_oid_7_18446744073709551616.so", "plrust_fn_oid_7", ".so"),
        None
    );
    // No digits, wrong separator, wrong prefix, wrong suffix.
    assert_eq!(parse_generation("plrust_fn_oid_7_.so", "plrust_fn_oid_7", ".so"), None);
    assert_eq!(parse_generation("plrust_fn_oid_7x3.so", "plrust_fn_oid_7", ".so"), None);
    assert_eq!(parse_generation("other_fn_oid_7_3.so", "plrust_fn_oid_7", ".so"), None);
    assert_eq!(parse_generation("plrust_fn_oid_7_3.dylib", "plrust_fn_oid_7", ".so"), None);
    assert_eq!(parse_generation("plrust_fn_oid_7_3a.so", "plrust_fn_oid_7", ".so"), None);
}

#[test]
fn latest_generation_takes_the_maximum_over_matches() {
    let listing = vec![
        String::from("plrust_fn_oid_7_0.so"),
        String::from("plrust_fn_oid_7_5.so"),
        String::from("plrust_fn_oid_7_2.so"),
        String::from("plrust_fn_oid_8_9.so"),
        String::from("unrelated.txt"),
    ];
    assert_eq!(latest_generation(&listing, "plrust_fn_oid_7", ".so"), Some(5));
    assert_eq!(next_generation(&listing, "plrust_fn_oid_7", ".so"), Some(6));
    let empty: Vec<String> = Vec::new();
    assert_eq!(latest_generation(&empty, "plrust_fn_oid_7", ".so"), None);
    assert_eq!(next_generation(&empty, "plrust_fn_oid_7", ".so"), Some(0));
}

#[test]
fn evaluate_name_uses_latest_generation_on_defective_platforms() {
    let mut session = Session::new(config(true));
    let listing = vec![
        String::from("plrust_fn_oid_7_0.so"),
        String::from("plrust_fn_oid_7_1.so"),
    ];
    match session.evaluate_function(7, 0, &listing) {
        EvalPlan::NeedLoad { shared_object, symbol_name } => {
            assert_eq!(shared_object, "plrust_fn_oid_7_1.so");
            assert_eq!(symbol_name, "plrust_fn_oid_7_wrapper");
        }
        EvalPlan::Invoke(_) => panic!("nothing is loaded yet"),
    }
    let empty: Vec<String> = Vec::new();
    match session.evaluate_function(7, 0, &empty) {
        EvalPlan::NeedLoad { shared_object, .. } => {
            assert_eq!(shared_object, "plrust_fn_oid_7_0.so");
        }
        EvalPlan::Invoke(_) => panic!("nothing is loaded yet"),
    }
    let _ = session.unload_function(7);
}

#[test]
fn warning_marker_scan() {
    assert!(output_has_warnings("warning: unused variable `x`"));
    assert!(output_has_warnings("all fine\nwarning: something\nrest"));
    assert!(!output_has_warnings("Compiling plrust_fn_oid_42 v0.0.0"));
    assert!(!output_has_warnings(""));
}

#[test]
fn generated_unit_embeds_body_and_symbol() {
    let unit = int_unit("a + 1");
    let g = StateGenerated::generate(42, &unit).unwrap();
    assert_eq!(g.fn_oid, 42);
    assert_eq!(g.crate_name, "plrust_fn_oid_42");
    assert!(g.lib_rs.contains("a + 1"));
    assert!(g.lib_rs.contains("plrust_fn_oid_42_wrapper"));
    // No nullable position: the strict entry variant is rendered.
    assert!(g.lib_rs.contains("plrust_fn_oid_42_wrapper_strict"));
    assert!(g.cargo_toml.contains("name = \"plrust_fn_oid_42\""));

    let files = g.provision_files();
    assert_eq!(files.len(), 2);
    assert_eq!(files[0].rel_path, "plrust_fn_oid_42/Cargo.toml");
    assert_eq!(files[0].contents, g.cargo_toml);
    assert_eq!(files[1].rel_path, "plrust_fn_oid_42/src/lib.rs");
    assert_eq!(files[1].contents, g.lib_rs);
}

#[test]
fn nullable_positions_suppress_the_strict_entry() {
    let mut unit = int_unit("a + 1");
    unit.args[0].nullable = true;
    let g = StateGenerated::generate(42, &unit).unwrap();
    assert!(!g.lib_rs.contains("_strict"));
    assert!(g.lib_rs.contains("let a: Option<i64> = args[0].clone();"));
}

#[test]
fn failed_build_returns_captured_output() {
    let unit = int_unit("a + 1");
    let g = StateGenerated::generate(5, &unit).unwrap();
    let p = g.provisioned();
    let output = BuildOutput {
        stdout: String::from("some progress"),
        stderr: String::from("error[E0999]: made up"),
    };
    let r = p.finish_build(false, output, String::from("plrust_fn_oid_5.so"));
    match r {
        Err(PlRustError::Compile { stdout, stderr }) => {
            assert_eq!(stdout, "some progress");
            assert_eq!(stderr, "error[E0999]: made up");
        }
        _ => panic!("build failure must surface the captured output"),
    }
}

#[test]
fn load_faults_map_to_their_errors() {
    let r = StateLoaded::load(
        7,
        String::from("plrust_fn_oid_7.so"),
        String::from("plrust_fn_oid_7_wrapper"),
        Err(LoadFault::OpenFailed(String::from("no such file"))),
    );
    assert!(matches!(r, Err(PlRustError::Load(_))));
    let r = StateLoaded::load(
        7,
        String::from("plrust_fn_oid_7.so"),
        String::from("plrust_fn_oid_7_wrapper"),
        Err(LoadFault::SymbolMissing(String::from("symbol not exported"))),
    );
    assert!(matches!(r, Err(PlRustError::SymbolNotFound(_))));
    let r = StateLoaded::load(
        7,
        String::from("plrust_fn_oid_7.so"),
        String::from("plrust_fn_oid_7_wrapper"),
        Ok(11),
    )
    .unwrap();
    assert_eq!(r.fn_oid, 7);
    assert_eq!(r.library, 11);
    assert_eq!(r.shared_object, "plrust_fn_oid_7.so");
    assert_eq!(r.symbol_name, "plrust_fn_oid_7_wrapper");
}

#[test]
fn dummy_user_fn_echoes_its_argument() {
    assert_eq!(dummy_user_fn(Some(5)), Ok(Some(5)));
    assert_eq!(dummy_user_fn(None), Ok(None));
}
