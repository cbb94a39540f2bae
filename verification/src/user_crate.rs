//! The crate generator and the per-build states of one user function.
//!
//! A function moves through four states: generated (scaffold rendered around
//! the user body), provisioned (the rendered files are on the working
//! directory), built (the toolchain produced an artifact), and loaded (the
//! artifact is mapped with its entry symbol resolved; see `state_loaded`).
//! The host performs the filesystem writes, the toolchain run and the
//! dynamic load; every rendered byte and every state transition is decided
//! and specified here.

use vstd::prelude::*;
use vstd::string::*;

use crate::error::PlRustError;
use crate::generation::{name_views, next_generation, spec_next_generation};
use crate::names::{
    crate_name, crate_name_spec, dec_rep, dec_string, generation_name, generation_name_spec,
    plain_name, plain_name_spec, symbol_name, symbol_name_spec,
};

pub mod state_loaded;

verus! {

/// One declared argument of a user function.
#[derive(Debug, Clone)]
pub struct ArgSpec {
    /// The binding name the body sees.
    pub name: String,
    /// The declared value type, as source text.
    pub value_type: String,
    /// Whether the position admits an absent value.
    pub nullable: bool,
}

/// The user-supplied body text plus its declared signature; consumed once
/// per compile.
#[derive(Debug, Clone)]
pub struct SourceUnit {
    /// The declared arguments, in call order.
    pub args: Vec<ArgSpec>,
    /// The declared result type, as source text.
    pub return_type: String,
    /// Whether the result admits an absent value.
    pub return_nullable: bool,
    /// The body text substituted into the scaffold.
    pub body: String,
}

/// Whether `c` opens a bracket pair.
pub open spec fn is_open(c: char) -> bool {
    c == '(' || c == '[' || c == '{'
}

/// Whether `c` closes a bracket pair.
pub open spec fn is_close(c: char) -> bool {
    c == ')' || c == ']' || c == '}'
}

/// Whether `o` opens the pair that `c` closes.
pub open spec fn brackets_match(o: char, c: char) -> bool {
    (o == '(' && c == ')') || (o == '[' && c == ']') || (o == '{' && c == '}')
}

/// Runs the bracket scan from position `i` with the given stack of open
/// brackets; `None` means a close without its matching open.
pub open spec fn scan_brackets(s: Seq<char>, i: int, stack: Seq<char>) -> Option<Seq<char>>
    decreases s.len() - i,
{
    if i < 0 || i >= s.len() {
        Some(stack)
    } else {
        let c = s[i];
        if is_open(c) {
            scan_brackets(s, i + 1, stack.push(c))
        } else if is_close(c) {
            if stack.len() > 0 && brackets_match(stack.last(), c) {
                scan_brackets(s, i + 1, stack.drop_last())
            } else {
                None
            }
        } else {
            scan_brackets(s, i + 1, stack)
        }
    }
}

/// Whether every bracket in `s` is properly opened and closed. This is the
/// syntactic validation a body must pass before it is substituted into the
/// scaffold.
pub open spec fn balanced(s: Seq<char>) -> bool {
    scan_brackets(s, 0, Seq::<char>::empty()) == Some(Seq::<char>::empty())
}

/// Checks `balanced` executably.
pub fn check_balanced(s: &str) -> (b: bool)
    ensures
        b == balanced(s@),
{
    let n = s.unicode_len();
    let mut stack: Vec<char> = Vec::new();
    let mut i: usize = 0;
    while i < n
        invariant
            0 <= i <= n,
            n == s@.len(),
            scan_brackets(s@, 0, Seq::<char>::empty()) == scan_brackets(s@, i as int, stack@),
        decreases n - i,
    {
        let ghost pre = stack@;
        let c = s.get_char(i);
        if c == '(' || c == '[' || c == '{' {
            stack.push(c);
        } else if c == ')' || c == ']' || c == '}' {
            match stack.pop() {
                None => {
                    proof {
                        assert(scan_brackets(s@, i as int, pre) is None);
                    }
                    return false;
                },
                Some(o) => {
                    let matched = (o == '(' && c == ')') || (o == '[' && c == ']') || (o == '{'
                        && c == '}');
                    proof {
                        assert(o == pre.last());
                        assert(stack@ =~= pre.drop_last());
                    }
                    if !matched {
                        proof {
                            assert(scan_brackets(s@, i as int, pre) is None);
                        }
                        return false;
                    }
                },
            }
        }
        i += 1;
    }
    let r = stack.len() == 0;
    proof {
        if r {
            assert(stack@ =~= Seq::<char>::empty());
        }
    }
    r
}

/// Whether the strict entry variant applies: no argument position and not
/// the result admit an absent value.
pub open spec fn strict_applicable(unit: SourceUnit) -> bool {
    !unit.return_nullable && forall|i: int|
        0 <= i < unit.args@.len() ==> !(#[trigger] unit.args@[i]).nullable
}

/// The binding rendered for argument `a` at position `i` of the entry
/// point: a nullable position keeps its `Option`, a non-nullable one is
/// unwrapped with an error on absence.
pub open spec fn binding_frag(a: ArgSpec, i: nat) -> Seq<char> {
    if a.nullable {
        "let "@ + a.name@ + ": Option<"@ + a.value_type@ + "> = args["@ + dec_rep(i)
            + "].clone();\n    "@
    } else {
        "let "@ + a.name@ + ": "@ + a.value_type@ + " = match args["@ + dec_rep(i)
            + "].clone() {\n        Some(v) => v,\n        None => return Err(EntryError(String::from(\"unexpected null argument\"))),\n    };\n    "@
    }
}

/// The bindings rendered for all arguments, in call order.
pub open spec fn bindings_spec(args: Seq<ArgSpec>) -> Seq<char>
    decreases args.len(),
{
    if args.len() == 0 {
        Seq::<char>::empty()
    } else {
        bindings_spec(args.drop_last()) + binding_frag(args.last(), (args.len() - 1) as nat)
    }
}

/// The tail of the entry point: the user body computes `result`, which is
/// wrapped according to the declared result nullability.
pub open spec fn result_spec(unit: SourceUnit) -> Seq<char> {
    if unit.return_nullable {
        "let result: Option<"@ + unit.return_type@ + "> = {\n        "@ + unit.body@
            + "\n    };\n    Ok(result)\n}\n"@
    } else {
        "let result: "@ + unit.return_type@ + " = {\n        "@ + unit.body@
            + "\n    };\n    Ok(Some(result))\n}\n"@
    }
}

/// The exported wrapper: the single sanctioned way user code is reached.
pub open spec fn wrapper_spec(fn_oid: u32) -> Seq<char> {
    "//! Generated unit for one user-defined function: a fixed scaffold\n//! around the user body. The entry signature below is the only surface\n//! the body can reach; no other host capability is visible to it.\n\npub type Value = i64;\npub struct EntryError(pub String);\n\n#[no_mangle]\npub fn "@
        + symbol_name_spec(fn_oid)
        + "(args: Vec<Option<Value>>) -> Result<Option<Value>, EntryError> {\n    entry(args)\n}\n"@
}

/// The strict wrapper variant, rendered only when no position is nullable.
pub open spec fn strict_section_spec(fn_oid: u32, strict: bool) -> Seq<char> {
    if strict {
        "\n#[no_mangle]\npub fn "@ + symbol_name_spec(fn_oid)
            + "_strict(args: Vec<Value>) -> Result<Value, EntryError> {\n    match entry(args.into_iter().map(Some).collect()) {\n        Ok(Some(v)) => Ok(v),\n        Ok(None) => Err(EntryError(String::from(\"strict entry returned null\"))),\n        Err(e) => Err(e),\n    }\n}\n"@
    } else {
        Seq::<char>::empty()
    }
}

/// The entry point around the user body.
pub open spec fn entry_spec(unit: SourceUnit) -> Seq<char> {
    "\nfn entry(args: Vec<Option<Value>>) -> Result<Option<Value>, EntryError> {\n    "@
        + bindings_spec(unit.args@) + result_spec(unit)
}

/// The whole rendered compilation unit.
pub open spec fn lib_rs_spec(fn_oid: u32, unit: SourceUnit) -> Seq<char> {
    wrapper_spec(fn_oid) + strict_section_spec(fn_oid, strict_applicable(unit)) + entry_spec(unit)
}

/// The rendered project metadata for the generated unit.
pub open spec fn cargo_toml_spec(fn_oid: u32) -> Seq<char> {
    "[package]\nname = \""@ + crate_name_spec(fn_oid)
        + "\"\nversion = \"0.0.0\"\nedition = \"2021\"\n\n[lib]\ncrate-type = [\"cdylib\"]\n"@
}

/// Renders the binding for one argument at its position.
fn render_binding(a: &ArgSpec, i: usize) -> (s: String)
    ensures
        s@ == binding_frag(*a, i as nat),
{
    let digits = dec_string(i as u64);
    if a.nullable {
        let mut s = String::from_str("let ");
        s.append(a.name.as_str());
        s.append(": Option<");
        s.append(a.value_type.as_str());
        s.append("> = args[");
        s.append(digits.as_str());
        s.append("].clone();\n    ");
        s
    } else {
        let mut s = String::from_str("let ");
        s.append(a.name.as_str());
        s.append(": ");
        s.append(a.value_type.as_str());
        s.append(" = match args[");
        s.append(digits.as_str());
        s.append(
            "].clone() {\n        Some(v) => v,\n        None => return Err(EntryError(String::from(\"unexpected null argument\"))),\n    };\n    ",
        );
        s
    }
}

/// Renders the bindings for all arguments, in call order.
fn render_bindings(args: &Vec<ArgSpec>) -> (s: String)
    ensures
        s@ == bindings_spec(args@),
{
    let mut s = String::new();
    let mut i: usize = 0;
    while i < args.len()
        invariant
            0 <= i <= args@.len(),
            s@ == bindings_spec(args@.take(i as int)),
        decreases args@.len() - i,
    {
        let frag = render_binding(&args[i], i);
        s.append(frag.as_str());
        proof {
            assert(args@.take(i + 1).drop_last() =~= args@.take(i as int));
            assert(args@.take(i + 1).last() == args@[i as int]);
        }
        i += 1;
    }
    proof {
        assert(args@.take(args@.len() as int) =~= args@);
    }
    s
}

/// Decides whether the strict entry variant applies.
fn strict_check(unit: &SourceUnit) -> (b: bool)
    ensures
        b == strict_applicable(*unit),
{
    if unit.return_nullable {
        return false;
    }
    let mut i: usize = 0;
    while i < unit.args.len()
        invariant
            0 <= i <= unit.args@.len(),
            forall|k: int| 0 <= k < i ==> !(#[trigger] unit.args@[k]).nullable,
        decreases unit.args@.len() - i,
    {
        if unit.args[i].nullable {
            return false;
        }
        i += 1;
    }
    true
}

/// Renders the tail of the entry point around the user body.
fn render_result(unit: &SourceUnit) -> (s: String)
    ensures
        s@ == result_spec(*unit),
{
    if unit.return_nullable {
        let mut s = String::from_str("let result: Option<");
        s.append(unit.return_type.as_str());
        s.append("> = {\n        ");
        s.append(unit.body.as_str());
        s.append("\n    };\n    Ok(result)\n}\n");
        s
    } else {
        let mut s = String::from_str("let result: ");
        s.append(unit.return_type.as_str());
        s.append(" = {\n        ");
        s.append(unit.body.as_str());
        s.append("\n    };\n    Ok(Some(result))\n}\n");
        s
    }
}

/// Renders the whole compilation unit for one function.
fn render_lib_rs(fn_oid: u32, unit: &SourceUnit) -> (s: String)
    ensures
        s@ == lib_rs_spec(fn_oid, *unit),
{
    let sym = symbol_name(fn_oid);
    let mut s = String::from_str(
        "//! Generated unit for one user-defined function: a fixed scaffold\n//! around the user body. The entry signature below is the only surface\n//! the body can reach; no other host capability is visible to it.\n\npub type Value = i64;\npub struct EntryError(pub String);\n\n#[no_mangle]\npub fn ",
    );
    s.append(sym.as_str());
    s.append(
        "(args: Vec<Option<Value>>) -> Result<Option<Value>, EntryError> {\n    entry(args)\n}\n",
    );
    proof {
        assert(s@ == wrapper_spec(fn_oid));
    }
    let strict = strict_check(unit);
    if strict {
        let mut t = String::from_str("\n#[no_mangle]\npub fn ");
        t.append(sym.as_str());
        t.append(
            "_strict(args: Vec<Value>) -> Result<Value, EntryError> {\n    match entry(args.into_iter().map(Some).collect()) {\n        Ok(Some(v)) => Ok(v),\n        Ok(None) => Err(EntryError(String::from(\"strict entry returned null\"))),\n        Err(e) => Err(e),\n    }\n}\n",
        );
        s.append(t.as_str());
    }
    proof {
        assert(s@ == wrapper_spec(fn_oid) + strict_section_spec(
            fn_oid,
            strict_applicable(*unit),
        )) by {
            if !strict_applicable(*unit) {
                assert(wrapper_spec(fn_oid) + strict_section_spec(fn_oid, false) =~= wrapper_spec(
                    fn_oid,
                ));
            }
        }
    }
    let mut e = String::from_str(
        "\nfn entry(args: Vec<Option<Value>>) -> Result<Option<Value>, EntryError> {\n    ",
    );
    let b = render_bindings(&unit.args);
    e.append(b.as_str());
    let r = render_result(unit);
    e.append(r.as_str());
    s.append(e.as_str());
    s
}

/// Renders the project metadata for one function's generated unit.
fn render_cargo_toml(fn_oid: u32) -> (s: String)
    ensures
        s@ == cargo_toml_spec(fn_oid),
{
    let name = crate_name(fn_oid);
    let mut s = String::from_str("[package]\nname = \"");
    s.append(name.as_str());
    s.append("\"\nversion = \"0.0.0\"\nedition = \"2021\"\n\n[lib]\ncrate-type = [\"cdylib\"]\n");
    s
}

/// The rendered compilation unit for one function, ready to be placed on
/// the working directory.
#[derive(Debug, Clone)]
pub struct StateGenerated {
    /// The function this unit was rendered for.
    pub fn_oid: u32,
    /// The generated crate's name, derived from the identifier.
    pub crate_name: String,
    /// The rendered source of the unit.
    pub lib_rs: String,
    /// The rendered project metadata of the unit.
    pub cargo_toml: String,
}

/// One file the host must write when provisioning, relative to the working
/// directory.
#[derive(Debug, Clone)]
pub struct ProvisionFile {
    /// Path relative to the working directory.
    pub rel_path: String,
    /// The full contents; any prior file at the path is overwritten.
    pub contents: String,
}

/// A generated unit whose files are on the working directory.
#[derive(Debug, Clone)]
pub struct StateProvisioned {
    /// The function this unit was rendered for.
    pub fn_oid: u32,
    /// The generated crate's name, derived from the identifier.
    pub crate_name: String,
}

/// The captured output of one toolchain run, surfaced to the caller of the
/// compile operation and then discarded.
#[derive(Debug, Clone, PartialEq, Eq)]
pub struct BuildOutput {
    /// Captured standard output.
    pub stdout: String,
    /// Captured standard error.
    pub stderr: String,
}

/// A successfully built artifact: only its file name is retained.
#[derive(Debug, Clone)]
pub struct StateBuilt {
    /// The function the artifact was built for.
    pub fn_oid: u32,
    /// The artifact's file name under the working directory.
    pub shared_object: String,
}

impl StateGenerated {
    /// Validates the body and renders the scaffold around it. Succeeds if
    /// and only if the body is non-empty and every bracket in it is
    /// properly opened and closed; nothing else is inspected here — the
    /// toolchain performs all further checking at build time.
    pub fn generate(fn_oid: u32, unit: &SourceUnit) -> (r: Result<StateGenerated, PlRustError>)
        ensures
            r is Ok <==> (unit.body@.len() > 0 && balanced(unit.body@)),
            r matches Ok(g) ==> (g.fn_oid == fn_oid && g.crate_name@ == crate_name_spec(fn_oid)
                && g.lib_rs@ == lib_rs_spec(fn_oid, *unit) && g.cargo_toml@ == cargo_toml_spec(
                fn_oid,
            )),
            r matches Err(e) ==> e == PlRustError::Template,
    {
        if unit.body.as_str().unicode_len() == 0 {
            return Err(PlRustError::Template);
        }
        if !check_balanced(unit.body.as_str()) {
            return Err(PlRustError::Template);
        }
        let name = crate_name(fn_oid);
        let lib_rs = render_lib_rs(fn_oid, unit);
        let cargo_toml = render_cargo_toml(fn_oid);
        Ok(StateGenerated { fn_oid, crate_name: name, lib_rs, cargo_toml })
    }

    /// The files the host must write to provision this unit. Writing is
    /// idempotent: each file fully overwrites any prior provisioned unit
    /// for the same identifier, so the next build reflects exactly the
    /// current source. On a filesystem failure the host reports
    /// `PlRustError::Io` and drops this state.
    pub fn provision_files(&self) -> (files: Vec<ProvisionFile>)
        ensures
            files@.len() == 2,
            files@[0].rel_path@ == self.crate_name@ + "/Cargo.toml"@,
            files@[0].contents@ == self.cargo_toml@,
            files@[1].rel_path@ == self.crate_name@ + "/src/lib.rs"@,
            files@[1].contents@ == self.lib_rs@,
    {
        let mut p0 = self.crate_name.clone();
        p0.append("/Cargo.toml");
        let mut p1 = self.crate_name.clone();
        p1.append("/src/lib.rs");
        let mut files: Vec<ProvisionFile> = Vec::new();
        files.push(ProvisionFile { rel_path: p0, contents: self.cargo_toml.clone() });
        files.push(ProvisionFile { rel_path: p1, contents: self.lib_rs.clone() });
        files
    }

    /// The transition the host takes once every provision file is written.
    pub fn provisioned(self) -> (p: StateProvisioned)
        ensures
            p.fn_oid == self.fn_oid,
            p.crate_name@ == self.crate_name@,
    {
        StateProvisioned { fn_oid: self.fn_oid, crate_name: self.crate_name }
    }
}

impl StateProvisioned {
    /// The artifact file name the build must produce, computed fresh from
    /// the current directory listing. On platforms with the linker caching
    /// defect the name carries the next unused generation, so a rebuilt
    /// function always gets a never-before-loaded path; elsewhere the name
    /// is stable across rebuilds. `None` only when the generation counter
    /// is exhausted.
    pub fn artifact_name(
        &self,
        use_generations: bool,
        dll_suffix: &str,
        listing: &Vec<String>,
    ) -> (r: Option<String>)
        ensures
            !use_generations ==> (r matches Some(s) && s@ == plain_name_spec(
                self.crate_name@,
                dll_suffix@,
            )),
            use_generations ==> match spec_next_generation(
                name_views(listing@),
                self.crate_name@,
                dll_suffix@,
            ) {
                Some(g) => r matches Some(s) && s@ == generation_name_spec(
                    self.crate_name@,
                    g,
                    dll_suffix@,
                ),
                None => r is None,
            },
    {
        if !use_generations {
            Some(plain_name(self.crate_name.as_str(), dll_suffix))
        } else {
            match next_generation(listing, self.crate_name.as_str(), dll_suffix) {
                Some(g) => Some(generation_name(self.crate_name.as_str(), g, dll_suffix)),
                None => None,
            }
        }
    }

    /// Classifies the toolchain's exit: on success the artifact at the
    /// computed name is retained together with the captured output; on
    /// failure the captured output is returned verbatim inside the error
    /// and no artifact is produced or cached.
    pub fn finish_build(
        self,
        exit_ok: bool,
        output: BuildOutput,
        artifact: String,
    ) -> (r: Result<(StateBuilt, BuildOutput), PlRustError>)
        ensures
            r is Ok <==> exit_ok,
            exit_ok ==> (r matches Ok(p) && p.0.fn_oid == self.fn_oid && p.0.shared_object@
                == artifact@ && p.1.stdout@ == output.stdout@ && p.1.stderr@ == output.stderr@),
            !exit_ok ==> (r matches Err(e) && e matches PlRustError::Compile { stdout, stderr }
                && stdout@ == output.stdout@ && stderr@ == output.stderr@),
    {
        if exit_ok {
            Ok((StateBuilt { fn_oid: self.fn_oid, shared_object: artifact }, output))
        } else {
            Err(PlRustError::Compile { stdout: output.stdout, stderr: output.stderr })
        }
    }
}

/// The sample body the scaffold's shape is exercised with outside a live
/// host: it echoes its optional argument.
pub fn dummy_user_fn(a: Option<i32>) -> (r: Result<Option<i32>, PlRustError>)
    ensures
        r == Ok::<Option<i32>, PlRustError>(a),
{
    Ok(a)
}

} // verus!
