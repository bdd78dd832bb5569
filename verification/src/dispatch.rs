//! Top-level dispatch decisions: how an invocation name is interpreted,
//! which symlinks the managed binary directory must hold, and the
//! makefile-variable line the build integration prints.

use vstd::prelude::*;

use crate::app::{App, app_resolvable};
use crate::conf::{ConfMap, ConfValue, ValView, lemma_entries_view_contains};
use crate::errors::OzyError;
use crate::strutil::{concat2, concat3, str_eq, str_starts_with};

verus! {

/// How an invocation of the dispatcher binary is interpreted.
#[derive(Clone, Copy, PartialEq, Eq, Structural)]
pub enum DispatchMode {
    /// The binary was invoked under its own name: parse subcommands.
    Subcommands,
    /// The binary was invoked under an app's name, through the symlink
    /// farm: treat the invocation name as the app to run.
    RunApp,
}

/// Interpret the final path component the binary was invoked as: its own
/// canonical name prefix means subcommands, any other name is an app to
/// impersonate.
pub fn dispatch_mode(invoked_as: &str) -> (r: DispatchMode)
    ensures
        r is Subcommands <==> "ozy"@.len() <= invoked_as@.len() && invoked_as@.subrange(0, 3)
            == "ozy"@,
{
    proof {
        reveal_strlit("ozy");
    }
    if str_starts_with(invoked_as, "ozy") {
        DispatchMode::Subcommands
    } else {
        DispatchMode::RunApp
    }
}

/// The names carry exactly the keys of the mapping, in order.
pub open spec fn names_match(names: Seq<String>, m: Map<Seq<char>, ValView>) -> bool {
    &&& forall|i: int| 0 <= i < names.len() ==> m.contains_key((#[trigger] names[i])@)
    &&& forall|i: int, j: int| 0 <= i < j < names.len() ==> (#[trigger] names[i])@ != (
    #[trigger] names[j])@
    &&& forall|k: Seq<char>| #[trigger] m.contains_key(k) ==> exists|i: int|
        0 <= i < names.len() && (#[trigger] names[i])@ == k
}

/// The symlink farm the configuration calls for: one link per declared
/// app name, each pointing at the dispatcher binary itself.
pub fn symlink_plan(config: &ConfMap) -> (r: Result<Vec<String>, OzyError>)
    requires
        config.wf(),
    ensures
        r is Ok <==> config@.contains_key("apps"@) && config@["apps"@] is M,
        r matches Ok(names) ==> names_match(names@, config@["apps"@]->M_0),
        r matches Err(e) ==> e is SchemaError,
{
    let app_configs = match config.get("apps") {
        Some(ConfValue::Dict(m)) => m,
        _ => {
            return Err(OzyError::SchemaError("Expected an apps section in the YAML".to_owned()));
        }
    };
    let ghost mv = config@["apps"@]->M_0;
    let n = app_configs.len();
    let mut names: Vec<String> = Vec::new();
    let mut i: usize = 0;
    while i < n
        invariant
            app_configs.wf(),
            mv == app_configs@,
            n == app_configs.keys().len(),
            i <= n,
            names@.len() == i,
            forall|j: int| 0 <= j < i ==> (#[trigger] names@[j])@ == app_configs.keys()[j]
                && mv.contains_key(names@[j]@),
        decreases n - i,
    {
        proof {
            crate::conf::lemma_entries_view_at(app_configs.entries@, i as int);
        }
        names.push(app_configs.key_at(i).clone());
        i = i + 1;
    }
    proof {
        assert(crate::conf::unique_keys(app_configs.entries@));
        assert forall|a: int, b: int| 0 <= a < b < names@.len()
            implies (#[trigger] names@[a])@ != (#[trigger] names@[b])@ by {
            assert(app_configs.keys()[a] != app_configs.keys()[b]);
        }
        assert forall|k: Seq<char>| #[trigger] mv.contains_key(k) implies exists|i: int|
            0 <= i < names@.len() && (#[trigger] names@[i])@ == k by {
            lemma_entries_view_contains(app_configs.entries@, k);
            let j = choose|j: int| 0 <= j < app_configs.entries@.len() && (
            #[trigger] app_configs.entries@[j]).0@ == k;
            assert(names@[j]@ == k);
        }
        assert(names_match(names@, mv));
    }
    Ok(names)
}

/// What the surrounding program found out about one requested app on the
/// filesystem and the search path.
pub struct AppPathFacts {
    /// The canonical form of the app's link in the managed binary
    /// directory, where it could be resolved.
    pub in_bin_canonical: Option<String>,
    /// The canonical form of what the search path finds under the app's
    /// name, where it finds anything.
    pub found_canonical: Option<String>,
}

/// The checks pass for one app: its link resolved, the search path finds
/// it, and both resolve to the same file.
pub open spec fn path_fact_ok(f: AppPathFacts) -> bool {
    &&& f.in_bin_canonical matches Some(b)
    &&& f.found_canonical matches Some(w)
    &&& b@ == w@
}

/// The checks pass for every requested app from position `i` on: each
/// resolves in the configuration and its path facts agree.
pub open spec fn checks_pass_from(
    app_names: Seq<String>,
    facts: Seq<AppPathFacts>,
    config: Map<Seq<char>, ValView>,
    os: Seq<char>,
    arch: Seq<char>,
    i: int,
) -> bool
    decreases app_names.len() - i,
    when 0 <= i <= app_names.len()
{
    if i == app_names.len() {
        true
    } else {
        app_resolvable(config, app_names[i]@, os, arch) && path_fact_ok(facts[i])
            && checks_pass_from(app_names, facts, config, os, arch, i + 1)
    }
}

/// Every requested app resolves in the configuration and is found on the
/// search path as the managed link itself.
pub open spec fn all_path_checks_pass(
    app_names: Seq<String>,
    facts: Seq<AppPathFacts>,
    config: Map<Seq<char>, ValView>,
    os: Seq<char>,
    arch: Seq<char>,
) -> bool {
    checks_pass_from(app_names, facts, config, os, arch, 0)
}

/// The single-line makefile variable: each requested app must resolve in
/// the configuration, and must be found on the search path as the
/// managed link itself, not anything earlier; the variable is then bound
/// to the managed binary directory.
#[verifier::loop_isolation(false)]
pub fn makefile_config_internal(
    makefile_var: &str,
    app_names: &Vec<String>,
    did_path_contain_ozy: bool,
    config: &ConfMap,
    os: &str,
    arch: &str,
    ozy_bin_dir: &str,
    facts: &Vec<AppPathFacts>,
) -> (r: Result<String, OzyError>)
    requires
        config.wf(),
        facts@.len() == app_names@.len(),
    ensures
        r is Ok <==> did_path_contain_ozy && all_path_checks_pass(
            app_names@,
            facts@,
            config@,
            os@,
            arch@,
        ),
        r matches Ok(line) ==> line@ == makefile_var@ + ":="@ + ozy_bin_dir@,
        r matches Err(e) ==> e is IoError || e is NotFoundError,
{
    if !did_path_contain_ozy {
        return Err(OzyError::IoError("The Ozy bin directory must be in the PATH".to_owned()));
    }
    let n = app_names.len();
    let mut i: usize = 0;
    while i < n
        invariant
            i <= n,
            all_path_checks_pass(app_names@, facts@, config@, os@, arch@) == checks_pass_from(
                app_names@,
                facts@,
                config@,
                os@,
                arch@,
                i as int,
            ),
        decreases n - i,
    {
        let name = &app_names[i];
        if let Err(_) = App::new(name.as_str(), config, os, arch) {
            return Err(OzyError::NotFoundError(concat3("Missing ozy app '", name.as_str(), "'")));
        }
        let fact = &facts[i];
        let in_bin = match &fact.in_bin_canonical {
            Some(b) => b,
            None => {
                return Err(
                    OzyError::IoError(
                        concat3("Could not resolve '", name.as_str(), "' in the Ozy bin directory"),
                    ),
                );
            }
        };
        match &fact.found_canonical {
            Some(found) => {
                if !str_eq(found.as_str(), in_bin.as_str()) {
                    return Err(
                        OzyError::IoError(
                            concat3(
                                "'",
                                name.as_str(),
                                "' found in PATH earlier than ozy: results could be inconsistent",
                            ),
                        ),
                    );
                }
            }
            None => {
                return Err(
                    OzyError::NotFoundError(
                        concat3("Missing ozy app '", name.as_str(), "' - not found on PATH"),
                    ),
                );
            }
        }
        i = i + 1;
    }
    let mut line = makefile_var.to_owned();
    line.append(":=");
    line.append(ozy_bin_dir);
    Ok(line)
}

} // verus!
