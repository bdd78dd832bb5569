//! The pip-style package-environment backend: it creates a fresh package
//! environment holding a generic `pip` tool, then invokes that tool to
//! install the actual target package at its pinned version.

use vstd::prelude::*;

use crate::conf::ConfMap;
use crate::errors::OzyError;
use crate::installers::conda::{conda_install, env_field_matches, env_field_ok, string_list_matches,
    string_list_ok};
use crate::installers::installer::{CommandPlan, Installer, get_env_pairs, get_str_field,
    get_string_list};
use crate::strutil::{concat2, concat3};

verus! {

/// A pip-style package-environment installer.
#[derive(Debug)]
pub struct Pip {
    /// The package to install.
    pub package: String,
    /// The pinned package version.
    pub version: String,
    /// The channels the bootstrap environment is scoped to.
    pub channels: Vec<String>,
    /// Extra environment variables for the creation subprocess.
    pub env: Vec<(String, String)>,
}

impl Pip {
    /// The backend's fields are exactly what the resolved app mapping
    /// prescribes for a pip backend at this version.
    pub open spec fn matches_config(
        self,
        m: Map<Seq<char>, crate::conf::ValView>,
        name: Seq<char>,
        version: Seq<char>,
    ) -> bool {
        &&& m.contains_key("package"@) && m["package"@] is Str
        &&& self.package@ == m["package"@]->Str_0
        &&& self.version@ == version
        &&& string_list_matches(self.channels@, m, "channels"@)
        &&& env_field_matches(self.env@, m, "env"@)
    }

    /// Read a pip backend out of a resolved app mapping: `package` is
    /// required, `channels` and `env` are optional.
    pub fn new(name: &str, version: &str, app_config: &ConfMap) -> (r: Result<Pip, OzyError>)
        requires
            app_config.wf(),
        ensures
            r matches Ok(c) ==> c.matches_config(app_config@, name@, version@),
            r matches Err(e) ==> e is SchemaError,
            r is Ok <==> app_config@.contains_key("package"@) && app_config@["package"@] is Str
                && string_list_ok(app_config@, "channels"@) && env_field_ok(app_config@, "env"@),
    {
        let package = match get_str_field(app_config, "package") {
            Some(p) => p,
            None => {
                return Err(
                    OzyError::SchemaError(concat2("Expected a string package in config for ", name)),
                );
            }
        };
        let channels = get_string_list(app_config, "channels")?;
        let env = get_env_pairs(app_config, "env")?;
        Ok(Pip { package, version: version.to_owned(), channels, env })
    }

    /// The invocation that bootstraps a fresh package environment at
    /// `to_dir` holding the generic `pip` tool.
    pub fn env_plan(&self, to_dir: &str, pkgs_dir: &str) -> (r: CommandPlan)
        ensures
            r.program@ == "conda"@,
            r.args@.len() == 5 + 2 * self.channels@.len(),
            r.args@[0]@ == "create"@ && r.args@[1]@ == "-y"@ && r.args@[2]@ == "-p"@ && r.args@[3]@
                == to_dir@,
            forall|i: int| 0 <= i < self.channels@.len() ==> (#[trigger] r.args@[4 + 2 * i])@
                == "-c"@ && r.args@[4 + 2 * i + 1]@ == self.channels@[i]@,
            r.args@[4 + 2 * self.channels@.len() as int]@ == "pip"@,
            r.env@.len() == 1 + self.env@.len(),
            r.env@[0].0@ == "CONDA_PKGS_DIRS"@ && r.env@[0].1@ == pkgs_dir@,
            forall|i: int| 0 <= i < self.env@.len() ==> (#[trigger] r.env@[1 + i]).0@
                == self.env@[i].0@ && r.env@[1 + i].1@ == self.env@[i].1@,
    {
        let mut to_install: Vec<String> = Vec::new();
        to_install.push("pip".to_owned());
        let plan = conda_install("conda", &self.channels, to_dir, &to_install, &self.env, pkgs_dir);
        proof {
            assert(plan.args@[4 + 2 * self.channels@.len() as int + 0]@ == to_install@[0]@);
        }
        plan
    }

    /// The invocation that installs the target package, pinned at its
    /// version, through the environment's own `pip` tool.
    pub fn pip_plan(&self, to_dir: &str) -> (r: CommandPlan)
        ensures
            r.program@ == to_dir@ + "/bin/pip"@,
            r.args@.len() == 2,
            r.args@[0]@ == "install"@,
            r.args@[1]@ == self.package@ + "=="@ + self.version@,
            r.env@.len() == 0,
    {
        let program = concat2(to_dir, "/bin/pip");
        let version_arg = concat3(self.package.as_str(), "==", self.version.as_str());
        let mut args: Vec<String> = Vec::new();
        args.push("install".to_owned());
        args.push(version_arg);
        CommandPlan { program, args, env: Vec::new() }
    }
}

impl Installer for Pip {
    open spec fn describe_spec(&self) -> Seq<char> {
        "pip installer for "@ + self.package@ + "="@ + self.version@
    }

    fn describe(&self) -> (r: String) {
        let mut s = "pip installer for ".to_owned();
        s.append(self.package.as_str());
        s.append("=");
        s.append(self.version.as_str());
        s
    }
}

} // verus!
