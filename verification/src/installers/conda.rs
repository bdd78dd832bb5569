//! The conda-style package-environment backend: it creates a fresh
//! package environment at the target directory, scoped to the configured
//! channels, holding the named package pinned at its version.

use vstd::prelude::*;

use crate::conf::{ConfMap, ValView};
use crate::errors::OzyError;
use crate::installers::installer::{CommandPlan, Installer, env_pairs_match, get_bool_or,
    get_env_pairs, get_str_field, get_string_list};
use crate::strutil::{concat2, concat3};

verus! {

/// A conda-style package-environment installer.
#[derive(Debug)]
pub struct Conda {
    /// The package to install.
    pub package: String,
    /// The pinned package version.
    pub version: String,
    /// The channels the environment is scoped to.
    pub channels: Vec<String>,
    /// The package-manager binary to invoke.
    pub conda_bin: String,
    /// The frozen-binary mode flag; not yet supported by the backend.
    pub pyinstaller: bool,
    /// Extra environment variables for the creation subprocess.
    pub env: Vec<(String, String)>,
}

/// The `channels` field carries exactly the strings of the sequence the
/// mapping holds at the key, or nothing where the key is absent or holds
/// no sequence.
pub open spec fn string_list_matches(
    v: Seq<String>,
    m: Map<Seq<char>, ValView>,
    key: Seq<char>,
) -> bool {
    if m.contains_key(key) && m[key] is List {
        v.len() == m[key]->List_0.len() && forall|i: int|
            0 <= i < v.len() ==> (#[trigger] m[key]->List_0[i]) is Str && v[i]@
                == m[key]->List_0[i]->Str_0
    } else {
        v.len() == 0
    }
}

/// A sequence key is well-shaped when every item it holds is a string.
pub open spec fn string_list_ok(m: Map<Seq<char>, ValView>, key: Seq<char>) -> bool {
    m.contains_key(key) && m[key] is List ==> forall|i: int|
        0 <= i < m[key]->List_0.len() ==> (#[trigger] m[key]->List_0[i]) is Str
}

/// An environment key is well-shaped when every value of the mapping it
/// holds is a string.
pub open spec fn env_field_ok(m: Map<Seq<char>, ValView>, key: Seq<char>) -> bool {
    m.contains_key(key) && m[key] is M ==> forall|k: Seq<char>|
        #[trigger] m[key]->M_0.contains_key(k) ==> m[key]->M_0[k] is Str
}

/// The `env` field carries exactly the string bindings of the mapping the
/// key holds, or nothing where the key is absent or holds no mapping.
pub open spec fn env_field_matches(
    pairs: Seq<(String, String)>,
    m: Map<Seq<char>, ValView>,
    key: Seq<char>,
) -> bool {
    if m.contains_key(key) && m[key] is M {
        env_pairs_match(pairs, m[key]->M_0)
    } else {
        pairs.len() == 0
    }
}

impl Conda {
    /// The backend's fields are exactly what the resolved app mapping
    /// prescribes for a conda backend at this version.
    pub open spec fn matches_config(
        self,
        m: Map<Seq<char>, ValView>,
        name: Seq<char>,
        version: Seq<char>,
    ) -> bool {
        &&& m.contains_key("package"@) && m["package"@] is Str
        &&& self.package@ == m["package"@]->Str_0
        &&& self.version@ == version
        &&& string_list_matches(self.channels@, m, "channels"@)
        &&& self.conda_bin@ == (if m.contains_key("conda_bin"@) && m["conda_bin"@] is Str {
            m["conda_bin"@]->Str_0
        } else {
            "conda"@
        })
        &&& self.pyinstaller == (m.contains_key("pyinstaller"@) && m["pyinstaller"@] is Bool
            && m["pyinstaller"@]->Bool_0)
        &&& env_field_matches(self.env@, m, "env"@)
    }

    /// Read a conda backend out of a resolved app mapping: `package` is
    /// required, `channels`, `conda_bin`, `pyinstaller` and `env` are
    /// optional.
    pub fn new(name: &str, version: &str, app_config: &ConfMap) -> (r: Result<Conda, OzyError>)
        requires
            app_config.wf(),
        ensures
            r matches Ok(c) ==> c.matches_config(app_config@, name@, version@),
            r matches Err(e) ==> e is SchemaError,
            r is Ok <==> app_config@.contains_key("package"@) && app_config@["package"@] is Str
                && string_list_ok(app_config@, "channels"@) && env_field_ok(app_config@, "env"@),
    {
        let package = match get_str_field(app_config, "package") {
            Some(p) => p,
            None => {
                return Err(
                    OzyError::SchemaError(concat2("Expected a string package in config for ", name)),
                );
            }
        };
        let channels = get_string_list(app_config, "channels")?;
        let conda_bin = match get_str_field(app_config, "conda_bin") {
            Some(v) => v,
            None => "conda".to_owned(),
        };
        let pyinstaller = get_bool_or(app_config, "pyinstaller", false);
        let env = get_env_pairs(app_config, "env")?;
        Ok(
            Conda {
                package,
                version: version.to_owned(),
                channels,
                conda_bin,
                pyinstaller,
                env,
            },
        )
    }

    /// The subprocess invocation that installs this backend's package into
    /// `to_dir`, with the package cache at `pkgs_dir`; the frozen-binary
    /// mode has no backend yet and is refused.
    pub fn install_plan(&self, to_dir: &str, pkgs_dir: &str) -> (r: Result<CommandPlan, OzyError>)
        ensures
            r is Ok <==> !self.pyinstaller,
            r matches Err(e) ==> e is InstallError,
            r matches Ok(p) ==> {
                &&& p.program@ == self.conda_bin@
                &&& p.args@.len() == 5 + 2 * self.channels@.len()
                &&& p.args@[0]@ == "create"@ && p.args@[1]@ == "-y"@ && p.args@[2]@ == "-p"@
                    && p.args@[3]@ == to_dir@
                &&& forall|i: int| 0 <= i < self.channels@.len() ==> (#[trigger] p.args@[4 + 2 * i])@
                    == "-c"@ && p.args@[4 + 2 * i + 1]@ == self.channels@[i]@
                &&& p.args@[4 + 2 * self.channels@.len() as int]@ == self.package@ + "="@ + self.version@
                &&& p.env@.len() == 1 + self.env@.len()
                &&& p.env@[0].0@ == "CONDA_PKGS_DIRS"@ && p.env@[0].1@ == pkgs_dir@
                &&& forall|i: int| 0 <= i < self.env@.len() ==> (#[trigger] p.env@[1 + i]).0@
                    == self.env@[i].0@ && p.env@[1 + i].1@ == self.env@[i].1@
            },
    {
        if self.pyinstaller {
            return Err(OzyError::InstallError("Pyinstaller mode not yet implemented".to_owned()));
        }
        let versioned_package = concat3(self.package.as_str(), "=", self.version.as_str());
        let mut to_install: Vec<String> = Vec::new();
        to_install.push(versioned_package);
        let plan = conda_install(
            self.conda_bin.as_str(),
            &self.channels,
            to_dir,
            &to_install,
            &self.env,
            pkgs_dir,
        );
        proof {
            assert(plan.args@[4 + 2 * self.channels@.len() as int + 0]@ == to_install@[0]@);
            assert(plan.args@[4 + 2 * self.channels@.len() as int]@ == self.package@ + "="@
                + self.version@);
        }
        Ok(plan)
    }
}

impl Installer for Conda {
    open spec fn describe_spec(&self) -> Seq<char> {
        "conda installer for "@ + self.package@ + "="@ + self.version@
    }

    fn describe(&self) -> (r: String) {
        let mut s = "conda installer for ".to_owned();
        s.append(self.package.as_str());
        s.append("=");
        s.append(self.version.as_str());
        s
    }
}

/// The package-environment creation invocation: `create -y -p <dir>`,
/// `-c <channel>` per channel, then the packages to install; the
/// environment holds the package cache location first, then the extra
/// pairs in order.
pub fn conda_install(
    conda_bin: &str,
    channels: &Vec<String>,
    to_dir: &str,
    to_install: &Vec<String>,
    extra_env: &Vec<(String, String)>,
    pkgs_dir: &str,
) -> (r: CommandPlan)
    ensures
        r.program@ == conda_bin@,
        r.args@.len() == 4 + 2 * channels@.len() + to_install@.len(),
        r.args@[0]@ == "create"@ && r.args@[1]@ == "-y"@ && r.args@[2]@ == "-p"@ && r.args@[3]@
            == to_dir@,
        forall|i: int| 0 <= i < channels@.len() ==> (#[trigger] r.args@[4 + 2 * i])@ == "-c"@
            && r.args@[4 + 2 * i + 1]@ == channels@[i]@,
        forall|i: int| 0 <= i < to_install@.len() ==> (#[trigger] r.args@[4 + 2 * channels@.len()
            + i])@ == to_install@[i]@,
        r.env@.len() == 1 + extra_env@.len(),
        r.env@[0].0@ == "CONDA_PKGS_DIRS"@ && r.env@[0].1@ == pkgs_dir@,
        forall|i: int| 0 <= i < extra_env@.len() ==> (#[trigger] r.env@[1 + i]).0@
            == extra_env@[i].0@ && r.env@[1 + i].1@ == extra_env@[i].1@,
{
    let mut args: Vec<String> = Vec::new();
    args.push("create".to_owned());
    args.push("-y".to_owned());
    args.push("-p".to_owned());
    args.push(to_dir.to_owned());
    let n_channels = channels.len();
    let mut i: usize = 0;
    while i < n_channels
        invariant
            n_channels == channels@.len(),
            i <= n_channels,
            args@.len() == 4 + 2 * i,
            args@[0]@ == "create"@ && args@[1]@ == "-y"@ && args@[2]@ == "-p"@ && args@[3]@
                == to_dir@,
            forall|j: int| 0 <= j < i ==> (#[trigger] args@[4 + 2 * j])@ == "-c"@ && args@[4 + 2
                * j + 1]@ == channels@[j]@,
        decreases n_channels - i,
    {
        let ghost pre = args@;
        args.push("-c".to_owned());
        args.push(channels[i].clone());
        proof {
            assert(args@.len() == 4 + 2 * (i as int) + 2);
            assert(args@[4 + 2 * (i as int)]@ == "-c"@);
            assert(args@[4 + 2 * (i as int) + 1]@ == channels@[i as int]@);
            assert forall|j: int| 0 <= j < i as int implies (#[trigger] args@[4 + 2 * j])@ == "-c"@
                && args@[4 + 2 * j + 1]@ == channels@[j]@ by {
                assert(args@[4 + 2 * j] == pre[4 + 2 * j]);
                assert(args@[4 + 2 * j + 1] == pre[4 + 2 * j + 1]);
            }
        }
        i = i + 1;
    }
    let n_install = to_install.len();
    let mut j: usize = 0;
    while j < n_install
        invariant
            n_channels == channels@.len(),
            n_install == to_install@.len(),
            j <= n_install,
            args@.len() == 4 + 2 * n_channels + j,
            args@[0]@ == "create"@ && args@[1]@ == "-y"@ && args@[2]@ == "-p"@ && args@[3]@
                == to_dir@,
            forall|m: int| 0 <= m < n_channels ==> (#[trigger] args@[4 + 2 * m])@ == "-c"@ && args@[
                4 + 2 * m + 1]@ == channels@[m]@,
            forall|m: int| 0 <= m < j ==> (#[trigger] args@[4 + 2 * n_channels + m])@
                == to_install@[m]@,
        decreases n_install - j,
    {
        args.push(to_install[j].clone());
        j = j + 1;
    }
    let mut env: Vec<(String, String)> = Vec::new();
    env.push(("CONDA_PKGS_DIRS".to_owned(), pkgs_dir.to_owned()));
    let n_env = extra_env.len();
    let mut k: usize = 0;
    while k < n_env
        invariant
            n_env == extra_env@.len(),
            k <= n_env,
            env@.len() == 1 + k,
            env@[0].0@ == "CONDA_PKGS_DIRS"@ && env@[0].1@ == pkgs_dir@,
            forall|m: int| 0 <= m < k ==> (#[trigger] env@[1 + m]).0@ == extra_env@[m].0@ && env@[1
                + m].1@ == extra_env@[m].1@,
        decreases n_env - k,
    {
        let pair = &extra_env[k];
        env.push((pair.0.clone(), pair.1.clone()));
        k = k + 1;
    }
    CommandPlan { program: conda_bin.to_owned(), args, env }
}

} // verus!
