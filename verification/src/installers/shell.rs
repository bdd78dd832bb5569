//! The shell-script backend: it runs a downloaded install script through
//! a shell, telling the script where to install through the environment.

use vstd::prelude::*;

use crate::conf::ConfMap;
use crate::errors::OzyError;
use crate::installers::conda::{string_list_matches, string_list_ok};
use crate::installers::installer::{CommandPlan, Installer, get_str_field, get_string_list};
use crate::strutil::{concat2, concat3};

verus! {

/// A shell-script installer.
#[derive(Debug)]
pub struct Shell {
    /// The app name the script installs.
    pub name: String,
    /// The pinned app version.
    pub version: String,
    /// Where the install script is downloaded from.
    pub url: String,
    /// A path fragment to put in front of `PATH` while the script runs.
    pub extra_path_during_install: Option<String>,
    /// Extra arguments appended to the script invocation.
    pub shell_args: Vec<String>,
}

impl Shell {
    /// The backend's fields are exactly what the resolved app mapping
    /// prescribes for a shell backend at this name and version.
    pub open spec fn matches_config(
        self,
        m: Map<Seq<char>, crate::conf::ValView>,
        name: Seq<char>,
        version: Seq<char>,
    ) -> bool {
        &&& m.contains_key("url"@) && m["url"@] is Str
        &&& self.name@ == name
        &&& self.version@ == version
        &&& self.url@ == m["url"@]->Str_0
        &&& match self.extra_path_during_install {
            Option::Some(p) => m.contains_key("extra_path_during_install"@)
                && m["extra_path_during_install"@] == crate::conf::ValView::Str(p@),
            Option::None => !(m.contains_key("extra_path_during_install"@)
                && m["extra_path_during_install"@] is Str),
        }
        &&& string_list_matches(self.shell_args@, m, "shell_args"@)
    }

    /// Read a shell backend out of a resolved app mapping: `url` is
    /// required, `extra_path_during_install` and `shell_args` are
    /// optional.
    pub fn new(name: &str, version: &str, app_config: &ConfMap) -> (r: Result<Shell, OzyError>)
        requires
            app_config.wf(),
        ensures
            r matches Ok(c) ==> c.matches_config(app_config@, name@, version@),
            r matches Err(e) ==> e is SchemaError,
            r is Ok <==> app_config@.contains_key("url"@) && app_config@["url"@] is Str
                && string_list_ok(app_config@, "shell_args"@),
    {
        let url = match get_str_field(app_config, "url") {
            Some(u) => u,
            None => {
                return Err(
                    OzyError::SchemaError(concat2("Expected a string url in config for ", name)),
                );
            }
        };
        let extra_path_during_install = get_str_field(app_config, "extra_path_during_install");
        let shell_args = get_string_list(app_config, "shell_args")?;
        Ok(
            Shell {
                name: name.to_owned(),
                version: version.to_owned(),
                url,
                extra_path_during_install,
                shell_args,
            },
        )
    }

    /// The shell invocation that runs the downloaded script against
    /// `to_dir`: the script sees `INSTALL_DIR`, and, where an extra path
    /// fragment was configured, a `PATH` with that fragment in front of
    /// the caller's `path_var`.
    pub fn install_plan(&self, to_dir: &str, script_path: &str, path_var: &str) -> (r: CommandPlan)
        ensures
            r.program@ == "/bin/bash"@,
            r.args@.len() == 1 + self.shell_args@.len(),
            r.args@[0]@ == script_path@,
            forall|i: int| 0 <= i < self.shell_args@.len() ==> (#[trigger] r.args@[1 + i])@
                == self.shell_args@[i]@,
            match self.extra_path_during_install {
                Option::Some(extra) => r.env@.len() == 2 && r.env@[0].0@ == "INSTALL_DIR"@
                    && r.env@[0].1@ == to_dir@ && r.env@[1].0@ == "PATH"@ && r.env@[1].1@ == extra@
                    + ":"@ + path_var@,
                Option::None => r.env@.len() == 1 && r.env@[0].0@ == "INSTALL_DIR"@ && r.env@[0].1@
                    == to_dir@,
            },
    {
        let mut args: Vec<String> = Vec::new();
        args.push(script_path.to_owned());
        let n = self.shell_args.len();
        let mut i: usize = 0;
        while i < n
            invariant
                n == self.shell_args@.len(),
                i <= n,
                args@.len() == 1 + i,
                args@[0]@ == script_path@,
                forall|j: int| 0 <= j < i ==> (#[trigger] args@[1 + j])@ == self.shell_args@[j]@,
            decreases n - i,
        {
            args.push(self.shell_args[i].clone());
            i = i + 1;
        }
        let mut env: Vec<(String, String)> = Vec::new();
        env.push(("INSTALL_DIR".to_owned(), to_dir.to_owned()));
        match &self.extra_path_during_install {
            Some(extra) => {
                let prefixed = concat3(extra.as_str(), ":", path_var);
                env.push(("PATH".to_owned(), prefixed));
            }
            None => {}
        }
        CommandPlan { program: "/bin/bash".to_owned(), args, env }
    }
}

impl Installer for Shell {
    open spec fn describe_spec(&self) -> Seq<char> {
        "shell installer for "@ + self.name@ + " v."@ + self.version@
    }

    fn describe(&self) -> (r: String) {
        let mut s = "shell installer for ".to_owned();
        s.append(self.name.as_str());
        s.append(" v.");
        s.append(self.version.as_str());
        s
    }
}

} // verus!
