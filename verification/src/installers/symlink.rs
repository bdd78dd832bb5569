//! The symlink backend: it points a link inside the target directory at
//! an existing path elsewhere on the filesystem.

use vstd::prelude::*;

use crate::conf::ConfMap;
use crate::errors::OzyError;
use crate::installers::installer::{Installer, get_str_field};
use crate::strutil::{concat2, concat3};

verus! {

/// A symlink installer.
#[derive(Debug)]
pub struct Symlink {
    /// The app name, also the link's name.
    pub name: String,
    /// The pinned app version.
    pub version: String,
    /// The path the link points at.
    pub path: String,
}

impl Symlink {
    /// The backend's fields are exactly what the resolved app mapping
    /// prescribes at this name and version.
    pub open spec fn matches_config(
        self,
        m: Map<Seq<char>, crate::conf::ValView>,
        name: Seq<char>,
        version: Seq<char>,
    ) -> bool {
        &&& m.contains_key("path"@) && m["path"@] is Str
        &&& self.name@ == name
        &&& self.version@ == version
        &&& self.path@ == m["path"@]->Str_0
    }

    /// Read a symlink backend out of a resolved app mapping: `path` is
    /// required.
    pub fn new(name: &str, version: &str, app_config: &ConfMap) -> (r: Result<Symlink, OzyError>)
        requires
            app_config.wf(),
        ensures
            r matches Ok(c) ==> c.matches_config(app_config@, name@, version@),
            r matches Err(e) ==> e is SchemaError,
            r is Ok <==> app_config@.contains_key("path"@) && app_config@["path"@] is Str,
    {
        let path = match get_str_field(app_config, "path") {
            Some(p) => p,
            None => {
                return Err(
                    OzyError::SchemaError(concat2("Expected a string path in config for ", name)),
                );
            }
        };
        Ok(Symlink { name: name.to_owned(), version: version.to_owned(), path })
    }

    /// Where the link is created inside `to_dir`, provided the target
    /// path exists; a missing target is the backend's failure.
    pub fn link_plan(&self, to_dir: &str, target_exists: bool) -> (r: Result<String, OzyError>)
        ensures
            r is Ok <==> target_exists,
            r matches Ok(p) ==> p@ == crate::files::spec_path_join(to_dir@, self.name@),
            r matches Err(e) ==> e is InstallError,
    {
        if !target_exists {
            return Err(
                OzyError::InstallError(
                    concat3("Destination symlink ", self.path.as_str(), " doesn't exist"),
                ),
            );
        }
        Ok(crate::files::path_join(to_dir, self.name.as_str()))
    }
}

impl Installer for Symlink {
    open spec fn describe_spec(&self) -> Seq<char> {
        "symlink installer for "@ + self.name@ + " v"@ + self.version@
    }

    fn describe(&self) -> (r: String) {
        let mut s = "symlink installer for ".to_owned();
        s.append(self.name.as_str());
        s.append(" v");
        s.append(self.version.as_str());
        s
    }
}

} // verus!
