//! The single-file backend: it downloads one file into the target
//! directory under the app's own name and marks it executable.

use vstd::prelude::*;

use crate::conf::ConfMap;
use crate::errors::OzyError;
use crate::installers::installer::{Installer, get_str_field};
use crate::strutil::concat2;

verus! {

/// A single-file installer.
#[derive(Debug)]
pub struct File {
    /// The app name, also the downloaded file's name.
    pub name: String,
    /// The pinned app version.
    pub version: String,
    /// Where the file is downloaded from.
    pub url: String,
}

impl File {
    /// The backend's fields are exactly what the resolved app mapping
    /// prescribes at this name and version.
    pub open spec fn matches_config(
        self,
        m: Map<Seq<char>, crate::conf::ValView>,
        name: Seq<char>,
        version: Seq<char>,
    ) -> bool {
        &&& m.contains_key("url"@) && m["url"@] is Str
        &&& self.name@ == name
        &&& self.version@ == version
        &&& self.url@ == m["url"@]->Str_0
    }

    /// Read a single-file backend out of a resolved app mapping: `url` is
    /// required.
    pub fn new(name: &str, version: &str, app_config: &ConfMap) -> (r: Result<File, OzyError>)
        requires
            app_config.wf(),
        ensures
            r matches Ok(c) ==> c.matches_config(app_config@, name@, version@),
            r matches Err(e) ==> e is SchemaError,
            r is Ok <==> app_config@.contains_key("url"@) && app_config@["url"@] is Str,
    {
        let url = match get_str_field(app_config, "url") {
            Some(u) => u,
            None => {
                return Err(
                    OzyError::SchemaError(concat2("Expected a string url in config for ", name)),
                );
            }
        };
        Ok(File { name: name.to_owned(), version: version.to_owned(), url })
    }

    /// The path the downloaded file is written to, inside `to_dir`.
    pub fn destination(&self, to_dir: &str) -> (r: String)
        ensures
            r@ == crate::files::spec_path_join(to_dir@, self.name@),
    {
        crate::files::path_join(to_dir, self.name.as_str())
    }
}

impl Installer for File {
    open spec fn describe_spec(&self) -> Seq<char> {
        "file installer for "@ + self.name@ + " v."@ + self.version@
    }

    fn describe(&self) -> (r: String) {
        let mut s = "file installer for ".to_owned();
        s.append(self.name.as_str());
        s.append(" v.");
        s.append(self.version.as_str());
        s
    }
}

} // verus!
