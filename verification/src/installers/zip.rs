//! The generic zip backend: it downloads an archive and extracts it into
//! the target directory without flattening paths.

use vstd::prelude::*;

use crate::conf::ConfMap;
use crate::errors::OzyError;
use crate::installers::installer::{Installer, get_str_field};
use crate::strutil::concat2;

verus! {

/// A zip-archive installer.
#[derive(Debug)]
pub struct Zip {
    /// The app name.
    pub name: String,
    /// The pinned app version.
    pub version: String,
    /// Where the archive is downloaded from.
    pub url: String,
}

impl Zip {
    /// The backend's fields are exactly what the resolved app mapping
    /// prescribes at this name and version.
    pub open spec fn matches_config(
        self,
        m: Map<Seq<char>, crate::conf::ValView>,
        name: Seq<char>,
        version: Seq<char>,
    ) -> bool {
        &&& m.contains_key("url"@) && m["url"@] is Str
        &&& self.name@ == name
        &&& self.version@ == version
        &&& self.url@ == m["url"@]->Str_0
    }

    /// Read a zip backend out of a resolved app mapping: `url` is
    /// required.
    pub fn new(name: &str, version: &str, app_config: &ConfMap) -> (r: Result<Zip, OzyError>)
        requires
            app_config.wf(),
        ensures
            r matches Ok(c) ==> c.matches_config(app_config@, name@, version@),
            r matches Err(e) ==> e is SchemaError,
            r is Ok <==> app_config@.contains_key("url"@) && app_config@["url"@] is Str,
    {
        let url = match get_str_field(app_config, "url") {
            Some(u) => u,
            None => {
                return Err(
                    OzyError::SchemaError(concat2("Expected a string url in config for ", name)),
                );
            }
        };
        Ok(Zip { name: name.to_owned(), version: version.to_owned(), url })
    }
}

impl Installer for Zip {
    open spec fn describe_spec(&self) -> Seq<char> {
        "zip installer for "@ + self.name@ + " v"@ + self.version@
    }

    fn describe(&self) -> (r: String) {
        let mut s = "zip installer for ".to_owned();
        s.append(self.name.as_str());
        s.append(" v");
        s.append(self.version.as_str());
        s
    }
}

} // verus!
