//! The single-binary-archive backend: it downloads a zip archive that
//! must hold exactly one entry, and hands that entry's bytes back to be
//! written under the app's own name and marked executable.

use vstd::prelude::*;

use crate::conf::ConfMap;
use crate::errors::OzyError;
use crate::installers::installer::{Installer, get_str_field};
use crate::strutil::concat2;

verus! {

/// Whether the zip reader accepts these bytes as an archive.
pub uninterp spec fn zip_parses_of(b: Seq<u8>) -> bool;

/// How many entries a zip archive's central directory lists.
pub uninterp spec fn zip_entry_count_of(b: Seq<u8>) -> int;

/// Whether the zip reader can open and fully read one entry.
pub uninterp spec fn zip_entry_ok_of(b: Seq<u8>, index: int) -> bool;

/// The decompressed bytes of one entry of a zip archive.
pub uninterp spec fn zip_entry_of(b: Seq<u8>, index: int) -> Seq<u8>;

/// Relies on zip's ZipArchive::new and len: whether the bytes parse as
/// an archive, and the central directory's file count, are functions of
/// the archive bytes alone; bytes that are no zip archive are reported,
/// never a panic.
#[verifier::external_body]
fn zip_entry_count(data: &Vec<u8>) -> (r: Result<usize, String>)
    ensures
        r matches Ok(n) ==> zip_parses_of(data@) && n == zip_entry_count_of(data@),
        r is Err ==> !zip_parses_of(data@),
{
    match zip::ZipArchive::new(std::io::Cursor::new(&data[..])) {
        Ok(archive) => Ok(archive.len()),
        Err(e) => Err(format!("{}", e)),
    }
}

/// Relies on zip's ZipArchive::by_index: an entry's decompressed bytes,
/// and whether the entry can be opened and read, are functions of the
/// archive bytes and the index alone; a malformed archive or entry is
/// reported, never a panic.
#[verifier::external_body]
fn zip_entry_bytes(data: &Vec<u8>, index: usize) -> (r: Result<Vec<u8>, String>)
    ensures
        r matches Ok(v) ==> zip_parses_of(data@) && zip_entry_ok_of(data@, index as int) && v@
            == zip_entry_of(data@, index as int),
        r is Err ==> !(zip_parses_of(data@) && zip_entry_ok_of(data@, index as int)),
{
    let mut archive = match zip::ZipArchive::new(std::io::Cursor::new(&data[..])) {
        Ok(archive) => archive,
        Err(e) => return Err(format!("{}", e)),
    };
    let mut entry = match archive.by_index(index) {
        Ok(entry) => entry,
        Err(e) => return Err(format!("{}", e)),
    };
    let mut out: Vec<u8> = Vec::new();
    match std::io::Read::read_to_end(&mut entry, &mut out) {
        Ok(_) => Ok(out),
        Err(e) => Err(format!("{}", e)),
    }
}

/// A single-binary zip installer.
#[derive(Debug)]
pub struct SingleBinaryZip {
    /// The app name, also the extracted binary's name.
    pub name: String,
    /// The pinned app version.
    pub version: String,
    /// Where the archive is downloaded from.
    pub url: String,
}

impl SingleBinaryZip {
    /// The backend's fields are exactly what the resolved app mapping
    /// prescribes at this name and version.
    pub open spec fn matches_config(
        self,
        m: Map<Seq<char>, crate::conf::ValView>,
        name: Seq<char>,
        version: Seq<char>,
    ) -> bool {
        &&& m.contains_key("url"@) && m["url"@] is Str
        &&& self.name@ == name
        &&& self.version@ == version
        &&& self.url@ == m["url"@]->Str_0
    }

    /// Read a single-binary-zip backend out of a resolved app mapping:
    /// `url` is required.
    pub fn new(name: &str, version: &str, app_config: &ConfMap) -> (r: Result<
        SingleBinaryZip,
        OzyError,
    >)
        requires
            app_config.wf(),
        ensures
            r matches Ok(c) ==> c.matches_config(app_config@, name@, version@),
            r matches Err(e) ==> e is SchemaError,
            r is Ok <==> app_config@.contains_key("url"@) && app_config@["url"@] is Str,
    {
        let url = match get_str_field(app_config, "url") {
            Some(u) => u,
            None => {
                return Err(
                    OzyError::SchemaError(concat2("Expected a string url in config for ", name)),
                );
            }
        };
        Ok(SingleBinaryZip { name: name.to_owned(), version: version.to_owned(), url })
    }

    /// The one entry of the downloaded archive: an archive listing any
    /// other number of entries is a hard error, as is one the zip reader
    /// rejects.
    pub fn extract_single_entry(&self, data: &Vec<u8>) -> (r: Result<Vec<u8>, OzyError>)
        ensures
            r is Ok <==> zip_parses_of(data@) && zip_entry_count_of(data@) == 1 && zip_entry_ok_of(
                data@,
                0,
            ),
            r matches Ok(v) ==> v@ == zip_entry_of(data@, 0),
            r matches Err(e) ==> e is InstallError,
            zip_parses_of(data@) && zip_entry_count_of(data@) != 1 ==> (r matches Err(e)
                && e.message_view() == "More than one file in the zipfile at "@ + self.url@),
    {
        let count = match zip_entry_count(data) {
            Ok(c) => c,
            Err(detail) => {
                return Err(OzyError::InstallError(detail));
            }
        };
        if count != 1 {
            return Err(
                OzyError::InstallError(concat2("More than one file in the zipfile at ", self.url.as_str())),
            );
        }
        match zip_entry_bytes(data, 0) {
            Ok(v) => Ok(v),
            Err(detail) => Err(OzyError::InstallError(detail)),
        }
    }
}

impl Installer for SingleBinaryZip {
    open spec fn describe_spec(&self) -> Seq<char> {
        "single binary zip installer for "@ + self.name@ + " v."@ + self.version@
    }

    fn describe(&self) -> (r: String) {
        let mut s = "single binary zip installer for ".to_owned();
        s.append(self.name.as_str());
        s.append(" v.");
        s.append(self.version.as_str());
        s
    }
}

} // verus!
