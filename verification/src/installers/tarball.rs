//! The generic archive backend: it downloads a compressed tar archive,
//! recognises the compression from the file contents alone, and hands
//! back the decompressed tar bytes for unpacking.

use vstd::prelude::*;

use crate::conf::ConfMap;
use crate::errors::OzyError;
use crate::installers::installer::{Installer, get_str_field};
use crate::strutil::concat2;

verus! {

/// A compression recognised from an archive's leading bytes.
pub enum CompressedFileType {
    BZIP2,
    GZIP2,
    XZ,
}

/// The compression an archive's contents declare: the gzip, bzip2 and xz
/// formats each open with a fixed magic sequence.
pub open spec fn spec_compression_of(b: Seq<u8>) -> Option<CompressedFileType> {
    if b.len() >= 3 && b[0] == 0x1fu8 && b[1] == 0x8bu8 && b[2] == 0x08u8 {
        Some(CompressedFileType::GZIP2)
    } else if b.len() >= 3 && b[0] == 0x42u8 && b[1] == 0x5au8 && b[2] == 0x68u8 {
        Some(CompressedFileType::BZIP2)
    } else if b.len() >= 6 && b[0] == 0xfdu8 && b[1] == 0x37u8 && b[2] == 0x7au8 && b[3] == 0x58u8
        && b[4] == 0x5au8 && b[5] == 0x00u8 {
        Some(CompressedFileType::XZ)
    } else {
        None
    }
}

/// Recognise a compression from the downloaded bytes; contents that
/// declare none of the known compressions are a hard error.
pub fn get_compressed_file_type(data: &Vec<u8>) -> (r: Result<CompressedFileType, OzyError>)
    ensures
        match r {
            Result::Ok(t) => spec_compression_of(data@) == Some(t),
            Result::Err(e) => e is InstallError && spec_compression_of(data@) is None,
        },
{
    if data.len() >= 3 && data[0] == 0x1fu8 && data[1] == 0x8bu8 && data[2] == 0x08u8 {
        Ok(CompressedFileType::GZIP2)
    } else if data.len() >= 3 && data[0] == 0x42u8 && data[1] == 0x5au8 && data[2] == 0x68u8 {
        Ok(CompressedFileType::BZIP2)
    } else if data.len() >= 6 && data[0] == 0xfdu8 && data[1] == 0x37u8 && data[2] == 0x7au8
        && data[3] == 0x58u8 && data[4] == 0x5au8 && data[5] == 0x00u8 {
        Ok(CompressedFileType::XZ)
    } else {
        Err(
            OzyError::InstallError(
                "unable to determine archive compression type from file contents".to_owned(),
            ),
        )
    }
}

/// What gzip decompression yields on given bytes.
pub uninterp spec fn gunzip_of(b: Seq<u8>) -> Seq<u8>;

/// Whether the gzip decoder accepts the given bytes whole.
pub uninterp spec fn gunzip_ok_of(b: Seq<u8>) -> bool;

/// What bzip2 decompression yields on given bytes.
pub uninterp spec fn bunzip2_of(b: Seq<u8>) -> Seq<u8>;

/// Whether the bzip2 decoder accepts the given bytes whole.
pub uninterp spec fn bunzip2_ok_of(b: Seq<u8>) -> bool;

/// What xz decompression yields on given bytes.
pub uninterp spec fn unxz_of(b: Seq<u8>) -> Seq<u8>;

/// Whether the xz decoder accepts the given bytes whole.
pub uninterp spec fn unxz_ok_of(b: Seq<u8>) -> bool;

/// Relies on flate2's GzDecoder: the decompressed bytes, and whether the
/// stream decodes at all, are functions of the input bytes alone; a
/// decoding failure is reported, never a panic.
#[verifier::external_body]
fn gunzip(data: &Vec<u8>) -> (r: Result<Vec<u8>, String>)
    ensures
        r matches Ok(v) ==> gunzip_ok_of(data@) && v@ == gunzip_of(data@),
        r is Err ==> !gunzip_ok_of(data@),
{
    let mut out: Vec<u8> = Vec::new();
    let mut decoder = flate2::read::GzDecoder::new(&data[..]);
    match std::io::Read::read_to_end(&mut decoder, &mut out) {
        Ok(_) => Ok(out),
        Err(e) => Err(format!("{}", e)),
    }
}

/// Relies on bzip2's BzDecoder: the decompressed bytes, and whether the
/// stream decodes at all, are functions of the input bytes alone; a
/// decoding failure is reported, never a panic.
#[verifier::external_body]
fn bunzip2(data: &Vec<u8>) -> (r: Result<Vec<u8>, String>)
    ensures
        r matches Ok(v) ==> bunzip2_ok_of(data@) && v@ == bunzip2_of(data@),
        r is Err ==> !bunzip2_ok_of(data@),
{
    let mut out: Vec<u8> = Vec::new();
    let mut decoder = bzip2::read::BzDecoder::new(&data[..]);
    match std::io::Read::read_to_end(&mut decoder, &mut out) {
        Ok(_) => Ok(out),
        Err(e) => Err(format!("{}", e)),
    }
}

/// Relies on xz2's XzDecoder: the decompressed bytes, and whether the
/// stream decodes at all, are functions of the input bytes alone; a
/// decoding failure is reported, never a panic.
#[verifier::external_body]
fn unxz(data: &Vec<u8>) -> (r: Result<Vec<u8>, String>)
    ensures
        r matches Ok(v) ==> unxz_ok_of(data@) && v@ == unxz_of(data@),
        r is Err ==> !unxz_ok_of(data@),
{
    let mut out: Vec<u8> = Vec::new();
    let mut decoder = xz2::read::XzDecoder::new(&data[..]);
    match std::io::Read::read_to_end(&mut decoder, &mut out) {
        Ok(_) => Ok(out),
        Err(e) => Err(format!("{}", e)),
    }
}

/// Decompress a downloaded archive after recognising its compression
/// from the contents: the result is the inner tar bytes; contents of
/// unknown compression, and streams the decoder rejects, are errors.
pub fn decompress_archive(data: &Vec<u8>) -> (r: Result<Vec<u8>, OzyError>)
    ensures
        r is Ok <==> match spec_compression_of(data@) {
            Some(CompressedFileType::GZIP2) => gunzip_ok_of(data@),
            Some(CompressedFileType::BZIP2) => bunzip2_ok_of(data@),
            Some(CompressedFileType::XZ) => unxz_ok_of(data@),
            None => false,
        },
        r matches Err(e) ==> e is InstallError,
        r matches Ok(v) ==> match spec_compression_of(data@) {
            Some(CompressedFileType::GZIP2) => v@ == gunzip_of(data@),
            Some(CompressedFileType::BZIP2) => v@ == bunzip2_of(data@),
            Some(CompressedFileType::XZ) => v@ == unxz_of(data@),
            None => false,
        },
{
    let kind = get_compressed_file_type(data)?;
    let decoded = match kind {
        CompressedFileType::GZIP2 => gunzip(data),
        CompressedFileType::BZIP2 => bunzip2(data),
        CompressedFileType::XZ => unxz(data),
    };
    match decoded {
        Ok(v) => Ok(v),
        Err(detail) => Err(OzyError::InstallError(detail)),
    }
}

/// A compressed tar-archive installer.
#[derive(Debug)]
pub struct Tarball {
    /// The app name.
    pub name: String,
    /// The pinned app version.
    pub version: String,
    /// Where the archive is downloaded from.
    pub url: String,
}

impl Tarball {
    /// The backend's fields are exactly what the resolved app mapping
    /// prescribes at this name and version.
    pub open spec fn matches_config(
        self,
        m: Map<Seq<char>, crate::conf::ValView>,
        name: Seq<char>,
        version: Seq<char>,
    ) -> bool {
        &&& m.contains_key("url"@) && m["url"@] is Str
        &&& self.name@ == name
        &&& self.version@ == version
        &&& self.url@ == m["url"@]->Str_0
    }

    /// Read a tarball backend out of a resolved app mapping: `url` is
    /// required.
    pub fn new(name: &str, version: &str, app_config: &ConfMap) -> (r: Result<Tarball, OzyError>)
        requires
            app_config.wf(),
        ensures
            r matches Ok(c) ==> c.matches_config(app_config@, name@, version@),
            r matches Err(e) ==> e is SchemaError,
            r is Ok <==> app_config@.contains_key("url"@) && app_config@["url"@] is Str,
    {
        let url = match get_str_field(app_config, "url") {
            Some(u) => u,
            None => {
                return Err(
                    OzyError::SchemaError(concat2("Expected a string url in config for ", name)),
                );
            }
        };
        Ok(Tarball { name: name.to_owned(), version: version.to_owned(), url })
    }
}

impl Installer for Tarball {
    open spec fn describe_spec(&self) -> Seq<char> {
        "tarball installer for "@ + self.name@ + " v."@ + self.version@
    }

    fn describe(&self) -> (r: String) {
        let mut s = "tarball installer for ".to_owned();
        s.append(self.name.as_str());
        s.append(" v.");
        s.append(self.version.as_str());
        s
    }
}

} // verus!
