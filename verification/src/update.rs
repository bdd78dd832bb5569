//! The self-update decisions: whether a check is due, and, once the
//! remote configuration is in hand, whether the running binary must
//! replace itself or the new configuration may simply be committed.

use vstd::prelude::*;

use crate::conf::{ConfMap, ConfValue, ValView};
use crate::config::{resolve, subst_str, subst_table};
use crate::errors::OzyError;
use crate::installers::installer::get_str_field;
use crate::version::{Version, parts_lt, semver_parts_of};

verus! {

/// What the controller must do after comparing versions.
pub enum UpdateAction {
    /// The remote version is strictly newer: download the new binary
    /// from this resolved address and replace the current process with
    /// it. The old process must never continue past this point.
    ReExec(String),
    /// The remote version is not newer: rename the downloaded
    /// configuration over the base file and re-establish the symlink
    /// farm.
    Commit,
}

/// An update check is due when the configuration declares a nonzero
/// update interval and at least that much time has passed since the base
/// configuration file last changed.
pub fn should_update(config: &ConfMap, elapsed_secs: u64) -> (r: bool)
    requires
        config.wf(),
    ensures
        r == (config@.contains_key("ozy_update_every"@) && config@["ozy_update_every"@] is Num
            && config@["ozy_update_every"@]->Num_0 != 0 && elapsed_secs
            >= config@["ozy_update_every"@]->Num_0),
{
    match config.get("ozy_update_every") {
        Some(ConfValue::Num(n)) => *n != 0 && elapsed_secs >= *n,
        _ => false,
    }
}

/// The address the update downloads the configuration from: the one
/// given on the command line, or the one persisted in the user
/// configuration.
pub fn update_url(explicit: Option<String>, user_conf: &ConfMap) -> (r: Result<String, OzyError>)
    requires
        user_conf.wf(),
    ensures
        r matches Ok(u) ==> match explicit {
            Option::Some(v) => u@ == v@,
            Option::None => user_conf@.contains_key("url"@) && user_conf@["url"@] == ValView::Str(
                u@,
            ),
        },
        r is Ok <==> explicit is Some || (user_conf@.contains_key("url"@)
            && user_conf@["url"@] is Str),
        r matches Err(e) ==> e is SchemaError,
{
    match explicit {
        Some(v) => Ok(v),
        None => match get_str_field(user_conf, "url") {
            Some(u) => Ok(u),
            None => Err(
                OzyError::SchemaError("No url in the user configuration".to_owned()),
            ),
        },
    }
}

/// The two-key mapping the binary address is resolved against: the
/// remote configuration's own download template under `ozy_download`,
/// and the remote version under `version`.
pub open spec fn download_slice(c: Map<Seq<char>, ValView>) -> Map<Seq<char>, ValView> {
    Map::<Seq<char>, ValView>::empty().insert("ozy_download"@, c["ozy_download"@]).insert(
        "version"@,
        c["ozy_version"@],
    )
}

/// The remote configuration declares a version strictly newer than the
/// running binary's.
pub open spec fn remote_is_newer(
    c: Map<Seq<char>, ValView>,
    current_version: Seq<char>,
) -> bool {
    &&& c.contains_key("ozy_version"@) && c["ozy_version"@] is Str
    &&& semver_parts_of(c["ozy_version"@]->Str_0) matches Some(remote)
    &&& semver_parts_of(current_version) matches Some(current)
    &&& parts_lt(current, remote)
}

/// Compare the downloaded remote configuration against the running
/// binary's own version and decide: a strictly newer remote version
/// mandates re-execution into the binary downloaded from the resolved
/// `ozy_download` address; anything else commits the new configuration.
pub fn update_decision(new_config: &ConfMap, current_version: &str, os: &str, arch: &str) -> (r:
    Result<UpdateAction, OzyError>)
    requires
        new_config.wf(),
    ensures
        r matches Ok(a) ==> (a is ReExec <==> remote_is_newer(new_config@, current_version@)),
        r matches Ok(a) ==> (a matches UpdateAction::ReExec(url) ==> new_config@.contains_key(
            "ozy_download"@,
        ) && new_config@["ozy_download"@] is Str && url@ == subst_str(
            subst_table(download_slice(new_config@), os@, arch@),
            new_config@["ozy_download"@]->Str_0,
        )),
        r is Ok <==> new_config@.contains_key("ozy_version"@) && new_config@["ozy_version"@] is Str
            && semver_parts_of(new_config@["ozy_version"@]->Str_0) is Some && semver_parts_of(
            current_version@,
        ) is Some && (remote_is_newer(new_config@, current_version@)
            ==> new_config@.contains_key("ozy_download"@) && new_config@["ozy_download"@] is Str),
        r matches Err(e) ==> e is SchemaError || e is ParseError,
{
    let remote_str = match get_str_field(new_config, "ozy_version") {
        Some(s) => s,
        None => {
            return Err(
                OzyError::SchemaError("Expected a string ozy_version in the remote config".to_owned()),
            );
        }
    };
    let remote = Version::parse(remote_str.as_str())?;
    let current = Version::parse(current_version)?;
    if !current.lt(&remote) {
        return Ok(UpdateAction::Commit);
    }
    let download_template = match get_str_field(new_config, "ozy_download") {
        Some(s) => s,
        None => {
            return Err(
                OzyError::SchemaError("Expected a string ozy_download in the remote config".to_owned()),
            );
        }
    };
    let mut slice = ConfMap::new();
    slice.insert("ozy_download".to_owned(), ConfValue::Str(download_template));
    slice.insert("version".to_owned(), ConfValue::Str(remote_str));
    proof {
        reveal_strlit("ozy_download");
        reveal_strlit("version");
        assert("ozy_download"@.len() == 12 && "version"@.len() == 7);
        assert(slice@ =~= download_slice(new_config@));
    }
    let ghost before = slice@;
    resolve(&mut slice, os, arch);
    match slice.get("ozy_download") {
        Some(ConfValue::Str(url)) => Ok(UpdateAction::ReExec(url.clone())),
        _ => {
            proof {
                assert(before.contains_key("ozy_download"@) && before["ozy_download"@] is Str);
                assert(slice@[("ozy_download"@)] is Str);
                assert(false);
            }
            Err(OzyError::SchemaError("unreachable".to_owned()))
        }
    }
}

} // verus!
