//! App descriptors: the fully resolved, immutable specification of one
//! app at one pinned version, together with its chosen installer backend.
//!
//! Resolution looks the app up in the merged configuration, expands its
//! template if it names one, substitutes variables, and validates the
//! fields each backend requires.

use vstd::prelude::*;

use crate::conf::{ConfMap, ConfValue, ValView};
use crate::config::{merge_maps, merged_dict, resolve, subst_str, subst_table};
use crate::errors::OzyError;
use crate::installers::conda::{Conda, env_field_ok, string_list_ok};
use crate::installers::file::File;
use crate::installers::installer::{Installer, get_bool_or, get_str_field};
use crate::installers::pip::Pip;
use crate::installers::shell::Shell;
use crate::installers::single_binary_zip::SingleBinaryZip;
use crate::installers::tarball::Tarball;
use crate::installers::zip::Zip;
use crate::strutil::{concat2, concat3, str_eq};

verus! {

/// The known installer tags of the `type` field.
pub enum AppType {
    SingleBinaryZip,
    Tarball,
    Shell,
    File,
    Conda,
    Pip,
    Zip,
}

/// The installer backend an app descriptor owns: a closed set, one
/// variant per known `type` tag.
#[derive(Debug)]
pub enum InstallerKind {
    SingleBinaryZip(SingleBinaryZip),
    Tarball(Tarball),
    Shell(Shell),
    File(File),
    Conda(Conda),
    Pip(Pip),
    Zip(Zip),
}

impl Installer for InstallerKind {
    open spec fn describe_spec(&self) -> Seq<char> {
        match self {
            InstallerKind::SingleBinaryZip(x) => x.describe_spec(),
            InstallerKind::Tarball(x) => x.describe_spec(),
            InstallerKind::Shell(x) => x.describe_spec(),
            InstallerKind::File(x) => x.describe_spec(),
            InstallerKind::Conda(x) => x.describe_spec(),
            InstallerKind::Pip(x) => x.describe_spec(),
            InstallerKind::Zip(x) => x.describe_spec(),
        }
    }

    fn describe(&self) -> (r: String) {
        match self {
            InstallerKind::SingleBinaryZip(x) => x.describe(),
            InstallerKind::Tarball(x) => x.describe(),
            InstallerKind::Shell(x) => x.describe(),
            InstallerKind::File(x) => x.describe(),
            InstallerKind::Conda(x) => x.describe(),
            InstallerKind::Pip(x) => x.describe(),
            InstallerKind::Zip(x) => x.describe(),
        }
    }
}

/// A fully resolved app descriptor.
#[derive(Debug)]
pub struct App {
    /// The app's stable identity.
    pub name: String,
    /// The pinned version.
    pub version: String,
    /// The backend that installs it.
    pub installer: InstallerKind,
    /// Whether the installed tree may be moved to its final location, or
    /// must stay put and be linked to.
    pub relocatable: bool,
    /// The executable's path relative to the published directory.
    pub executable_path: String,
}

/// A mapping after variable substitution: every string value passes
/// through one substitution pass against the table the mapping itself
/// offers, every other value stands unchanged.
pub open spec fn substituted(
    m: Map<Seq<char>, ValView>,
    os: Seq<char>,
    arch: Seq<char>,
) -> Map<Seq<char>, ValView> {
    Map::new(
        |k: Seq<char>| m.contains_key(k),
        |k: Seq<char>|
            if m[k] is Str {
                ValView::Str(subst_str(subst_table(m, os, arch), m[k]->Str_0))
            } else {
                m[k]
            },
    )
}

/// Where resolving an app's entry mapping can end.
pub ghost enum Resolution {
    /// The configuration holds no `apps` mapping.
    MissingApps,
    /// The `apps` mapping does not bind the requested name.
    UnknownApp,
    /// The entry the name binds is no mapping.
    BadAppEntry,
    /// The entry names a template the configuration does not hold.
    MissingTemplate,
    /// The entry's working mapping, template expanded and substituted.
    Resolved(Map<Seq<char>, ValView>),
}

/// Resolve an app's entry to its working mapping: look the name up under
/// `apps`, overlay the entry onto a clone of its template where it names
/// one, then substitute variables.
#[verifier::opaque]
pub open spec fn resolve_app_entry(
    config: Map<Seq<char>, ValView>,
    name: Seq<char>,
    os: Seq<char>,
    arch: Seq<char>,
) -> Resolution {
    if !(config.contains_key("apps"@) && config["apps"@] is M) {
        Resolution::MissingApps
    } else {
        let apps = config["apps"@]->M_0;
        if !apps.contains_key(name) {
            Resolution::UnknownApp
        } else if !(apps[name] is M) {
            Resolution::BadAppEntry
        } else {
            let entry = apps[name]->M_0;
            if entry.contains_key("template"@) && entry["template"@] is Str {
                let t = entry["template"@]->Str_0;
                if config.contains_key("templates"@) && config["templates"@] is M
                    && config["templates"@]->M_0.contains_key(t)
                    && config["templates"@]->M_0[t] is M {
                    Resolution::Resolved(
                        substituted(
                            merge_maps(config["templates"@]->M_0[t]->M_0, entry),
                            os,
                            arch,
                        ),
                    )
                } else {
                    Resolution::MissingTemplate
                }
            } else {
                Resolution::Resolved(substituted(entry, os, arch))
            }
        }
    }
}

/// The installer tags the descriptor resolver knows.
pub open spec fn known_tag(tag: Seq<char>) -> bool {
    ||| tag == "single_binary_zip"@
    ||| tag == "tarball"@
    ||| tag == "shell_install"@
    ||| tag == "single_file"@
    ||| tag == "pip"@
    ||| tag == "conda"@
    ||| tag == "zip"@
}

/// Whether a working mapping holds what the tagged backend requires.
pub open spec fn variant_ok(tag: Seq<char>, w: Map<Seq<char>, ValView>) -> bool {
    if tag == "conda"@ || tag == "pip"@ {
        w.contains_key("package"@) && w["package"@] is Str && string_list_ok(w, "channels"@)
            && env_field_ok(w, "env"@)
    } else if tag == "shell_install"@ {
        w.contains_key("url"@) && w["url"@] is Str && string_list_ok(w, "shell_args"@)
    } else {
        w.contains_key("url"@) && w["url"@] is Str
    }
}

/// The backend carries the tag's variant, with the fields the working
/// mapping prescribes.
pub open spec fn kind_matches(
    ik: InstallerKind,
    tag: Seq<char>,
    w: Map<Seq<char>, ValView>,
    name: Seq<char>,
    version: Seq<char>,
) -> bool {
    match ik {
        InstallerKind::SingleBinaryZip(x) => tag == "single_binary_zip"@ && x.matches_config(
            w,
            name,
            version,
        ),
        InstallerKind::Tarball(x) => tag == "tarball"@ && x.matches_config(w, name, version),
        InstallerKind::Shell(x) => tag == "shell_install"@ && x.matches_config(w, name, version),
        InstallerKind::File(x) => tag == "single_file"@ && x.matches_config(w, name, version),
        InstallerKind::Conda(x) => tag == "conda"@ && x.matches_config(w, name, version),
        InstallerKind::Pip(x) => tag == "pip"@ && x.matches_config(w, name, version),
        InstallerKind::Zip(x) => tag == "zip"@ && x.matches_config(w, name, version),
    }
}

/// The descriptor's fields are exactly what the working mapping
/// prescribes.
#[verifier::opaque]
pub open spec fn app_matches(app: App, w: Map<Seq<char>, ValView>, name: Seq<char>) -> bool {
    &&& app.name@ == name
    &&& w.contains_key("version"@) && w["version"@] is Str && app.version@ == w["version"@]->Str_0
    &&& app.relocatable == (if w.contains_key("relocatable"@) && w["relocatable"@] is Bool {
        w["relocatable"@]->Bool_0
    } else {
        true
    })
    &&& app.executable_path@ == (if w.contains_key("executable_path"@)
        && w["executable_path"@] is Str {
        w["executable_path"@]->Str_0
    } else {
        name
    })
    &&& w.contains_key("type"@) && w["type"@] is Str && known_tag(w["type"@]->Str_0)
    &&& kind_matches(app.installer, w["type"@]->Str_0, w, name, app.version@)
}

/// A name resolves to a descriptor exactly when its entry resolves to a
/// working mapping holding a string version, a known tag, and the
/// tagged backend's required fields.
#[verifier::opaque]
pub open spec fn app_resolvable(
    config: Map<Seq<char>, ValView>,
    name: Seq<char>,
    os: Seq<char>,
    arch: Seq<char>,
) -> bool {
    &&& resolve_app_entry(config, name, os, arch) matches Resolution::Resolved(w)
    &&& w.contains_key("version"@) && w["version"@] is Str
    &&& w.contains_key("type"@) && w["type"@] is Str
    &&& known_tag(w["type"@]->Str_0)
    &&& variant_ok(w["type"@]->Str_0, w)
}

impl App {
    /// Build the descriptor for one app name against the merged
    /// configuration, on a host with the given raw operating-system and
    /// architecture names.
    pub fn new(name: &str, config: &ConfMap, os: &str, arch: &str) -> (r: Result<App, OzyError>)
        requires
            config.wf(),
        ensures
            r is Ok <==> app_resolvable(config@, name@, os@, arch@),
            r matches Ok(app) ==> app.name@ == name@,
            r matches Ok(app) ==> (resolve_app_entry(config@, name@, os@, arch@) matches
                Resolution::Resolved(w) ==> app_matches(app, w, name@)),
            r matches Err(e) ==> (e is NotFoundError || e is SchemaError) && (e is NotFoundError
                <==> (resolve_app_entry(config@, name@, os@, arch@) is UnknownApp
                || resolve_app_entry(config@, name@, os@, arch@) is MissingTemplate)),
            resolve_app_entry(config@, name@, os@, arch@) matches Resolution::Resolved(w) && !(
            w.contains_key("version"@) && w["version"@] is Str) ==> (r matches Err(e)
                && e.message_view() == "Expected a string version in config for "@ + name@),
            resolve_app_entry(config@, name@, os@, arch@) matches Resolution::Resolved(w) ==> (
            w.contains_key("version"@) && w["version"@] is Str && w.contains_key("type"@)
                && w["type"@] is Str && !known_tag(w["type"@]->Str_0) ==> (r matches Err(e)
                && e.message_view() == "App type "@ + w["type"@]->Str_0 + " not yet supported"@)),
    {
        proof {
            reveal(app_resolvable);
            reveal(app_matches);
            reveal(resolve_app_entry);
        }
        let apps = match config.get("apps") {
            Some(ConfValue::Dict(apps)) => apps,
            _ => {
                return Err(OzyError::SchemaError("Expected an apps section in the YAML".to_owned()));
            }
        };
        let entry = match apps.get(name) {
            Some(ConfValue::Dict(m)) => m,
            Some(_) => {
                return Err(
                    OzyError::SchemaError(
                        concat3("Expected a mapping for app ", name, " in the YAML"),
                    ),
                );
            }
            None => {
                return Err(
                    OzyError::NotFoundError(concat3("Could not find app ", name, " in config")),
                );
            }
        };
        let mut working: ConfMap;
        match entry.get("template") {
            Some(ConfValue::Str(t)) => {
                let templates = match config.get("templates") {
                    Some(ConfValue::Dict(ts)) => ts,
                    _ => {
                        return Err(
                            OzyError::NotFoundError(
                                concat3("Could not find template ", t.as_str(), " in config"),
                            ),
                        );
                    }
                };
                match templates.get(t.as_str()) {
                    Some(ConfValue::Dict(tmpl)) => {
                        working = merged_dict(tmpl, entry);
                    }
                    _ => {
                        return Err(
                            OzyError::NotFoundError(
                                concat3("Could not find template ", t.as_str(), " in config"),
                            ),
                        );
                    }
                }
            }
            _ => {
                working = entry.clone();
            }
        }
        let ghost base = working@;
        resolve(&mut working, os, arch);
        proof {
            assert(working@ =~= substituted(base, os@, arch@));
            assert(resolve_app_entry(config@, name@, os@, arch@) == Resolution::Resolved(working@));
        }
        let version = match get_str_field(&working, "version") {
            Some(v) => v,
            None => {
                return Err(
                    OzyError::SchemaError(concat2("Expected a string version in config for ", name)),
                );
            }
        };
        let relocatable = get_bool_or(&working, "relocatable", true);
        let tag = match get_str_field(&working, "type") {
            Some(t) => t,
            None => {
                return Err(
                    OzyError::SchemaError(
                        concat3(
                            "Expected a type field for app ",
                            name,
                            " that contains a string in the YAML",
                        ),
                    ),
                );
            }
        };
        proof {
            reveal_strlit("single_binary_zip");
            reveal_strlit("tarball");
            reveal_strlit("shell_install");
            reveal_strlit("single_file");
            reveal_strlit("pip");
            reveal_strlit("conda");
            reveal_strlit("zip");
            assert("pip"@.len() == 3 && "zip"@.len() == 3 && "pip"@[0] == 'p' && "zip"@[0] == 'z');
            assert("single_binary_zip"@.len() == 17 && "tarball"@.len() == 7 && "shell_install"@.len()
                == 13 && "single_file"@.len() == 11 && "conda"@.len() == 5);
        }
        let app_type: AppType = if str_eq(tag.as_str(), "single_binary_zip") {
            AppType::SingleBinaryZip
        } else if str_eq(tag.as_str(), "tarball") {
            AppType::Tarball
        } else if str_eq(tag.as_str(), "shell_install") {
            AppType::Shell
        } else if str_eq(tag.as_str(), "single_file") {
            AppType::File
        } else if str_eq(tag.as_str(), "pip") {
            AppType::Pip
        } else if str_eq(tag.as_str(), "conda") {
            AppType::Conda
        } else if str_eq(tag.as_str(), "zip") {
            AppType::Zip
        } else {
            return Err(OzyError::SchemaError(concat3("App type ", tag.as_str(), " not yet supported")));
        };
        let installer: InstallerKind = match app_type {
            AppType::SingleBinaryZip => InstallerKind::SingleBinaryZip(
                SingleBinaryZip::new(name, version.as_str(), &working)?,
            ),
            AppType::Zip => InstallerKind::Zip(Zip::new(name, version.as_str(), &working)?),
            AppType::Tarball => InstallerKind::Tarball(
                Tarball::new(name, version.as_str(), &working)?,
            ),
            AppType::Shell => InstallerKind::Shell(Shell::new(name, version.as_str(), &working)?),
            AppType::File => InstallerKind::File(File::new(name, version.as_str(), &working)?),
            AppType::Conda => InstallerKind::Conda(Conda::new(name, version.as_str(), &working)?),
            AppType::Pip => InstallerKind::Pip(Pip::new(name, version.as_str(), &working)?),
        };
        let executable_path = match get_str_field(&working, "executable_path") {
            Some(v) => v,
            None => name.to_owned(),
        };
        Ok(App { name: name.to_owned(), version, installer, relocatable, executable_path })
    }

    /// The published install directory for this app and version.
    pub fn get_install_path(&self, home: &str) -> (r: String)
        ensures
            r@ == spec_install_path(home@, self.name@, self.version@),
    {
        let cache = crate::files::get_ozy_cache_dir(home);
        let with_name = crate::files::path_join(cache.as_str(), self.name.as_str());
        crate::files::path_join(with_name.as_str(), self.version.as_str())
    }

    /// The private staging directory a build of this app and version
    /// uses; derived from the pair, not randomized per attempt.
    pub fn get_internal_install_path(&self, home: &str) -> (r: String)
        ensures
            r@ == spec_internal_install_path(home@, self.name@, self.version@),
    {
        let cache = crate::files::get_ozy_cache_dir(home);
        let staging = crate::files::path_join(cache.as_str(), "internal_install");
        let with_name = crate::files::path_join(staging.as_str(), self.name.as_str());
        crate::files::path_join(with_name.as_str(), self.version.as_str())
    }

    /// The installed executable: the published directory joined with the
    /// descriptor's executable-relative path.
    pub fn get_absolute_executable_path(&self, home: &str) -> (r: String)
        ensures
            r@ == spec_install_path(home@, self.name@, self.version@) + "/"@
                + self.executable_path@,
    {
        let dir = self.get_install_path(home);
        crate::files::path_join(dir.as_str(), self.executable_path.as_str())
    }

    /// The descriptor rendered for listings: name, version, and the
    /// installer's summary.
    pub fn render(&self) -> (r: String)
        ensures
            r@ == self.name@ + " "@ + self.version@ + ": "@ + self.installer.describe_spec(),
    {
        let mut s = self.name.clone();
        s.append(" ");
        s.append(self.version.as_str());
        s.append(": ");
        let described = self.installer.describe();
        s.append(described.as_str());
        s
    }
}

/// The published install directory for a name and version.
pub open spec fn spec_install_path(home: Seq<char>, name: Seq<char>, version: Seq<char>) -> Seq<
    char,
> {
    home + "/.cache/ozy"@ + "/"@ + name + "/"@ + version
}

/// The private staging directory for a name and version.
pub open spec fn spec_internal_install_path(
    home: Seq<char>,
    name: Seq<char>,
    version: Seq<char>,
) -> Seq<char> {
    home + "/.cache/ozy"@ + "/"@ + "internal_install"@ + "/"@ + name + "/"@ + version
}

impl PartialEq for App {
    /// Two descriptors are equal when name, version, relocatable flag,
    /// executable path and installer description all agree; the backend's
    /// other fields are not compared.
    fn eq(&self, other: &App) -> (r: bool) {
        let self_desc = self.installer.describe();
        let other_desc = other.installer.describe();
        str_eq(self.name.as_str(), other.name.as_str()) && str_eq(
            self.version.as_str(),
            other.version.as_str(),
        ) && self.relocatable == other.relocatable && str_eq(
            self.executable_path.as_str(),
            other.executable_path.as_str(),
        ) && str_eq(self_desc.as_str(), other_desc.as_str())
    }
}

impl vstd::std_specs::cmp::PartialEqSpecImpl for App {
    open spec fn obeys_eq_spec() -> bool {
        true
    }

    open spec fn eq_spec(&self, other: &App) -> bool {
        &&& self.name@ == other.name@
        &&& self.version@ == other.version@
        &&& self.relocatable == other.relocatable
        &&& self.executable_path@ == other.executable_path@
        &&& self.installer.describe_spec() == other.installer.describe_spec()
    }
}

/// Descriptor equality is determined by the five-field identity basis —
/// name, version, relocatable flag, executable path and installer
/// description — so equal descriptors agree on any hash derived from
/// those fields.
pub proof fn lemma_eq_hash_basis(a: App, b: App)
    ensures
        vstd::std_specs::cmp::PartialEqSpec::eq_spec(&a, &b) <==> (a.name@ == b.name@ && a.version@
            == b.version@ && a.relocatable == b.relocatable && a.executable_path@
            == b.executable_path@ && a.installer.describe_spec() == b.installer.describe_spec()),
{
}

/// A key the app entry itself binds wins over the same key inherited
/// from its template, wherever the entry's and the template's values are
/// not both nested mappings; where both are, the nested mappings merge
/// and the entry's keys win inside, recursively.
pub proof fn lemma_app_key_wins(
    tmpl: Map<Seq<char>, ValView>,
    app_entry: Map<Seq<char>, ValView>,
    k: Seq<char>,
)
    requires
        app_entry.contains_key(k),
        !(tmpl.contains_key(k) && tmpl[k] is M && app_entry[k] is M),
    ensures
        merge_maps(tmpl, app_entry).contains_key(k),
        merge_maps(tmpl, app_entry)[k] == app_entry[k],
{
    let m = merge_maps(tmpl, app_entry);
    if tmpl.contains_key(k) {
        assert(m[k] == crate::config::merge_val(tmpl[k], app_entry[k]));
        assert(crate::config::merge_val(tmpl[k], app_entry[k]) == app_entry[k]);
    } else {
        assert(m[k] == app_entry[k]);
    }
}

/// Build the descriptor for the app about to be run, naming the app in
/// the failure's context.
pub fn find_app(config: &ConfMap, app: &String, os: &str, arch: &str) -> (r: Result<App, OzyError>)
    requires
        config.wf(),
    ensures
        r is Ok <==> app_resolvable(config@, app@, os@, arch@),
        r matches Ok(a) ==> (resolve_app_entry(config@, app@, os@, arch@) matches
            Resolution::Resolved(w) ==> app_matches(a, w, app@)),
        r matches Err(e) ==> e is NotFoundError || e is SchemaError,
{
    match App::new(app.as_str(), config, os, arch) {
        Ok(a) => Ok(a),
        Err(e) => {
            let context = concat3("While attempting to find the app ", app.as_str(), " to run");
            Err(e.with_context(context.as_str()))
        }
    }
}

/// The configuration's app names in declaration order: the keys of the
/// mapping its `apps` entry holds, or nothing where it holds none.
pub open spec fn apps_key_order(config: ConfMap) -> Seq<Seq<char>> {
    let idx = crate::conf::entry_index(config.entries@, "apps"@);
    if idx >= 0 && config.entries@[idx].1 is Dict {
        config.entries@[idx].1->Dict_0.keys()
    } else {
        Seq::empty()
    }
}

/// The names among the declared ones that resolve to descriptors, in
/// declaration order.
pub open spec fn expected_app_names(
    keys: Seq<Seq<char>>,
    config: Map<Seq<char>, ValView>,
    os: Seq<char>,
    arch: Seq<char>,
) -> Seq<Seq<char>>
    decreases keys.len(),
{
    if keys.len() == 0 {
        Seq::empty()
    } else if app_resolvable(config, keys.last(), os, arch) {
        expected_app_names(keys.drop_last(), config, os, arch).push(keys.last())
    } else {
        expected_app_names(keys.drop_last(), config, os, arch)
    }
}

/// The names among the declared ones that fail to resolve, in
/// declaration order.
pub open spec fn expected_skipped_names(
    keys: Seq<Seq<char>>,
    config: Map<Seq<char>, ValView>,
    os: Seq<char>,
    arch: Seq<char>,
) -> Seq<Seq<char>>
    decreases keys.len(),
{
    if keys.len() == 0 {
        Seq::empty()
    } else if app_resolvable(config, keys.last(), os, arch) {
        expected_skipped_names(keys.drop_last(), config, os, arch)
    } else {
        expected_skipped_names(keys.drop_last(), config, os, arch).push(keys.last())
    }
}

/// Every declared name lands among the expected descriptors or the
/// expected skips, according to whether it resolves.
proof fn lemma_expected_names_complete(
    keys: Seq<Seq<char>>,
    config: Map<Seq<char>, ValView>,
    os: Seq<char>,
    arch: Seq<char>,
    j: int,
)
    requires
        0 <= j < keys.len(),
    ensures
        app_resolvable(config, keys[j], os, arch) ==> expected_app_names(
            keys,
            config,
            os,
            arch,
        ).contains(keys[j]),
        !app_resolvable(config, keys[j], os, arch) ==> expected_skipped_names(
            keys,
            config,
            os,
            arch,
        ).contains(keys[j]),
    decreases keys.len(),
{
    if j == keys.len() - 1 {
        if app_resolvable(config, keys[j], os, arch) {
            let e = expected_app_names(keys, config, os, arch);
            assert(e.last() == keys[j]);
            assert(e.contains(keys[j]));
        } else {
            let e = expected_skipped_names(keys, config, os, arch);
            assert(e.last() == keys[j]);
            assert(e.contains(keys[j]));
        }
    } else {
        assert(keys.drop_last()[j] == keys[j]);
        lemma_expected_names_complete(keys.drop_last(), config, os, arch, j);
        if app_resolvable(config, keys[j], os, arch) {
            let prev = expected_app_names(keys.drop_last(), config, os, arch);
            let a = choose|a: int| 0 <= a < prev.len() && prev[a] == keys[j];
            assert(expected_app_names(keys, config, os, arch)[a] == keys[j]);
            assert(expected_app_names(keys, config, os, arch).contains(keys[j]));
        } else {
            let prev = expected_skipped_names(keys.drop_last(), config, os, arch);
            let a = choose|a: int| 0 <= a < prev.len() && prev[a] == keys[j];
            assert(expected_skipped_names(keys, config, os, arch)[a] == keys[j]);
            assert(expected_skipped_names(keys, config, os, arch).contains(keys[j]));
        }
    }
}

/// The bulk flows process the declared apps in configuration order: the
/// descriptors carry exactly the resolvable names in declaration order,
/// and the skips carry exactly the failing names in declaration order.
pub open spec fn apps_in_config_order(
    apps: Seq<App>,
    skipped: Seq<(String, OzyError)>,
    keys: Seq<Seq<char>>,
    config: Map<Seq<char>, ValView>,
    os: Seq<char>,
    arch: Seq<char>,
) -> bool {
    &&& apps.len() == expected_app_names(keys, config, os, arch).len()
    &&& forall|a: int|
        0 <= a < apps.len() ==> (#[trigger] apps[a]).name@ == expected_app_names(
            keys,
            config,
            os,
            arch,
        )[a]
    &&& skipped.len() == expected_skipped_names(keys, config, os, arch).len()
    &&& forall|a: int|
        0 <= a < skipped.len() ==> (#[trigger] skipped[a]).0@ == expected_skipped_names(
            keys,
            config,
            os,
            arch,
        )[a]
}

/// Every descriptor the bulk flows produce is correctly resolved for its
/// own name, every skipped name failed resolution, and every app name of
/// the configuration lands in exactly one of the two lists.
pub open spec fn apps_accounted(
    apps: Seq<App>,
    skipped: Seq<(String, OzyError)>,
    config: Map<Seq<char>, ValView>,
    os: Seq<char>,
    arch: Seq<char>,
) -> bool {
    &&& forall|i: int| 0 <= i < apps.len() ==> app_resolvable(
        config,
        (#[trigger] apps[i]).name@,
        os,
        arch,
    ) && (resolve_app_entry(config, apps[i].name@, os, arch) matches Resolution::Resolved(w)
        ==> app_matches(apps[i], w, apps[i].name@))
    &&& forall|i: int| 0 <= i < skipped.len() ==> !app_resolvable(
        config,
        (#[trigger] skipped[i]).0@,
        os,
        arch,
    )
    &&& forall|k: Seq<char>| config.contains_key("apps"@) && config["apps"@] is M
        && #[trigger] config["apps"@]->M_0.contains_key(k) ==> (exists|i: int|
        0 <= i < apps.len() && (#[trigger] apps[i]).name@ == k) || (exists|i: int|
        0 <= i < skipped.len() && (#[trigger] skipped[i]).0@ == k)
}

/// Resolve every app the configuration declares: descriptors for the
/// names that resolve, and each failing name with its failure, to be
/// skipped and warned about by bulk flows.
#[verifier::rlimit(100)]
pub fn get_apps(config: &ConfMap, os: &str, arch: &str) -> (r: Result<
    (Vec<App>, Vec<(String, OzyError)>),
    OzyError,
>)
    requires
        config.wf(),
    ensures
        r is Ok <==> config@.contains_key("apps"@) && config@["apps"@] is M,
        r matches Err(e) ==> e is SchemaError,
        r matches Ok(pair) ==> apps_accounted(pair.0@, pair.1@, config@, os@, arch@),
        r matches Ok(pair) ==> apps_in_config_order(
            pair.0@,
            pair.1@,
            apps_key_order(*config),
            config@,
            os@,
            arch@,
        ),
{
    let app_configs = match config.get("apps") {
        Some(ConfValue::Dict(m)) => m,
        _ => {
            return Err(OzyError::SchemaError("Expected an apps section in the YAML".to_owned()));
        }
    };
    let ghost keys = apps_key_order(*config);
    proof {
        assert(exists|j: int|
            0 <= j < config.entries@.len() && (#[trigger] config.entries@[j]).0@ == "apps"@
                && config.entries@[j].1 == ConfValue::Dict(*app_configs));
        let j = choose|j: int|
            0 <= j < config.entries@.len() && (#[trigger] config.entries@[j]).0@ == "apps"@
                && config.entries@[j].1 == ConfValue::Dict(*app_configs);
        crate::conf::lemma_entry_index(config.entries@, "apps"@);
        assert(crate::conf::unique_keys(config.entries@));
        assert(j == crate::conf::entry_index(config.entries@, "apps"@));
        assert(keys == app_configs.keys());
    }
    let mut apps: Vec<App> = Vec::new();
    let mut skipped: Vec<(String, OzyError)> = Vec::new();
    let n = app_configs.len();
    let mut i: usize = 0;
    while i < n
        invariant
            config.wf(),
            app_configs.wf(),
            config@.contains_key("apps"@),
            config@["apps"@] == ValView::M(app_configs@),
            n == app_configs.keys().len(),
            i <= n,
            keys == app_configs.keys(),
            apps_in_config_order(
                apps@,
                skipped@,
                keys.subrange(0, i as int),
                config@,
                os@,
                arch@,
            ),
            forall|j: int| 0 <= j < apps@.len() ==> app_resolvable(
                config@,
                (#[trigger] apps@[j]).name@,
                os@,
                arch@,
            ) && (resolve_app_entry(config@, apps@[j].name@, os@, arch@) matches
                Resolution::Resolved(w) ==> app_matches(apps@[j], w, apps@[j].name@)),
            forall|j: int| 0 <= j < skipped@.len() ==> !app_resolvable(
                config@,
                (#[trigger] skipped@[j]).0@,
                os@,
                arch@,
            ),
        decreases n - i,
    {
        let name = app_configs.key_at(i).clone();
        let ghost old_apps = apps@;
        let ghost old_skipped = skipped@;
        match App::new(name.as_str(), config, os, arch) {
            Ok(app) => {
                apps.push(app);
            }
            Err(e) => {
                skipped.push((name, e));
            }
        }
        proof {
            let prefix = keys.subrange(0, i as int);
            let extended = keys.subrange(0, i as int + 1);
            assert(extended.drop_last() =~= prefix);
            assert(extended.last() == keys[i as int]);
            assert(apps_in_config_order(apps@, skipped@, extended, config@, os@, arch@));
        }
        i = i + 1;
    }
    proof {
        assert(keys.subrange(0, n as int) =~= keys);
        // Completeness: the expected lists place every declared name in
        // one of the two produced lists.
        assert forall|k: Seq<char>| config@.contains_key("apps"@) && config@["apps"@] is M
            && #[trigger] config@["apps"@]->M_0.contains_key(k) implies (exists|a: int|
            0 <= a < apps@.len() && (#[trigger] apps@[a]).name@ == k) || (exists|a: int|
            0 <= a < skipped@.len() && (#[trigger] skipped@[a]).0@ == k) by {
            crate::conf::lemma_entries_view_contains(app_configs.entries@, k);
            let j = choose|j: int| 0 <= j < app_configs.entries@.len() && (
            #[trigger] app_configs.entries@[j]).0@ == k;
            assert(keys[j] == k);
            lemma_expected_names_complete(keys, config@, os@, arch@, j);
            if app_resolvable(config@, k, os@, arch@) {
                let a = choose|a: int|
                    0 <= a < expected_app_names(keys, config@, os@, arch@).len()
                        && expected_app_names(keys, config@, os@, arch@)[a] == k;
                assert(apps@[a].name@ == k);
            } else {
                let a = choose|a: int|
                    0 <= a < expected_skipped_names(keys, config@, os@, arch@).len()
                        && expected_skipped_names(keys, config@, os@, arch@)[a] == k;
                assert(skipped@[a].0@ == k);
            }
        }
        assert(apps_accounted(apps@, skipped@, config@, os@, arch@));
    }
    Ok((apps, skipped))
}

} // verus!
