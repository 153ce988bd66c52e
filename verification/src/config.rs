//! Where the configuration lives, and the operations on its host entries.

use vstd::prelude::*;
use crate::error::Error;
use crate::model::{entry_views, names_present, names_unique, Config, HostEntry, HostEntryView};
use crate::platform::{home_dir, join_path, joined_path, path_exists};
use crate::record::{
    config_from_record, decoded, encoded, is_parse_error, lemma_record_round_trip, record_of,
    ConfigRecord, HostRecordView,
};
use crate::text::{opt_str_text, opt_text};

verus! {

/// Two settings of the environment for one thing, the first of which wins.
#[derive(Debug, PartialEq, Eq)]
pub struct Overrides {
    pub primary: Option<String>,
    pub compat: Option<String>,
}

impl Overrides {
    /// The setting in force: the primary one if it is set, else the other.
    pub open spec fn chosen(&self) -> Option<Seq<char>> {
        match self.primary {
            Some(p) => Some(p@),
            None => opt_text(self.compat),
        }
    }

    /// The setting in force.
    pub fn in_force(&self) -> (r: Option<&str>)
        ensures
            opt_str_text(r) == self.chosen(),
    {
        match &self.primary {
            Some(p) => Some(p.as_str()),
            None => match &self.compat {
                Some(c) => Some(c.as_str()),
                None => None,
            },
        }
    }
}

/// What the machine says about the user's home: the home directory, and which
/// of the three default configuration directories exist under it.
#[derive(Debug, PartialEq, Eq)]
pub struct HomeProbe {
    pub home: String,
    pub preferred_exists: bool,
    pub compat_exists: bool,
    pub legacy_exists: bool,
}

/// Mathematical value of a [`HomeProbe`].
pub struct HomeProbeView {
    pub home: Seq<char>,
    pub preferred_exists: bool,
    pub compat_exists: bool,
    pub legacy_exists: bool,
}

impl View for HomeProbe {
    type V = HomeProbeView;

    open spec fn view(&self) -> HomeProbeView {
        HomeProbeView {
            home: self.home@,
            preferred_exists: self.preferred_exists,
            compat_exists: self.compat_exists,
            legacy_exists: self.legacy_exists,
        }
    }
}

/// Environment variable that names the configuration directory.
pub const DIR_VAR: &'static str = "SSHR_DIR";

/// Environment variable that is read when [`DIR_VAR`] is not set.
pub const DIR_VAR_COMPAT: &'static str = "SSHC_DIR";

/// Name of the preferred configuration directory under the home directory.
pub const PREFERRED_DIR: &'static str = ".ssh-r";

/// Name of the directory that is accepted for compatibility.
pub const COMPAT_DIR: &'static str = ".ssh-c";

/// Name of the second directory that is accepted for compatibility.
pub const LEGACY_DIR: &'static str = ".shh-c";

/// Name of the configuration file inside the configuration directory.
pub const CONFIG_FILE: &'static str = "config.json";

/// Name of the default directory to use: the first that exists, in the order
/// preferred, compat, legacy; the preferred one when none exists.
pub open spec fn default_dir_name(probe: HomeProbeView) -> Seq<char> {
    if probe.preferred_exists {
        PREFERRED_DIR@
    } else if probe.compat_exists {
        COMPAT_DIR@
    } else if probe.legacy_exists {
        LEGACY_DIR@
    } else {
        PREFERRED_DIR@
    }
}

/// The configuration directory: the override in force if there is one, else
/// the default directory under the home directory; without either, the home
/// directory cannot be resolved.
pub open spec fn resolved_dir(chosen: Option<Seq<char>>, home: Option<HomeProbeView>) -> Result<
    Seq<char>,
    Error,
> {
    match chosen {
        Some(dir) => Ok(dir),
        None => match home {
            Some(probe) => Ok(joined_path(probe.home, default_dir_name(probe))),
            None => Err(Error::HomeUnresolvable),
        },
    }
}

/// The text of a path or the failure in its place.
pub open spec fn path_result(r: Result<String, Error>) -> Result<Seq<char>, Error> {
    match r {
        Ok(path) => Ok(path@),
        Err(e) => Err(e),
    }
}

/// The value of an optional probe.
pub open spec fn opt_probe_view(probe: Option<&HomeProbe>) -> Option<HomeProbeView> {
    match probe {
        Some(p) => Some(p@),
        None => None,
    }
}

/// Name of the default directory to use under the probed home directory.
pub fn pick_dir_name(probe: &HomeProbe) -> (name: &'static str)
    ensures
        name@ == default_dir_name(probe@),
{
    if probe.preferred_exists {
        PREFERRED_DIR
    } else if probe.compat_exists {
        COMPAT_DIR
    } else if probe.legacy_exists {
        LEGACY_DIR
    } else {
        PREFERRED_DIR
    }
}

/// Resolves the configuration directory from the overrides of the
/// environment and from what was found out about the home directory
/// (`None`: it could not be determined).
///
/// An override wins and is returned as it is. Without one, the result is the
/// first existing default directory under the home directory, or the
/// preferred one when none exists yet: it is returned without being created.
/// Fails with [`Error::HomeUnresolvable`] exactly when there is neither an
/// override nor a home directory.
pub fn resolve_config_dir(overrides: &Overrides, home: Option<&HomeProbe>) -> (dir: Result<
    String,
    Error,
>)
    ensures
        path_result(dir) == resolved_dir(overrides.chosen(), opt_probe_view(home)),
{
    match overrides.in_force() {
        Some(dir) => Ok(dir.to_owned()),
        None => match home {
            Some(probe) => Ok(join_path(probe.home.as_str(), pick_dir_name(probe))),
            None => Err(Error::HomeUnresolvable),
        },
    }
}

/// Looks at the machine: the home directory, and which default directories
/// exist under it.
fn probe_home() -> (probe: Option<HomeProbe>) {
    match home_dir() {
        Some(home) => {
            let preferred_exists = path_exists(join_path(home.as_str(), PREFERRED_DIR).as_str());
            let compat_exists = path_exists(join_path(home.as_str(), COMPAT_DIR).as_str());
            let legacy_exists = path_exists(join_path(home.as_str(), LEGACY_DIR).as_str());
            Some(HomeProbe { home, preferred_exists, compat_exists, legacy_exists })
        },
        None => None,
    }
}

/// The configuration directory on this machine, given the overrides of the
/// environment.
///
/// With an override in force the result is that override. Without one the
/// machine is asked for the home directory and the result is that of
/// [`resolved_dir`] for what it reported.
pub fn config_dir(overrides: &Overrides) -> (dir: Result<String, Error>)
    ensures
        overrides.chosen() is Some ==> path_result(dir) == resolved_dir(overrides.chosen(), None),
        exists|home: Option<HomeProbeView>|
            path_result(dir) == resolved_dir(overrides.chosen(), home),
{
    if overrides.in_force().is_some() {
        resolve_config_dir(overrides, None)
    } else {
        let probe = probe_home();
        match &probe {
            Some(p) => {
                let dir = resolve_config_dir(overrides, Some(p));
                dir
            },
            None => resolve_config_dir(overrides, None),
        }
    }
}

/// The configuration file inside the directory `dir`.
pub fn config_file_in(dir: &str) -> (path: String)
    ensures
        path@ == joined_path(dir@, CONFIG_FILE@),
{
    join_path(dir, CONFIG_FILE)
}

/// The configuration file inside a resolved directory, or the failure to
/// resolve it.
pub open spec fn file_in(dir: Result<Seq<char>, Error>) -> Result<Seq<char>, Error> {
    match dir {
        Ok(d) => Ok(joined_path(d, CONFIG_FILE@)),
        Err(e) => Err(e),
    }
}

/// The configuration file on this machine: `config.json` inside the
/// directory that [`config_dir`] gives.
pub fn config_path(overrides: &Overrides) -> (path: Result<String, Error>)
    ensures
        overrides.chosen() is Some ==> path_result(path) == file_in(
            resolved_dir(overrides.chosen(), None),
        ),
        exists|home: Option<HomeProbeView>|
            path_result(path) == file_in(resolved_dir(overrides.chosen(), home)),
{
    match config_dir(overrides) {
        Ok(dir) => {
            let path = Ok(config_file_in(dir.as_str()));
            assert(forall|home: Option<HomeProbeView>|
                Ok::<Seq<char>, Error>(dir@) == #[trigger] resolved_dir(overrides.chosen(), home)
                    ==> path_result(path) == file_in(resolved_dir(overrides.chosen(), home)));
            path
        },
        Err(e) => Err(e),
    }
}

/// With no override in force and neither compatibility directory on disk,
/// the configuration directory is the preferred one under the home
/// directory, whether or not it exists yet.
pub proof fn lemma_preferred_by_default(overrides: Overrides, probe: HomeProbeView)
    requires
        overrides.chosen() is None,
        !probe.compat_exists,
        !probe.legacy_exists,
    ensures
        resolved_dir(overrides.chosen(), Some(probe)) == Ok::<Seq<char>, Error>(
            joined_path(probe.home, PREFERRED_DIR@),
        ),
{
}

/// An override in force is the configuration directory, whatever is on disk.
pub proof fn lemma_override_wins(overrides: Overrides, home: Option<HomeProbeView>)
    requires
        overrides.chosen() is Some,
    ensures
        resolved_dir(overrides.chosen(), home) == Ok::<Seq<char>, Error>(overrides.chosen()->0),
{
}

/// What loading comes to: the configuration, and what has to be done on disk
/// before it is handed out.
#[derive(Debug, PartialEq, Eq)]
pub struct Loaded {
    pub config: Config,
    /// Create the configuration directory.
    pub create_dir: bool,
    /// Write these records to the configuration file.
    pub write: Option<ConfigRecord>,
}

/// Mathematical value of a [`Loaded`].
pub struct LoadedView {
    pub config: Seq<HostEntryView>,
    pub create_dir: bool,
    pub write: Option<Seq<HostRecordView>>,
}

impl View for Loaded {
    type V = LoadedView;

    open spec fn view(&self) -> LoadedView {
        LoadedView {
            config: self.config@,
            create_dir: self.create_dir,
            write: opt_records(self.write),
        }
    }
}

/// The value of optional records.
pub open spec fn opt_records(record: Option<ConfigRecord>) -> Option<Seq<HostRecordView>> {
    match record {
        Some(r) => Some(r@),
        None => None,
    }
}

/// The value of optional records, borrowed.
pub open spec fn opt_records_ref(record: Option<&ConfigRecord>) -> Option<Seq<HostRecordView>> {
    match record {
        Some(r) => Some(r@),
        None => None,
    }
}

/// What loading comes to, given whether the directory exists and the records
/// of the file, if there is a file. Without a file the configuration is the
/// empty one and is written; with a file the configuration is the one that
/// the records stand for, and nothing is written. A missing directory is
/// created. Nothing where the records are not valid.
pub open spec fn loaded(dir_exists: bool, file: Option<Seq<HostRecordView>>) -> Option<LoadedView> {
    match file {
        None => Some(
            LoadedView {
                config: Seq::empty(),
                create_dir: !dir_exists,
                write: Some(encoded(Seq::empty())),
            },
        ),
        Some(records) => match decoded(records) {
            Some(config) => Some(LoadedView { config, create_dir: !dir_exists, write: None }),
            None => None,
        },
    }
}

/// Loads the configuration from what was found on disk: whether the
/// directory exists, and the records of the file at `path`, `None` where
/// there is no file.
///
/// Without a file the empty configuration is returned, together with the
/// records to write for it. With a file nothing is to be written. Fails with
/// [`Error::ConfigParse`] carrying `path` exactly when there is a file and
/// its records are not valid.
pub fn load_or_init(dir_exists: bool, file: Option<&ConfigRecord>, path: &str) -> (r: Result<
    Loaded,
    Error,
>)
    ensures
        match r {
            Ok(l) => loaded(dir_exists, opt_records_ref(file)) == Some(l@),
            Err(e) => loaded(dir_exists, opt_records_ref(file)) is None && is_parse_error(e, path@),
        },
{
    match file {
        None => {
            let config = Config::default();
            let write = record_of(&config);
            Ok(Loaded { config, create_dir: !dir_exists, write: Some(write) })
        },
        Some(record) => match config_from_record(record, path) {
            Ok(config) => Ok(Loaded { config, create_dir: !dir_exists, write: None }),
            Err(e) => Err(e),
        },
    }
}

/// Loading a configuration that was saved gives it back and writes nothing.
pub proof fn lemma_load_after_save(hosts: Seq<HostEntryView>)
    ensures
        loaded(true, Some(encoded(hosts))) == Some(
            LoadedView { config: hosts, create_dir: false, write: None },
        ),
{
    lemma_record_round_trip(hosts);
}

/// Loading where nothing exists yet creates the directory and writes the
/// empty configuration; loading again then gives the same empty
/// configuration and changes nothing.
pub proof fn lemma_first_and_second_load()
    ensures
        loaded(false, None) matches Some(first) && first.config == Seq::<HostEntryView>::empty()
            && first.create_dir && first.write is Some && loaded(true, first.write) == Some(
            LoadedView { config: first.config, create_dir: false, write: None },
        ),
{
    lemma_load_after_save(Seq::<HostEntryView>::empty());
}

/// The names of `hosts`, in order.
pub open spec fn names(hosts: Seq<HostEntryView>) -> Seq<Seq<char>> {
    hosts.map_values(|h: HostEntryView| h.name)
}

/// Whether some entry of `hosts` is called `name`.
pub open spec fn has_name(hosts: Seq<HostEntryView>, name: Seq<char>) -> bool {
    names(hosts).contains(name)
}

/// Position of the first entry called `name`, if there is one.
pub open spec fn position_of(hosts: Seq<HostEntryView>, name: Seq<char>) -> Option<int> {
    names(hosts).index_of_first(name)
}

/// `hosts` with `entry` in the place of the first entry of the same name, or
/// at the end when there is none.
pub open spec fn upserted(hosts: Seq<HostEntryView>, entry: HostEntryView) -> Seq<HostEntryView> {
    match position_of(hosts, entry.name) {
        Some(i) => hosts.update(i, entry),
        None => hosts.push(entry),
    }
}

/// `hosts` without the entries called `name`, the others in their order.
pub open spec fn removed(hosts: Seq<HostEntryView>, name: Seq<char>) -> Seq<HostEntryView> {
    hosts.filter(|h: HostEntryView| h.name != name)
}

/// The first entry of `hosts` called `name`, if there is one.
pub open spec fn found(hosts: Seq<HostEntryView>, name: Seq<char>) -> Option<HostEntryView> {
    match position_of(hosts, name) {
        Some(i) => Some(hosts[i]),
        None => None,
    }
}

/// Whether `e` says that there is no alias `name`.
pub open spec fn is_alias_not_found(e: Error, name: Seq<char>) -> bool {
    e matches Error::AliasNotFound { name: n } && n@ == name
}

/// `position_of` is the least position that holds the name.
pub proof fn lemma_position_of(hosts: Seq<HostEntryView>, name: Seq<char>)
    ensures
        match position_of(hosts, name) {
            Some(i) => {
                &&& has_name(hosts, name)
                &&& 0 <= i < hosts.len()
                &&& hosts[i].name == name
                &&& forall|j: int| 0 <= j < i ==> hosts[j].name != name
            },
            None => {
                &&& !has_name(hosts, name)
                &&& forall|j: int| 0 <= j < hosts.len() ==> hosts[j].name != name
            },
        },
{
    let all = names(hosts);
    all.index_of_first_ensures(name);
    match position_of(hosts, name) {
        Some(i) => {
            assert forall|j: int| 0 <= j < i implies hosts[j].name != name by {
                assert(all[j] != name);
            }
        },
        None => {
            assert forall|j: int| 0 <= j < hosts.len() implies hosts[j].name != name by {
                if hosts[j].name == name {
                    assert(all[j] == name);
                }
            }
        },
    }
}

/// A position that holds the name, with none before it that does, is
/// `position_of`.
pub proof fn lemma_position_is(hosts: Seq<HostEntryView>, name: Seq<char>, i: int)
    requires
        0 <= i < hosts.len(),
        hosts[i].name == name,
        forall|j: int| 0 <= j < i ==> hosts[j].name != name,
    ensures
        position_of(hosts, name) == Some(i),
{
    lemma_position_of(hosts, name);
}

/// Position of the first entry of `hosts` called `name`.
fn position(hosts: &Vec<HostEntry>, name: &String) -> (found: Option<usize>)
    ensures
        match found {
            Some(i) => i < hosts.len() && position_of(entry_views(hosts@), name@) == Some(i as int),
            None => position_of(entry_views(hosts@), name@) is None,
        },
{
    let mut i: usize = 0;
    while i < hosts.len()
        invariant
            i <= hosts.len(),
            forall|j: int| 0 <= j < i ==> entry_views(hosts@)[j].name != name@,
        decreases hosts.len() - i,
    {
        if hosts[i].name == *name {
            proof {
                lemma_position_is(entry_views(hosts@), name@, i as int);
            }
            return Some(i);
        }
        i += 1;
    }
    proof {
        lemma_position_of(entry_views(hosts@), name@);
    }
    None
}

/// Puts `entry` into the configuration: in the place of the first entry of
/// the same name, or at the end when the name is new. Always succeeds.
///
/// The other entries keep their places. Names that were unique stay unique,
/// and with a named entry a well-formed configuration stays well formed.
pub fn upsert_host(cfg: Config, entry: HostEntry) -> (r: Result<Config, Error>)
    ensures
        r matches Ok(c) && c@ == upserted(cfg@, entry@),
        r matches Ok(c) && (names_unique(cfg@) ==> names_unique(c@)),
        r matches Ok(c) && (cfg.well_formed() && entry@.name.len() > 0 ==> c.well_formed()),
{
    let mut cfg = cfg;
    let ghost before = cfg@;
    let ghost value = entry@;
    match position(&cfg.hosts, &entry.name) {
        Some(i) => {
            cfg.hosts.set(i, entry);
        },
        None => {
            cfg.hosts.push(entry);
        },
    }
    proof {
        if names_unique(before) {
            lemma_upsert_keeps_unique(before, value);
        }
        if names_present(before) && value.name.len() > 0 {
            lemma_upsert_keeps_names(before, value);
        }
    }
    Ok(cfg)
}

/// Removes the entries called `name`.
///
/// Fails with [`Error::AliasNotFound`] carrying `name` exactly when no entry
/// has that name. Otherwise the other entries are returned in their order;
/// names that were unique stay unique, and a well-formed configuration stays
/// well formed.
pub fn remove_host(cfg: Config, name: &str) -> (r: Result<Config, Error>)
    ensures
        match r {
            Ok(c) => has_name(cfg@, name@) && c@ == removed(cfg@, name@),
            Err(e) => !has_name(cfg@, name@) && is_alias_not_found(e, name@),
        },
        r matches Ok(c) ==> (names_unique(cfg@) ==> names_unique(c@)),
        r matches Ok(c) ==> (cfg.well_formed() ==> c.well_formed()),
{
    let wanted = name.to_owned();
    let ghost keep = |h: HostEntryView| h.name != name@;
    let ghost all = cfg@;
    let mut kept: Vec<HostEntry> = Vec::new();
    let mut i: usize = 0;
    assert(entry_views(kept@) =~= all.take(0).filter(keep)) by {
        reveal(Seq::filter);
    }
    while i < cfg.hosts.len()
        invariant
            i <= cfg.hosts.len(),
            all == entry_views(cfg.hosts@),
            wanted@ == name@,
            keep == |h: HostEntryView| h.name != name@,
            entry_views(kept@) == all.take(i as int).filter(keep),
            kept@.len() == i <==> forall|j: int| 0 <= j < i ==> all[j].name != name@,
            kept@.len() <= i,
        decreases cfg.hosts.len() - i,
    {
        let ghost prefix = all.take(i as int);
        proof {
            prefix.lemma_filter_push(all[i as int], keep);
            assert(prefix.push(all[i as int]) =~= all.take(i + 1));
        }
        if cfg.hosts[i].name != wanted {
            kept.push(cfg.hosts[i].clone());
        }
        i += 1;
    }
    assert(all.take(i as int) =~= all);
    proof {
        lemma_position_of(all, name@);
        if names_unique(all) {
            lemma_remove_keeps_unique(all, name@);
        }
        if names_present(all) {
            lemma_remove_keeps_names(all, name@);
        }
    }
    if kept.len() == cfg.hosts.len() {
        Err(Error::AliasNotFound { name: wanted })
    } else {
        Ok(Config { hosts: kept })
    }
}

/// Looks up the first entry called `name` and returns a copy of it.
///
/// Fails with [`Error::AliasNotFound`] carrying `name` exactly when no entry
/// has that name.
pub fn find_host(cfg: &Config, name: &str) -> (r: Result<HostEntry, Error>)
    ensures
        match r {
            Ok(h) => found(cfg@, name@) == Some(h@),
            Err(e) => found(cfg@, name@) is None && is_alias_not_found(e, name@),
        },
{
    let wanted = name.to_owned();
    match position(&cfg.hosts, &wanted) {
        Some(i) => Ok(cfg.hosts[i].clone()),
        None => Err(Error::AliasNotFound { name: wanted }),
    }
}

/// After an upsert, a lookup by the entry's name finds that entry.
pub proof fn lemma_upsert_then_find(hosts: Seq<HostEntryView>, entry: HostEntryView)
    ensures
        found(upserted(hosts, entry), entry.name) == Some(entry),
{
    lemma_position_of(hosts, entry.name);
    let after = upserted(hosts, entry);
    match position_of(hosts, entry.name) {
        Some(i) => {
            lemma_position_is(after, entry.name, i);
        },
        None => {
            lemma_position_is(after, entry.name, hosts.len() as int);
        },
    }
}

/// An upsert under a name already present replaces the first entry of that
/// name where it stands: the length stays, every other entry stays in its
/// place, and the name is still first found at that position.
pub proof fn lemma_upsert_replaces_in_place(hosts: Seq<HostEntryView>, entry: HostEntryView)
    requires
        has_name(hosts, entry.name),
    ensures
        position_of(hosts, entry.name) is Some,
        upserted(hosts, entry).len() == hosts.len(),
        upserted(hosts, entry)[position_of(hosts, entry.name)->0] == entry,
        forall|j: int|
            0 <= j < hosts.len() && j != position_of(hosts, entry.name)->0 ==> upserted(
                hosts,
                entry,
            )[j] == hosts[j],
        position_of(upserted(hosts, entry), entry.name) == position_of(hosts, entry.name),
{
    lemma_position_of(hosts, entry.name);
    let i = position_of(hosts, entry.name)->0;
    lemma_position_is(upserted(hosts, entry), entry.name, i);
}

/// An upsert under a new name appends: the entries that were there stay in
/// their places and the new one comes last.
pub proof fn lemma_upsert_appends(hosts: Seq<HostEntryView>, entry: HostEntryView)
    requires
        !has_name(hosts, entry.name),
    ensures
        upserted(hosts, entry) == hosts.push(entry),
{
    lemma_position_of(hosts, entry.name);
}

/// An upsert keeps unique names unique.
pub proof fn lemma_upsert_keeps_unique(hosts: Seq<HostEntryView>, entry: HostEntryView)
    requires
        names_unique(hosts),
    ensures
        names_unique(upserted(hosts, entry)),
{
    lemma_position_of(hosts, entry.name);
}

/// Removing a name that no entry has leaves the entries as they are.
pub proof fn lemma_remove_absent(hosts: Seq<HostEntryView>, name: Seq<char>)
    requires
        !has_name(hosts, name),
    ensures
        removed(hosts, name) == hosts,
    decreases hosts.len(),
{
    let keep = |h: HostEntryView| h.name != name;
    reveal(Seq::filter);
    if hosts.len() > 0 {
        let rest = hosts.drop_last();
        assert forall|j: int| 0 <= j < hosts.len() implies hosts[j].name != name by {
            assert(names(hosts)[j] == hosts[j].name);
        }
        assert(!has_name(rest, name)) by {
            if has_name(rest, name) {
                let j = choose|j: int| 0 <= j < names(rest).len() && names(rest)[j] == name;
                assert(hosts[j].name == name);
            }
        }
        lemma_remove_absent(rest, name);
        assert(rest.push(hosts.last()) =~= hosts);
    }
}

/// After a removal no entry has the name, and every other entry is still
/// there.
pub proof fn lemma_remove_removes(hosts: Seq<HostEntryView>, name: Seq<char>)
    ensures
        !has_name(removed(hosts, name), name),
        forall|j: int|
            0 <= j < hosts.len() && hosts[j].name != name ==> removed(hosts, name).contains(
                #[trigger] hosts[j],
            ),
        removed(hosts, name).len() <= hosts.len(),
{
    let keep = |h: HostEntryView| h.name != name;
    let out = removed(hosts, name);
    broadcast use Seq::lemma_filter_pred, Seq::lemma_filter_contains, Seq::lemma_filter_len;
    if has_name(out, name) {
        let j = choose|j: int| 0 <= j < names(out).len() && names(out)[j] == name;
        assert(keep(out[j]));
    }
    assert forall|j: int| 0 <= j < hosts.len() && hosts[j].name != name implies out.contains(
        #[trigger] hosts[j],
    ) by {
        assert(keep(hosts[j]));
    }
}

/// A removal keeps unique names unique.
pub proof fn lemma_remove_keeps_unique(hosts: Seq<HostEntryView>, name: Seq<char>)
    requires
        names_unique(hosts),
    ensures
        names_unique(removed(hosts, name)),
    decreases hosts.len(),
{
    let keep = |h: HostEntryView| h.name != name;
    reveal(Seq::filter);
    if hosts.len() > 0 {
        let rest = hosts.drop_last();
        let last = hosts.last();
        let out = removed(rest, name);
        lemma_remove_keeps_unique(rest, name);
        assert forall|i: int| 0 <= i < out.len() implies out[i].name != last.name by {
            rest.lemma_filter_contains_rev(keep, out[i]);
            let k = choose|k: int| 0 <= k < rest.len() && rest[k] == out[i];
            assert(hosts[k].name == out[i].name);
        }
    }
}

/// An upsert of a named entry keeps every entry named.
pub proof fn lemma_upsert_keeps_names(hosts: Seq<HostEntryView>, entry: HostEntryView)
    requires
        names_present(hosts),
        entry.name.len() > 0,
    ensures
        names_present(upserted(hosts, entry)),
{
    lemma_position_of(hosts, entry.name);
}

/// A removal keeps every entry named.
pub proof fn lemma_remove_keeps_names(hosts: Seq<HostEntryView>, name: Seq<char>)
    requires
        names_present(hosts),
    ensures
        names_present(removed(hosts, name)),
{
    let keep = |h: HostEntryView| h.name != name;
    let out = removed(hosts, name);
    assert forall|i: int| 0 <= i < out.len() implies (#[trigger] out[i]).name.len() > 0 by {
        assert(out.contains(out[i]));
        hosts.lemma_filter_contains_rev(keep, out[i]);
        let k = choose|k: int| 0 <= k < hosts.len() && hosts[k] == out[i];
        assert(hosts[k].name.len() > 0);
    }
}

} // verus!
