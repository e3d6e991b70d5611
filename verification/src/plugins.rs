//! The registry of installed plugins: what a manifest declares, the records
//! of the plugins that are installed, and the steps by which a plugin is
//! installed, found again and removed.

use crate::error::{PluginError, PluginErrorView};
use crate::json::{json_parse, Json, JsonValue};
use crate::manifest::{load_manifest, loaded, manifest_fault, manifest_of, manifest_outcome};
use crate::plugin_api::{call_api, called, step_view, ApiRegistry, ApiStep, ApiStepView, ApiTable};
use crate::text::{copy_opt_text, copy_opt_texts, opt_text, opt_texts, str_equal};
use vstd::prelude::*;

verus! {

/// What a plugin's manifest declares.
#[derive(Debug, PartialEq, Eq)]
pub struct PluginInfo {
    pub name: String,
    pub id: String,
    pub display_name: Option<String>,
    pub version: String,
    pub description: String,
    pub main: String,
    pub author: Option<String>,
    pub requires_file_selection: Option<bool>,
    pub file_filters: Option<Vec<String>>,
    pub requires_output_file_selection: Option<bool>,
    pub output_file_filters: Option<Vec<String>>,
    pub default_output_file_name: Option<String>,
}

/// The mathematical value of a [`PluginInfo`].
pub struct PluginInfoView {
    pub name: Seq<char>,
    pub id: Seq<char>,
    pub display_name: Option<Seq<char>>,
    pub version: Seq<char>,
    pub description: Seq<char>,
    pub main: Seq<char>,
    pub author: Option<Seq<char>>,
    pub requires_file_selection: Option<bool>,
    pub file_filters: Option<Seq<Seq<char>>>,
    pub requires_output_file_selection: Option<bool>,
    pub output_file_filters: Option<Seq<Seq<char>>>,
    pub default_output_file_name: Option<Seq<char>>,
}

impl View for PluginInfo {
    type V = PluginInfoView;

    open spec fn view(&self) -> PluginInfoView {
        PluginInfoView {
            name: self.name@,
            id: self.id@,
            display_name: opt_text(self.display_name),
            version: self.version@,
            description: self.description@,
            main: self.main@,
            author: opt_text(self.author),
            requires_file_selection: self.requires_file_selection,
            file_filters: opt_texts(self.file_filters),
            requires_output_file_selection: self.requires_output_file_selection,
            output_file_filters: opt_texts(self.output_file_filters),
            default_output_file_name: opt_text(self.default_output_file_name),
        }
    }
}

impl PluginInfoView {
    /// A manifest that may be registered: it names the plugin and its entry
    /// module.
    pub open spec fn valid(self) -> bool {
        self.id.len() > 0 && self.main.len() > 0
    }
}

impl Clone for PluginInfo {
    fn clone(&self) -> (copy: PluginInfo)
        ensures
            copy@ == self@,
    {
        PluginInfo {
            name: self.name.clone(),
            id: self.id.clone(),
            display_name: copy_opt_text(&self.display_name),
            version: self.version.clone(),
            description: self.description.clone(),
            main: self.main.clone(),
            author: copy_opt_text(&self.author),
            requires_file_selection: self.requires_file_selection,
            file_filters: copy_opt_texts(&self.file_filters),
            requires_output_file_selection: self.requires_output_file_selection,
            output_file_filters: copy_opt_texts(&self.output_file_filters),
            default_output_file_name: copy_opt_text(&self.default_output_file_name),
        }
    }
}

/// Whether a plugin was read and registered. This says that the plugin can be
/// found, not that any of its functions ever ran.
#[derive(Debug, PartialEq, Eq)]
pub struct PluginStatus {
    pub loaded: bool,
    pub error: Option<String>,
}

/// The mathematical value of a [`PluginStatus`].
pub struct PluginStatusView {
    pub loaded: bool,
    pub error: Option<Seq<char>>,
}

impl View for PluginStatus {
    type V = PluginStatusView;

    open spec fn view(&self) -> PluginStatusView {
        PluginStatusView { loaded: self.loaded, error: opt_text(self.error) }
    }
}

impl Clone for PluginStatus {
    fn clone(&self) -> (copy: PluginStatus)
        ensures
            copy@ == self@,
    {
        PluginStatus { loaded: self.loaded, error: copy_opt_text(&self.error) }
    }
}

/// The status of a plugin that was registered.
pub open spec fn loaded_status() -> PluginStatusView {
    PluginStatusView { loaded: true, error: None }
}

/// The mathematical value of a [`PluginRegistry`]: the records in the order in
/// which their identifiers were first registered, and the plugin directory.
pub struct RegistryView {
    pub entries: Seq<(PluginInfoView, PluginStatusView)>,
    pub plugin_dir: Option<Seq<char>>,
}

impl RegistryView {
    /// No identifier is registered twice.
    pub open spec fn distinct(self) -> bool {
        forall|i: int, j: int|
            0 <= i < j < self.entries.len() ==> (#[trigger] self.entries[i]).0.id != (
            #[trigger] self.entries[j]).0.id
    }

    /// Every registered manifest names its plugin and its entry module.
    pub open spec fn all_valid(self) -> bool {
        forall|i: int| 0 <= i < self.entries.len() ==> (#[trigger] self.entries[i]).0.valid()
    }

    /// The invariant of the registry: no identifier is registered twice, and
    /// every registered manifest names its plugin and its entry module.
    pub open spec fn wf(self) -> bool {
        self.distinct() && self.all_valid()
    }

    /// Whether the record at position `i` is the first with the identifier `id`.
    pub open spec fn first_at(self, id: Seq<char>, i: int) -> bool {
        &&& 0 <= i < self.entries.len()
        &&& self.entries[i].0.id == id
        &&& forall|k: int| 0 <= k < i ==> (#[trigger] self.entries[k]).0.id != id
    }

    /// Whether a plugin with this identifier is registered.
    pub open spec fn contains(self, id: Seq<char>) -> bool {
        exists|i: int| self.first_at(id, i)
    }

    /// The position of the first record with this identifier.
    pub open spec fn slot(self, id: Seq<char>) -> int {
        choose|i: int| self.first_at(id, i)
    }

    /// The record with this identifier.
    pub open spec fn get(self, id: Seq<char>) -> Option<(PluginInfoView, PluginStatusView)> {
        if self.contains(id) {
            Some(self.entries[self.slot(id)])
        } else {
            None
        }
    }

    /// The registry after `info` was registered: its record replaces the one
    /// with the same identifier, or is added at the end.
    pub open spec fn register(self, info: PluginInfoView) -> RegistryView {
        if self.contains(info.id) {
            RegistryView {
                entries: self.entries.update(self.slot(info.id), (info, loaded_status())),
                ..self
            }
        } else {
            RegistryView { entries: self.entries.push((info, loaded_status())), ..self }
        }
    }

    /// The registry without the record of `id`.
    pub open spec fn remove(self, id: Seq<char>) -> RegistryView {
        if self.contains(id) {
            RegistryView { entries: self.entries.remove(self.slot(id)), ..self }
        } else {
            self
        }
    }

    /// The first record with an identifier is at one position only.
    pub proof fn lemma_slot(self, id: Seq<char>, i: int)
        requires
            self.first_at(id, i),
        ensures
            self.contains(id),
            self.slot(id) == i,
    {
        let j = self.slot(id);
        assert(self.first_at(id, j));
        if i < j {
            assert(self.entries[i].0.id != id);
        }
        if j < i {
            assert(self.entries[j].0.id != id);
        }
    }

    /// A registry that holds a record with the identifier `id` at any position
    /// contains `id`.
    pub proof fn lemma_contains(self, id: Seq<char>, i: int)
        requires
            0 <= i < self.entries.len(),
            self.entries[i].0.id == id,
        ensures
            self.contains(id),
            self.slot(id) <= i,
        decreases i,
    {
        if forall|k: int| 0 <= k < i ==> (#[trigger] self.entries[k]).0.id != id {
            assert(self.first_at(id, i));
            self.lemma_slot(id, i);
        } else {
            let k = choose|k: int| 0 <= k < i && (#[trigger] self.entries[k]).0.id == id;
            self.lemma_contains(id, k);
        }
    }

    /// A registry that holds no record with the identifier `id` does not
    /// contain `id`.
    pub proof fn lemma_absent(self, id: Seq<char>)
        requires
            forall|k: int| 0 <= k < self.entries.len() ==> (#[trigger] self.entries[k]).0.id != id,
        ensures
            !self.contains(id),
    {
        if self.contains(id) {
            let j = self.slot(id);
            assert(self.first_at(id, j));
            assert(self.entries[j].0.id != id);
        }
    }
}

/// The installed plugins and the directory that holds their packages.
pub struct PluginRegistry {
    entries: Vec<(PluginInfo, PluginStatus)>,
    plugin_dir: Option<String>,
}

/// The values of a list of records.
pub open spec fn records(entries: Seq<(PluginInfo, PluginStatus)>) -> Seq<
    (PluginInfoView, PluginStatusView),
> {
    Seq::new(entries.len(), |i: int| (entries[i].0@, entries[i].1@))
}

impl View for PluginRegistry {
    type V = RegistryView;

    closed spec fn view(&self) -> RegistryView {
        RegistryView { entries: records(self.entries@), plugin_dir: opt_text(self.plugin_dir) }
    }
}

impl PluginRegistry {
    /// A registry without plugins and without a plugin directory.
    pub fn new() -> (registry: PluginRegistry)
        ensures
            registry@.entries.len() == 0,
            registry@.plugin_dir is None,
            registry@.wf(),
    {
        let registry = PluginRegistry { entries: Vec::new(), plugin_dir: None };
        assert(registry@.entries =~= Seq::empty());
        registry
    }

    /// Sets the directory under which the packages of installed plugins lie.
    pub fn set_plugin_dir(&mut self, dir: &str)
        ensures
            final(self)@ == (RegistryView { plugin_dir: Some(dir@), ..old(self)@ }),
            old(self)@.wf() ==> final(self)@.wf(),
    {
        self.plugin_dir = Some(String::from_str(dir));
    }

    /// The directory under which the packages of installed plugins lie.
    pub fn plugin_dir(&self) -> (dir: Option<&str>)
        ensures
            match dir {
                Some(d) => self@.plugin_dir == Some(d@),
                None => self@.plugin_dir is None,
            },
    {
        match &self.plugin_dir {
            Some(d) => Some(d.as_str()),
            None => None,
        }
    }

    /// The number of registered plugins.
    pub fn len(&self) -> (n: usize)
        ensures
            n == self@.entries.len(),
    {
        self.entries.len()
    }

    /// The position of the first record of `id`.
    fn find(&self, id: &str) -> (found: Option<usize>)
        ensures
            match found {
                Some(i) => self@.contains(id@) && self@.slot(id@) == i && i < self.entries.len(),
                None => !self@.contains(id@),
            },
    {
        let mut i: usize = 0;
        while i < self.entries.len()
            invariant
                i <= self.entries.len(),
                forall|k: int| 0 <= k < i ==> (#[trigger] self@.entries[k]).0.id != id@,
            decreases self.entries.len() - i,
        {
            if str_equal(self.entries[i].0.id.as_str(), id) {
                proof {
                    assert(self@.first_at(id@, i as int));
                    self@.lemma_slot(id@, i as int);
                }
                return Some(i);
            }
            i += 1;
        }
        proof {
            self@.lemma_absent(id@);
        }
        None
    }
}

/// Registers a plugin as loaded. A record with the same identifier is replaced.
pub fn register_plugin(registry: &mut PluginRegistry, info: PluginInfo)
    ensures
        final(registry)@ == old(registry)@.register(info@),
        old(registry)@.wf() && info@.valid() ==> final(registry)@.wf(),
{
    let status = PluginStatus { loaded: true, error: None };
    let ghost before = registry@;
    let ghost added = (info@, status@);
    proof {
        if before.wf() && info@.valid() {
            lemma_register(before, info@);
        }
    }
    match registry.find(info.id.as_str()) {
        Some(i) => {
            registry.entries.set(i, (info, status));
            assert(registry@.entries =~= before.entries.update(i as int, added));
        },
        None => {
            registry.entries.push((info, status));
            assert(registry@.entries =~= before.entries.push(added));
        },
    }
}

/// The records of all registered plugins.
pub fn get_plugins(registry: &PluginRegistry) -> (all: Vec<(PluginInfo, PluginStatus)>)
    ensures
        records(all@) == registry@.entries,
{
    let mut out: Vec<(PluginInfo, PluginStatus)> = Vec::new();
    let mut i: usize = 0;
    while i < registry.entries.len()
        invariant
            i <= registry.entries.len(),
            out@.len() == i,
            forall|k: int|
                0 <= k < i ==> (#[trigger] out@[k]).0@ == registry.entries@[k].0@ && out@[k].1@
                    == registry.entries@[k].1@,
        decreases registry.entries.len() - i,
    {
        let info = registry.entries[i].0.clone();
        let status = registry.entries[i].1.clone();
        out.push((info, status));
        i += 1;
    }
    assert(records(out@) =~= registry@.entries);
    out
}

/// The record of the plugin `plugin_id`.
pub fn get_plugin(registry: &PluginRegistry, plugin_id: &str) -> (found: Result<
    (PluginInfo, PluginStatus),
    PluginError,
>)
    ensures
        match found {
            Ok(record) => registry@.get(plugin_id@) == Some((record.0@, record.1@)),
            Err(e) => registry@.get(plugin_id@) is None && e@ == PluginErrorView::PluginNotFound(
                plugin_id@,
            ),
        },
{
    match registry.find(plugin_id) {
        Some(i) => {
            let info = registry.entries[i].0.clone();
            let status = registry.entries[i].1.clone();
            Ok((info, status))
        },
        None => Err(PluginError::PluginNotFound(String::from_str(plugin_id))),
    }
}

/// Removes the plugin `plugin_id` from the registry. The package on disk is
/// left to the caller, who deletes it after this call succeeded.
pub fn uninstall_plugin(registry: &mut PluginRegistry, plugin_id: &str) -> (done: Result<
    (),
    PluginError,
>)
    ensures
        final(registry)@ == old(registry)@.remove(plugin_id@),
        old(registry)@.wf() ==> final(registry)@.wf(),
        match done {
            Ok(_) => old(registry)@.contains(plugin_id@),
            Err(e) => !old(registry)@.contains(plugin_id@) && e@
                == PluginErrorView::PluginNotFound(plugin_id@),
        },
{
    let ghost before = registry@;
    proof {
        if before.wf() {
            lemma_remove(before, plugin_id@);
        }
    }
    match registry.find(plugin_id) {
        Some(i) => {
            registry.entries.remove(i);
            assert(registry@.entries =~= before.entries.remove(i as int));
            Ok(())
        },
        None => Err(PluginError::PluginNotFound(String::from_str(plugin_id))),
    }
}

/// What [`check_install`] answers. `manifest` is `None` where the package has
/// no descriptor, `Some(None)` where the descriptor is no JSON, and holds the
/// document otherwise.
pub open spec fn install_checked(
    registry: RegistryView,
    source_exists: bool,
    manifest: Option<Option<JsonValue>>,
    answer: Result<PluginInfoView, PluginErrorView>,
) -> bool {
    if registry.plugin_dir is None {
        answer == Err::<PluginInfoView, PluginErrorView>(PluginErrorView::NotInitialized)
    } else if !source_exists {
        answer == Err::<PluginInfoView, PluginErrorView>(
            PluginErrorView::IoError("插件路径不存在"@),
        )
    } else {
        match manifest {
            None => answer == Err::<PluginInfoView, PluginErrorView>(
                PluginErrorView::ManifestInvalid("插件缺少 package.json"@),
            ),
            Some(None) => loaded(None, answer),
            Some(Some(v)) => match manifest_of(v) {
                None => answer == Err::<PluginInfoView, PluginErrorView>(
                    PluginErrorView::ManifestInvalid(manifest_fault(v)),
                ),
                Some(info) => if registry.contains(info.id) {
                    answer == Err::<PluginInfoView, PluginErrorView>(
                        PluginErrorView::AlreadyInstalled(info.id),
                    )
                } else {
                    answer == Ok::<PluginInfoView, PluginErrorView>(info)
                },
            },
        }
    }
}

/// The documents that the given descriptor texts read as.
pub open spec fn parsed_manifest(manifest: Option<&str>) -> Option<Option<JsonValue>> {
    match manifest {
        Some(text) => Some(json_parse(text@)),
        None => None,
    }
}

/// Refuses a manifest whose identifier is registered already.
pub fn admit_plugin(registry: &PluginRegistry, info: PluginInfo) -> (admitted: Result<
    PluginInfo,
    PluginError,
>)
    ensures
        match admitted {
            Ok(same) => !registry@.contains(info@.id) && same@ == info@,
            Err(e) => registry@.contains(info@.id) && e@ == PluginErrorView::AlreadyInstalled(
                info@.id,
            ),
        },
{
    match registry.find(info.id.as_str()) {
        Some(_) => Err(PluginError::AlreadyInstalled(info.id)),
        None => Ok(info),
    }
}

/// Decides whether the package at a source path may be installed, before
/// anything is copied. `source_exists` says whether the source path exists,
/// and `manifest` holds the text of its descriptor, if it has one. On success
/// the result is the manifest to install; the registry is not changed.
pub fn check_install(
    registry: &PluginRegistry,
    source_exists: bool,
    manifest: Option<&str>,
) -> (answer: Result<PluginInfo, PluginError>)
    ensures
        install_checked(
            registry@,
            source_exists,
            parsed_manifest(manifest),
            manifest_outcome(answer),
        ),
{
    if registry.plugin_dir.is_none() {
        return Err(PluginError::NotInitialized);
    }
    if !source_exists {
        return Err(PluginError::IoError(String::from_str("插件路径不存在")));
    }
    match manifest {
        None => Err(PluginError::ManifestInvalid(String::from_str("插件缺少 package.json"))),
        Some(text) => match load_manifest(text) {
            Ok(info) => admit_plugin(registry, info),
            Err(e) => Err(e),
        },
    }
}

/// Finishes an installation after the package was copied. `copied` holds the
/// outcome of the copy. Nothing is registered unless the copy succeeded.
pub fn install_plugin(registry: &mut PluginRegistry, info: PluginInfo, copied: Result<
    (),
    String,
>) -> (installed: Result<PluginInfo, PluginError>)
    ensures
        match copied {
            Ok(_) => final(registry)@ == old(registry)@.register(info@) && manifest_outcome(
                installed,
            ) == Ok::<PluginInfoView, PluginErrorView>(info@),
            Err(reason) => final(registry)@ == old(registry)@ && manifest_outcome(installed)
                == Err::<PluginInfoView, PluginErrorView>(PluginErrorView::IoError(reason@)),
        },
        old(registry)@.wf() && info@.valid() ==> final(registry)@.wf(),
{
    match copied {
        Ok(_) => {
            let registered = info.clone();
            register_plugin(registry, info);
            Ok(registered)
        },
        Err(reason) => Err(PluginError::IoError(reason)),
    }
}

/// The registry after one package was scanned: a package whose descriptor
/// declares a manifest is registered, any other is passed over.
pub open spec fn scan_one(registry: RegistryView, parsed: Option<JsonValue>) -> RegistryView {
    match parsed {
        Some(v) => match manifest_of(v) {
            Some(info) => registry.register(info),
            None => registry,
        },
        None => registry,
    }
}

/// The registry after the packages were scanned in order.
pub open spec fn scanned(registry: RegistryView, parsed: Seq<Option<JsonValue>>) -> RegistryView
    decreases parsed.len(),
{
    if parsed.len() == 0 {
        registry
    } else {
        scan_one(scanned(registry, parsed.drop_last()), parsed.last())
    }
}

/// Whether a package declares a manifest: its descriptor is JSON and the
/// document declares one.
pub open spec fn declares(parsed: Option<JsonValue>) -> bool {
    parsed matches Some(v) && manifest_of(v) is Some
}

/// How many of the packages declare a manifest. A scan registers one plugin
/// for each of them; two that declare the same identifier are counted twice,
/// though the later takes the place of the earlier.
pub open spec fn declared(parsed: Seq<Option<JsonValue>>) -> nat
    decreases parsed.len(),
{
    if parsed.len() == 0 {
        0
    } else if declares(parsed.last()) {
        declared(parsed.drop_last()) + 1
    } else {
        declared(parsed.drop_last())
    }
}

/// The documents that the descriptor texts read as.
pub open spec fn parsed_manifests(manifests: Seq<String>) -> Seq<Option<JsonValue>> {
    Seq::new(manifests.len(), |i: int| json_parse(manifests[i]@))
}

/// Registers the plugin that a descriptor declares. A descriptor that declares
/// none changes nothing. Returns whether a plugin was registered.
pub fn scan_manifest(registry: &mut PluginRegistry, manifest: &str) -> (registered: bool)
    ensures
        final(registry)@ == scan_one(old(registry)@, json_parse(manifest@)),
        registered == declares(json_parse(manifest@)),
        old(registry)@.wf() ==> final(registry)@.wf(),
{
    match load_manifest(manifest) {
        Ok(info) => {
            register_plugin(registry, info);
            true
        },
        Err(_) => false,
    }
}

/// Registers every plugin among the packages of the plugin directory.
/// `manifests` holds the descriptor text of each package that has one. Returns
/// how many packages declared a plugin and were registered.
pub fn scan_plugins(registry: &mut PluginRegistry, manifests: &Vec<String>) -> (count: usize)
    ensures
        final(registry)@ == scanned(old(registry)@, parsed_manifests(manifests@)),
        old(registry)@.wf() ==> final(registry)@.wf(),
        count == declared(parsed_manifests(manifests@)),
{
    let ghost all = parsed_manifests(manifests@);
    let ghost start = registry@;
    let mut count: usize = 0;
    let mut i: usize = 0;
    while i < manifests.len()
        invariant
            i <= manifests.len(),
            count <= i,
            count == declared(all.take(i as int)),
            all == parsed_manifests(manifests@),
            registry@ == scanned(start, all.take(i as int)),
            start.wf() ==> registry@.wf(),
        decreases manifests.len() - i,
    {
        proof {
            let next = all.take(i + 1);
            assert(next.drop_last() =~= all.take(i as int));
            assert(next.last() == json_parse(manifests@[i as int]@));
        }
        if scan_manifest(registry, manifests[i].as_str()) {
            count += 1;
        }
        i += 1;
    }
    assert(all.take(manifests.len() as int) =~= all);
    count
}

/// Sets up the registry at start: records the plugin directory and registers
/// the plugins found in it. `manifests` holds the descriptor text of each
/// package of that directory that has one. Returns how many packages declared
/// a plugin.
pub fn initialize_plugins(
    registry: &mut PluginRegistry,
    plugins_dir: &str,
    manifests: &Vec<String>,
) -> (count: usize)
    ensures
        final(registry)@ == scanned(
            RegistryView { plugin_dir: Some(plugins_dir@), ..old(registry)@ },
            parsed_manifests(manifests@),
        ),
        old(registry)@.wf() ==> final(registry)@.wf(),
        count == declared(parsed_manifests(manifests@)),
{
    registry.set_plugin_dir(plugins_dir);
    scan_plugins(registry, manifests)
}

/// A record that a registry does not contain stands at no position.
pub proof fn lemma_not_contained(registry: RegistryView, id: Seq<char>)
    requires
        !registry.contains(id),
    ensures
        forall|k: int|
            0 <= k < registry.entries.len() ==> (#[trigger] registry.entries[k]).0.id != id,
{
    assert forall|k: int| 0 <= k < registry.entries.len() implies (
    #[trigger] registry.entries[k]).0.id != id by {
        if registry.entries[k].0.id == id {
            registry.lemma_contains(id, k);
        }
    }
}

/// Registering a plugin keeps the identifiers distinct, and the registry then
/// holds the plugin's record, marked as loaded, under its identifier.
pub proof fn lemma_register(registry: RegistryView, info: PluginInfoView)
    requires
        registry.wf(),
        info.valid(),
    ensures
        registry.register(info).wf(),
        registry.register(info).contains(info.id),
        registry.register(info).get(info.id) == Some((info, loaded_status())),
        registry.register(info).plugin_dir == registry.plugin_dir,
{
    let after = registry.register(info);
    if registry.contains(info.id) {
        let s = registry.slot(info.id);
        assert(registry.first_at(info.id, s));
        assert forall|k: int| 0 <= k < s implies (#[trigger] after.entries[k]).0.id
            != info.id by {
            assert(after.entries[k] == registry.entries[k]);
        }
        assert(after.first_at(info.id, s));
        after.lemma_slot(info.id, s);
        assert forall|i: int, j: int| 0 <= i < j < after.entries.len() implies (
        #[trigger] after.entries[i]).0.id != (#[trigger] after.entries[j]).0.id by {
            assert(after.entries[i].0.id == registry.entries[i].0.id);
            assert(after.entries[j].0.id == registry.entries[j].0.id);
        }
    } else {
        lemma_not_contained(registry, info.id);
        let n = registry.entries.len() as int;
        assert forall|k: int| 0 <= k < n implies (#[trigger] after.entries[k]).0.id
            != info.id by {
            assert(after.entries[k] == registry.entries[k]);
        }
        assert(after.first_at(info.id, n));
        after.lemma_slot(info.id, n);
        assert forall|i: int, j: int| 0 <= i < j < after.entries.len() implies (
        #[trigger] after.entries[i]).0.id != (#[trigger] after.entries[j]).0.id by {
            assert(after.entries[i] == registry.entries[i]);
            if j < n {
                assert(after.entries[j] == registry.entries[j]);
            }
        }
    }
}

/// Registering a plugin changes no record of another identifier.
pub proof fn law_register_keeps_others(registry: RegistryView, info: PluginInfoView, id: Seq<char>)
    requires
        id != info.id,
    ensures
        registry.register(info).contains(id) == registry.contains(id),
        registry.register(info).get(id) == registry.get(id),
{
    let after = registry.register(info);
    let replaced = registry.contains(info.id);
    let s = registry.slot(info.id);
    if replaced {
        assert(registry.first_at(info.id, s));
    }
    assert forall|k: int| 0 <= k < registry.entries.len() implies ((
    #[trigger] after.entries[k]).0.id == id <==> registry.entries[k].0.id == id) by {
        if replaced && k == s {
        } else {
            assert(after.entries[k] == registry.entries[k]);
        }
    }
    if registry.contains(id) {
        let t = registry.slot(id);
        assert(registry.first_at(id, t));
        assert(after.entries[t] == registry.entries[t]);
        assert(after.first_at(id, t));
        after.lemma_slot(id, t);
    } else {
        lemma_not_contained(registry, id);
        after.lemma_absent(id);
    }
}

/// Removing a plugin keeps the identifiers distinct, and the registry then
/// holds no record under the plugin's identifier.
pub proof fn lemma_remove(registry: RegistryView, id: Seq<char>)
    requires
        registry.wf(),
    ensures
        registry.remove(id).wf(),
        !registry.remove(id).contains(id),
        registry.remove(id).get(id) is None,
        registry.remove(id).plugin_dir == registry.plugin_dir,
{
    let after = registry.remove(id);
    if registry.contains(id) {
        let s = registry.slot(id);
        assert(registry.first_at(id, s));
        assert forall|k: int| 0 <= k < after.entries.len() implies (
        #[trigger] after.entries[k]).0.id != id by {
            if k < s {
                assert(after.entries[k] == registry.entries[k]);
            } else {
                assert(after.entries[k] == registry.entries[k + 1]);
                assert(registry.entries[s].0.id != registry.entries[k + 1].0.id);
            }
        }
        after.lemma_absent(id);
        assert forall|i: int, j: int| 0 <= i < j < after.entries.len() implies (
        #[trigger] after.entries[i]).0.id != (#[trigger] after.entries[j]).0.id by {
            let a = if i < s {
                i
            } else {
                i + 1
            };
            let b = if j < s {
                j
            } else {
                j + 1
            };
            assert(after.entries[i] == registry.entries[a]);
            assert(after.entries[j] == registry.entries[b]);
            assert(registry.entries[a].0.id != registry.entries[b].0.id);
        }
    }
}

/// After a plugin was registered, the registry contains its identifier.
pub proof fn lemma_register_contains(registry: RegistryView, info: PluginInfoView)
    ensures
        registry.register(info).contains(info.id),
{
    let after = registry.register(info);
    if registry.contains(info.id) {
        let s = registry.slot(info.id);
        assert(registry.first_at(info.id, s));
        assert(after.entries[s].0.id == info.id);
        after.lemma_contains(info.id, s);
    } else {
        let n = registry.entries.len() as int;
        assert(after.entries[n].0.id == info.id);
        after.lemma_contains(info.id, n);
    }
}

/// Discovery goes package by package: a scan registers the plugin of every
/// package that declares a manifest, whatever the other packages of the scan
/// hold, be they broken or not.
pub proof fn law_scan_finds_each_plugin(
    registry: RegistryView,
    parsed: Seq<Option<JsonValue>>,
    i: int,
)
    requires
        0 <= i < parsed.len(),
        parsed[i] is Some,
        manifest_of(parsed[i]->0) is Some,
    ensures
        scanned(registry, parsed).contains(manifest_of(parsed[i]->0)->0.id),
    decreases parsed.len(),
{
    let id = manifest_of(parsed[i]->0)->0.id;
    let before = scanned(registry, parsed.drop_last());
    let last = parsed.last();
    if i == parsed.len() - 1 {
        lemma_register_contains(before, manifest_of(last->0)->0);
    } else {
        assert(parsed.drop_last()[i] == parsed[i]);
        law_scan_finds_each_plugin(registry, parsed.drop_last(), i);
        if last is Some && manifest_of(last->0) is Some {
            let other = manifest_of(last->0)->0;
            if other.id == id {
                lemma_register_contains(before, other);
            } else {
                law_register_keeps_others(before, other, id);
            }
        }
    }
}

/// A plugin that was installed is found: where a package declares a manifest
/// whose identifier is not yet registered, the installation is admitted with
/// that manifest, and once it is registered, looking up its identifier gives
/// a record that is marked as loaded and holds the manifest's fields as the
/// package declares them.
pub proof fn law_install_then_get(registry: RegistryView, package: JsonValue, info: PluginInfoView)
    requires
        registry.wf(),
        registry.plugin_dir is Some,
        manifest_of(package) == Some(info),
        !registry.contains(info.id),
    ensures
        install_checked(
            registry,
            true,
            Some(Some(package)),
            Ok::<PluginInfoView, PluginErrorView>(info),
        ),
        registry.register(info).get(info.id) == Some((info, loaded_status())),
        registry.register(info).wf(),
        info.valid(),
        info.name == package.text_member("name"@)->0,
        info.main == package.text_member("main"@)->0,
        info.version == package.text_member("version"@)->0,
        info.description == package.text_member("description"@)->0,
        info.id == package.text_member("id"@)->0 || info.id == info.name,
{
    lemma_register(registry, info);
}

/// A plugin is installed once: after a package was installed, the check that
/// comes before any copy refuses a package with the same identifier as
/// already installed, whatever else the second package declares.
pub proof fn law_second_install_rejected(
    registry: RegistryView,
    first: PluginInfoView,
    second: JsonValue,
    answer: Result<PluginInfoView, PluginErrorView>,
)
    requires
        registry.wf(),
        registry.plugin_dir is Some,
        first.valid(),
        manifest_of(second) is Some,
        manifest_of(second)->0.id == first.id,
        install_checked(registry.register(first), true, Some(Some(second)), answer),
    ensures
        answer == Err::<PluginInfoView, PluginErrorView>(
            PluginErrorView::AlreadyInstalled(first.id),
        ),
{
    lemma_register(registry, first);
}

/// A plugin that was uninstalled is gone: after a plugin was installed and
/// then removed, the registry lists no record under its identifier, a lookup
/// of the identifier finds nothing, and the invariant of the registry holds.
pub proof fn law_uninstall_after_install(registry: RegistryView, info: PluginInfoView)
    requires
        registry.wf(),
        info.valid(),
    ensures
        registry.register(info).contains(info.id),
        !registry.register(info).remove(info.id).contains(info.id),
        registry.register(info).remove(info.id).get(info.id) is None,
        registry.register(info).remove(info.id).wf(),
        forall|k: int|
            0 <= k < registry.register(info).remove(info.id).entries.len() ==> (
            #[trigger] registry.register(info).remove(info.id).entries[k]).0.id != info.id,
{
    lemma_register(registry, info);
    lemma_remove(registry.register(info), info.id);
    lemma_not_contained(registry.register(info).remove(info.id), info.id);
}

/// The first step of a call that a plugin makes to a capability: the call is
/// refused unless the plugin is registered.
pub open spec fn plugin_called(
    registry: RegistryView,
    table: ApiTable,
    plugin_id: Seq<char>,
    api_name: Seq<char>,
    args: JsonValue,
) -> Result<ApiStepView, PluginErrorView> {
    if registry.contains(plugin_id) {
        called(table, api_name, args)
    } else {
        Err(PluginErrorView::PluginNotFound(plugin_id))
    }
}

/// Calls the capability `api_name` for the plugin `plugin_id`.
pub fn plugin_api_call(
    registry: &PluginRegistry,
    apis: &ApiRegistry,
    plugin_id: &str,
    api_name: &str,
    args: &Json,
) -> (step: Result<ApiStep, PluginError>)
    ensures
        step_view(step) == plugin_called(registry@, apis@, plugin_id@, api_name@, args@),
{
    match registry.find(plugin_id) {
        Some(_) => call_api(apis, api_name, args),
        None => Err(PluginError::PluginNotFound(String::from_str(plugin_id))),
    }
}

} // verus!
