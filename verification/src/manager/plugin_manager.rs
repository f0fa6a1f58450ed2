//! Plugins: their load states, the messages shown for them, the steps of
//! loading one, and the refresh of the plugin list from the plugin folder.
//!
//! A plugin is generic over `F`, the entry points resolved from its library,
//! and `R`, whatever the program keeps beside it (its path, its drawing
//! lists, its locks); this module decides, the program does the loading.

use vstd::prelude::*;
use vstd::string::*;
use crate::text::{ascii_lower, decimal, push_decimal, split_file_name, str_eq_ignore_ascii_case, eq_ignore_ascii_case, stem_of, has_extension, extension_of};
use crate::manager::stats::PluginStats;
use crate::paths::join_of;
use crate::manager::config::{module_subdir, lemma_names_plain, PLUGINS_DIR_NAME, CONFIG_DIR_NAME};

verus! {

/// Where a plugin stands.
#[derive(Clone, Debug)]
pub enum PluginStatus {
    /// Not loaded.
    Unloaded,
    /// Not loaded, because it was still saving or unloading when asked to load.
    UnloadedStillBusy,
    /// Its library could not be freed, so it cannot be loaded again.
    UnloadFailed,
    /// Its library is loaded, but it lacks the entry points of a plugin.
    LoadedIncompatible,
    /// Its library is loaded, but it was built for another API version.
    LoadedWrongApiVersion(u32),
    /// Its library is loaded, but its initialisation failed for the reason given.
    LoadedInitFailed(String),
    /// Loaded and running.
    Enabled,
}

/// The text shown under a plugin in the menu, if any.
pub open spec fn status_context(status: PluginStatus, manager_api_version: u32) -> Option<Seq<char>> {
    match status {
        PluginStatus::Unloaded => None,
        PluginStatus::UnloadedStillBusy => Some(
            "Still busy saving/unloading. Try again in a moment or restart your game."@,
        ),
        PluginStatus::UnloadFailed => Some("Failed to unload. Restart the game to load."@),
        PluginStatus::LoadedIncompatible => Some(
            "Incompatible plugin. Loaded, but running independently."@,
        ),
        PluginStatus::LoadedWrongApiVersion(v) => Some(
            "API version mismatch: Manager API: "@ + decimal(manager_api_version as nat)
                + " | Plugin API: "@ + decimal(v as nat),
        ),
        PluginStatus::LoadedInitFailed(reason) => Some("Plugin init failed: "@ + reason@),
        PluginStatus::Enabled => None,
    }
}

/// What clicking a plugin's checkbox in the menu does.
#[derive(Clone, Copy, Debug, PartialEq, Eq, Structural)]
pub enum StatusToggle {
    /// The box is ticked; clicking unloads the plugin.
    Unload,
    /// The box is clear; clicking loads the plugin.
    Load,
    /// The box is ticked and cannot be clicked.
    Locked,
}

/// The checkbox behaviour for each status.
pub open spec fn status_toggle(status: PluginStatus) -> StatusToggle {
    match status {
        PluginStatus::Unloaded | PluginStatus::UnloadedStillBusy => StatusToggle::Load,
        PluginStatus::UnloadFailed => StatusToggle::Locked,
        _ => StatusToggle::Unload,
    }
}

impl PluginStatus {
    /// The text shown under the plugin, if any; `manager_api_version` is the
    /// plugin API version of this manager.
    pub fn context(&self, manager_api_version: u32) -> (r: Option<String>)
        ensures
            r is Some == status_context(*self, manager_api_version) is Some,
            r is Some ==> r->0@ == status_context(*self, manager_api_version)->0,
    {
        match self {
            PluginStatus::Unloaded => None,
            PluginStatus::UnloadedStillBusy => Some(
                String::from_str(
                    "Still busy saving/unloading. Try again in a moment or restart your game.",
                ),
            ),
            PluginStatus::UnloadFailed => Some(
                String::from_str("Failed to unload. Restart the game to load."),
            ),
            PluginStatus::LoadedIncompatible => Some(
                String::from_str("Incompatible plugin. Loaded, but running independently."),
            ),
            PluginStatus::LoadedWrongApiVersion(v) => {
                let mut s: String = String::from_str("API version mismatch: Manager API: ");
                push_decimal(&mut s, manager_api_version as u64);
                s.append(" | Plugin API: ");
                push_decimal(&mut s, *v as u64);
                Some(s)
            },
            PluginStatus::LoadedInitFailed(reason) => {
                let mut s: String = String::from_str("Plugin init failed: ");
                s.append(reason.as_str());
                Some(s)
            },
            PluginStatus::Enabled => None,
        }
    }

    /// Whether the plugin is loaded and running.
    pub fn is_enabled(&self) -> (r: bool)
        ensures
            r == (*self is Enabled),
    {
        matches!(self, PluginStatus::Enabled)
    }

    /// What clicking the plugin's checkbox does.
    pub fn toggle(&self) -> (r: StatusToggle)
        ensures
            r == status_toggle(*self),
    {
        match self {
            PluginStatus::Unloaded | PluginStatus::UnloadedStillBusy => StatusToggle::Load,
            PluginStatus::UnloadFailed => StatusToggle::Locked,
            _ => StatusToggle::Unload,
        }
    }
}

/// A plugin built for another API version is described with the
/// manager's version after `Manager API: ` and the plugin's own after
/// `Plugin API: `, for every pair of versions.
pub proof fn lemma_wrong_api_message(plugin_api_version: u32, manager_api_version: u32)
    ensures
        status_context(PluginStatus::LoadedWrongApiVersion(plugin_api_version), manager_api_version)
            == Some("API version mismatch: Manager API: "@ + decimal(manager_api_version as nat)
                + " | Plugin API: "@ + decimal(plugin_api_version as nat)),
{
}

/// What a plugin reports about itself once initialised.
#[derive(Clone, Debug)]
pub struct PluginInfo {
    pub name: String,
    pub version: String,
}

/// A plugin library found in the plugin folder.
pub struct BunnyPlugin<F, R> {
    /// The stem of the library's file name.
    pub file_name: String,
    pub status: PluginStatus,
    /// Set by each successful initialisation; kept when unloaded.
    pub info: Option<PluginInfo>,
    pub stats: PluginStats,
    /// The plugin's entry points: set when it is enabled, dropped when unloaded.
    pub funcs: Option<F>,
    /// The handle of the loaded library, while loaded.
    pub module_handle: Option<usize>,
    pub resources: R,
}

impl<F, R> BunnyPlugin<F, R> {
    /// A plugin has its entry points exactly when it is enabled, and an
    /// enabled plugin has its info.
    pub open spec fn wf(self) -> bool {
        &&& (self.status is Enabled <==> self.funcs is Some)
        &&& (self.status is Enabled ==> self.info is Some)
    }

    /// The name shown for the plugin: its own name once known, else its file name.
    pub open spec fn display_name(self) -> Seq<char> {
        match self.info {
            Some(info) => info.name@,
            None => self.file_name@,
        }
    }

    /// The name and version shown for the plugin, or its file name before
    /// it has reported them.
    pub open spec fn display_name_version(self) -> Seq<char> {
        match self.info {
            Some(info) => info.name@ + " - "@ + info.version@,
            None => self.file_name@,
        }
    }

    /// A plugin found on disk, not loaded.
    pub fn new(file_name: String, resources: R, now: u64) -> (p: Self)
        ensures
            p.file_name == file_name,
            p.status is Unloaded,
            p.info is None,
            p.funcs is None,
            p.module_handle is None,
            p.resources == resources,
            p.stats == PluginStats::new_spec(now),
            p.wf(),
    {
        BunnyPlugin {
            file_name,
            status: PluginStatus::Unloaded,
            info: None,
            stats: PluginStats::new(now),
            funcs: None,
            module_handle: None,
            resources,
        }
    }

    /// Whether the plugin is loaded and running.
    pub fn enabled(&self) -> (r: bool)
        ensures
            r == (self.status is Enabled),
    {
        self.status.is_enabled()
    }

    /// The name shown for the plugin.
    pub fn name(&self) -> (r: &str)
        ensures
            r@ == self.display_name(),
    {
        match &self.info {
            Some(info) => info.name.as_str(),
            None => self.file_name.as_str(),
        }
    }

    /// The name and version shown for the plugin, as `"name - version"`.
    pub fn name_version(&self) -> (r: String)
        ensures
            r@ == self.display_name_version(),
    {
        match &self.info {
            Some(info) => {
                let mut s: String = info.name.clone();
                s.append(" - ");
                s.append(info.version.as_str());
                s
            },
            None => self.file_name.clone(),
        }
    }

    /// Whether `other` stands for the same library file.
    pub fn same_file(&self, other: &Self) -> (r: bool)
        ensures
            r == (self.file_name@ == other.file_name@),
    {
        self.file_name == other.file_name
    }

    /// First step of loading. A plugin whose library could not be freed, or
    /// that is still saving or unloading, is not loaded: its status says why
    /// and `false` comes back. Otherwise nothing changes and the library is
    /// to be loaded next.
    pub fn begin_load(&mut self, unload_failed: bool, save_busy: bool) -> (go: bool)
        ensures
            go == (!unload_failed && !save_busy),
            go ==> *final(self) == *old(self),
            unload_failed ==> *final(self) == (BunnyPlugin {
                status: PluginStatus::UnloadFailed,
                ..*old(self)
            }),
            !unload_failed && save_busy ==> *final(self) == (BunnyPlugin {
                status: PluginStatus::UnloadedStillBusy,
                ..*old(self)
            }),
            *final(self) == after_begin_load(*old(self), unload_failed, save_busy),
            old(self).wf() && old(self).funcs is None ==> final(self).wf(),
    {
        if unload_failed {
            self.status = PluginStatus::UnloadFailed;
            false
        } else if save_busy {
            self.status = PluginStatus::UnloadedStillBusy;
            false
        } else {
            true
        }
    }

    /// Second step: the library was loaded (with its handle) or not. A
    /// library that did not load leaves the plugin unloaded.
    pub fn library_loaded(&mut self, module: Option<usize>) -> (go: bool)
        ensures
            go == module is Some,
            module is None ==> *final(self) == (BunnyPlugin {
                status: PluginStatus::Unloaded,
                ..*old(self)
            }),
            module is Some ==> *final(self) == (BunnyPlugin {
                module_handle: module,
                ..*old(self)
            }),
            *final(self) == after_library_loaded(*old(self), module),
            old(self).wf() && old(self).funcs is None ==> final(self).wf(),
    {
        match module {
            Some(handle) => {
                self.module_handle = Some(handle);
                true
            },
            None => {
                self.status = PluginStatus::Unloaded;
                false
            },
        }
    }

    /// Third step: the plugin's entry points and its API version were looked
    /// up. A library without all entry points, or without an API version, is
    /// incompatible; one built for another API version is refused. Otherwise
    /// the entry points come back, to call the plugin's initialisation with.
    pub fn exports_resolved(
        &mut self,
        funcs: Option<F>,
        api_version: Option<u32>,
        manager_api_version: u32,
    ) -> (init_with: Option<F>)
        ensures
            (funcs is None || api_version is None) ==> init_with is None && *final(self) == (
            BunnyPlugin { status: PluginStatus::LoadedIncompatible, ..*old(self) }),
            (funcs is Some && api_version is Some && api_version->0 != manager_api_version)
                ==> init_with is None && *final(self) == (BunnyPlugin {
                status: PluginStatus::LoadedWrongApiVersion(api_version->0),
                ..*old(self)
            }),
            (funcs is Some && api_version == Some(manager_api_version)) ==> init_with == funcs
                && *final(self) == *old(self),
            *final(self) == after_exports_resolved(*old(self), funcs, api_version, manager_api_version),
            old(self).wf() && old(self).funcs is None ==> final(self).wf(),
    {
        match funcs {
            None => {
                self.status = PluginStatus::LoadedIncompatible;
                None
            },
            Some(f) => match api_version {
                None => {
                    self.status = PluginStatus::LoadedIncompatible;
                    None
                },
                Some(v) => {
                    if v == manager_api_version {
                        Some(f)
                    } else {
                        self.status = PluginStatus::LoadedWrongApiVersion(v);
                        None
                    }
                },
            },
        }
    }

    /// Last step: the plugin's initialisation returned `info` and then
    /// reported `outcome`. On success the plugin is enabled with its entry
    /// points and info; on failure it is left loaded with the reason.
    pub fn init_finished(&mut self, funcs: F, info: PluginInfo, outcome: Result<(), String>)
        ensures
            outcome is Ok ==> *final(self) == (BunnyPlugin {
                info: Some(info),
                funcs: Some(funcs),
                status: PluginStatus::Enabled,
                ..*old(self)
            }),
            outcome is Err ==> *final(self) == (BunnyPlugin {
                status: PluginStatus::LoadedInitFailed(outcome->Err_0),
                ..*old(self)
            }),
            *final(self) == after_init_finished(*old(self), funcs, info, outcome),
            old(self).wf() && old(self).funcs is None ==> final(self).wf(),
    {
        match outcome {
            Ok(()) => {
                self.info = Some(info);
                self.funcs = Some(funcs);
                self.status = PluginStatus::Enabled;
            },
            Err(reason) => {
                self.status = PluginStatus::LoadedInitFailed(reason);
            },
        }
    }

    /// Unloads the plugin: its entry points and library handle are dropped
    /// and it is unloaded. The handle of the library to free comes back.
    pub fn unload(&mut self) -> (handle: Option<usize>)
        ensures
            handle == old(self).module_handle,
            *final(self) == (BunnyPlugin {
                funcs: None,
                module_handle: None,
                status: PluginStatus::Unloaded,
                ..*old(self)
            }),
            *final(self) == unloaded(*old(self)),
            final(self).wf(),
    {
        let handle: Option<usize> = self.module_handle;
        self.funcs = None;
        self.module_handle = None;
        self.status = PluginStatus::Unloaded;
        handle
    }
}

/// The plugin after the first step of loading.
pub open spec fn after_begin_load<F, R>(p: BunnyPlugin<F, R>, unload_failed: bool, save_busy: bool) -> BunnyPlugin<F, R> {
    if unload_failed {
        BunnyPlugin { status: PluginStatus::UnloadFailed, ..p }
    } else if save_busy {
        BunnyPlugin { status: PluginStatus::UnloadedStillBusy, ..p }
    } else {
        p
    }
}

/// The plugin after its library was loaded, or not.
pub open spec fn after_library_loaded<F, R>(p: BunnyPlugin<F, R>, module: Option<usize>) -> BunnyPlugin<F, R> {
    match module {
        Some(_) => BunnyPlugin { module_handle: module, ..p },
        None => BunnyPlugin { status: PluginStatus::Unloaded, ..p },
    }
}

/// The plugin after its entry points and API version were looked up.
pub open spec fn after_exports_resolved<F, R>(
    p: BunnyPlugin<F, R>,
    funcs: Option<F>,
    api_version: Option<u32>,
    manager_api_version: u32,
) -> BunnyPlugin<F, R> {
    if funcs is None || api_version is None {
        BunnyPlugin { status: PluginStatus::LoadedIncompatible, ..p }
    } else if api_version->0 != manager_api_version {
        BunnyPlugin { status: PluginStatus::LoadedWrongApiVersion(api_version->0), ..p }
    } else {
        p
    }
}

/// The plugin after its initialisation.
pub open spec fn after_init_finished<F, R>(
    p: BunnyPlugin<F, R>,
    funcs: F,
    info: PluginInfo,
    outcome: Result<(), String>,
) -> BunnyPlugin<F, R> {
    match outcome {
        Ok(_) => BunnyPlugin { info: Some(info), funcs: Some(funcs), status: PluginStatus::Enabled, ..p },
        Err(reason) => BunnyPlugin { status: PluginStatus::LoadedInitFailed(reason), ..p },
    }
}

/// The plugin once unloaded.
pub open spec fn unloaded<F, R>(p: BunnyPlugin<F, R>) -> BunnyPlugin<F, R> {
    BunnyPlugin { funcs: None, module_handle: None, status: PluginStatus::Unloaded, ..p }
}

/// The plugin after a whole load: the first step, then each further step
/// as long as the one before let loading go on, the last one called with
/// the entry points that were looked up.
pub open spec fn after_load<F, R>(
    p: BunnyPlugin<F, R>,
    unload_failed: bool,
    save_busy: bool,
    module: Option<usize>,
    funcs: Option<F>,
    api_version: Option<u32>,
    manager_api_version: u32,
    info: PluginInfo,
    outcome: Result<(), String>,
) -> BunnyPlugin<F, R> {
    let p1 = after_begin_load(p, unload_failed, save_busy);
    if unload_failed || save_busy {
        p1
    } else {
        let p2 = after_library_loaded(p1, module);
        if module is None {
            p2
        } else {
            let p3 = after_exports_resolved(p2, funcs, api_version, manager_api_version);
            if funcs is None || api_version != Some(manager_api_version) {
                p3
            } else {
                after_init_finished(p3, funcs->0, info, outcome)
            }
        }
    }
}

/// Loading a plugin that has no entry points leaves it with entry points
/// exactly when it ends up enabled, and with its info when enabled, however
/// the load goes: refused, library not loaded, incompatible, wrong API
/// version, failed initialisation or success.
pub proof fn lemma_load_keeps_funcs_iff_enabled<F, R>(
    p: BunnyPlugin<F, R>,
    unload_failed: bool,
    save_busy: bool,
    module: Option<usize>,
    funcs: Option<F>,
    api_version: Option<u32>,
    manager_api_version: u32,
    info: PluginInfo,
    outcome: Result<(), String>,
)
    requires
        p.funcs is None,
    ensures
        ({
            let q = after_load(
                p,
                unload_failed,
                save_busy,
                module,
                funcs,
                api_version,
                manager_api_version,
                info,
                outcome,
            );
            &&& q.funcs is Some <==> q.status is Enabled
            &&& q.wf()
        }),
{
}

/// Loading a plugin whose library loads, has every entry point, matches the
/// manager's API version and initialises well enables it with those entry
/// points, that library and the info it reported, under the name it
/// reported; unloading it then hands back that library and leaves it
/// unloaded with no entry points, still known by that name.
pub proof fn lemma_load_then_unload<F, R>(
    p: BunnyPlugin<F, R>,
    handle: usize,
    funcs: F,
    info: PluginInfo,
    manager_api_version: u32,
)
    ensures
        ({
            let loaded = after_init_finished(
                after_exports_resolved(
                    after_library_loaded(after_begin_load(p, false, false), Some(handle)),
                    Some(funcs),
                    Some(manager_api_version),
                    manager_api_version,
                ),
                funcs,
                info,
                Ok(()),
            );
            &&& loaded.status is Enabled
            &&& loaded.funcs == Some(funcs)
            &&& loaded.module_handle == Some(handle)
            &&& loaded.info == Some(info)
            &&& loaded.display_name() == info.name@
            &&& loaded.file_name == p.file_name
            &&& loaded.wf()
            &&& unloaded(loaded).status is Unloaded
            &&& unloaded(loaded).funcs is None
            &&& unloaded(loaded).module_handle is None
            &&& unloaded(loaded).display_name() == info.name@
        }),
{
}

/// Unloading twice is unloading once, and the second time frees no library.
pub proof fn lemma_unload_twice<F, R>(p: BunnyPlugin<F, R>)
    ensures
        unloaded(unloaded(p)) == unloaded(p),
        unloaded(p).module_handle is None,
{
}

/// A plugin whose library could not be freed is never loaded again: the
/// first step of loading refuses it, whatever else holds.
pub proof fn lemma_unload_failed_refuses<F, R>(p: BunnyPlugin<F, R>, save_busy: bool)
    ensures
        after_begin_load(p, true, save_busy).status is UnloadFailed,
        after_begin_load(p, true, save_busy).funcs == p.funcs,
        after_begin_load(p, true, save_busy).module_handle == p.module_handle,
{
}

/// A plugin library: a file whose extension is `dll`, in any case.
pub open spec fn is_plugin_file(file_name: Seq<char>) -> bool {
    has_extension(file_name) && eq_ignore_ascii_case(extension_of(file_name), "dll"@)
}

/// A file is a plugin library exactly when it has a three-letter extension
/// that reads `dll` once its ASCII capitals are made small, so `x.DLL`,
/// `x.Dll` and `x.dll` alike.
pub proof fn lemma_plugin_extension_in_any_case(file_name: Seq<char>)
    ensures
        is_plugin_file(file_name) <==> {
            let x = extension_of(file_name);
            &&& has_extension(file_name)
            &&& x.len() == 3
            &&& ascii_lower(x[0]) == 'd' as u32
            &&& ascii_lower(x[1]) == 'l' as u32
            &&& ascii_lower(x[2]) == 'l' as u32
        },
{
    reveal_strlit("dll");
    let x = extension_of(file_name);
    if x.len() == 3 {
        assert(eq_ignore_ascii_case(x, "dll"@) <==> (ascii_lower(x[0]) == ascii_lower('d') && ascii_lower(x[1]) == ascii_lower('l') && ascii_lower(x[2]) == ascii_lower('l')));
    }
}

/// The plugin name of a file in the plugin folder: its stem, when its
/// extension is `dll` in any case.
pub fn plugin_file_stem(file_name: &str) -> (r: Option<String>)
    ensures
        r is Some == is_plugin_file(file_name@),
        r is Some ==> r->0@ == stem_of(file_name@),
{
    let (stem, ext) = split_file_name(file_name);
    match ext {
        Some(e) => {
            if str_eq_ignore_ascii_case(e.as_str(), "dll") {
                Some(stem)
            } else {
                None
            }
        },
        None => None,
    }
}

} // verus!

verus! {

/// Whether some plugin of `s` has the file name `name`.
pub open spec fn has_file<F, R>(s: Seq<BunnyPlugin<F, R>>, name: Seq<char>) -> bool {
    exists|i: int| 0 <= i < s.len() && s[i].file_name@ == name
}

/// The plugins of `existing` whose file is among `found`, in their order.
pub open spec fn kept_plugins<F, R>(existing: Seq<BunnyPlugin<F, R>>, found: Seq<BunnyPlugin<F, R>>) -> Seq<BunnyPlugin<F, R>>
    decreases existing.len(),
{
    if existing.len() == 0 {
        Seq::empty()
    } else {
        let rest = kept_plugins(existing.drop_last(), found);
        if has_file(found, existing.last().file_name@) {
            rest.push(existing.last())
        } else {
            rest
        }
    }
}

/// `current` with each plugin of `found`, in order, appended when no plugin
/// of the list so far has its file name.
pub open spec fn with_new_plugins<F, R>(current: Seq<BunnyPlugin<F, R>>, found: Seq<BunnyPlugin<F, R>>) -> Seq<BunnyPlugin<F, R>>
    decreases found.len(),
{
    if found.len() == 0 {
        current
    } else {
        let next = if has_file(current, found[0].file_name@) {
            current
        } else {
            current.push(found[0])
        };
        with_new_plugins(next, found.drop_first())
    }
}

/// The plugin list after a refresh that found `found` in the plugin folder.
pub open spec fn refreshed<F, R>(existing: Seq<BunnyPlugin<F, R>>, found: Seq<BunnyPlugin<F, R>>) -> Seq<BunnyPlugin<F, R>> {
    with_new_plugins(kept_plugins(existing, found), found)
}

/// The plugins the manager knows of.
pub struct PluginManager<F, R> {
    pub plugins: Vec<BunnyPlugin<F, R>>,
}

fn has_file_exec<F, R>(plugins: &Vec<BunnyPlugin<F, R>>, name: &String) -> (r: bool)
    ensures
        r == has_file(plugins@, name@),
{
    let mut i: usize = 0;
    while i < plugins.len()
        invariant
            i <= plugins@.len(),
            forall|j: int| 0 <= j < i ==> plugins@[j].file_name@ != name@,
        decreases plugins@.len() - i,
    {
        if plugins[i].file_name == *name {
            return true;
        }
        i = i + 1;
    }
    false
}

impl<F, R> PluginManager<F, R> {
    /// A manager of the plugins found at start.
    pub fn new(plugins: Vec<BunnyPlugin<F, R>>) -> (m: Self)
        ensures
            m.plugins@ == plugins@,
    {
        PluginManager { plugins }
    }

    /// The file names of the known plugins, in order.
    pub fn file_names(&self) -> (r: Vec<String>)
        ensures
            r@.len() == self.plugins@.len(),
            forall|i: int| 0 <= i < r@.len() ==> #[trigger] r@[i]@ == self.plugins@[i].file_name@,
    {
        let mut r: Vec<String> = Vec::new();
        let mut i: usize = 0;
        while i < self.plugins.len()
            invariant
                i <= self.plugins@.len(),
                r@.len() == i,
                forall|j: int| 0 <= j < i ==> #[trigger] r@[j]@ == self.plugins@[j].file_name@,
            decreases self.plugins@.len() - i,
        {
            r.push(self.plugins[i].file_name.clone());
            i = i + 1;
        }
        r
    }

    /// Refreshes the list from the plugins `found` in the plugin folder:
    /// known plugins whose file is gone are dropped, known plugins whose file
    /// is still there stay as they are, and found plugins that are not known
    /// yet are appended. The new plugins stand from the returned index to the
    /// end of the list; they are the ones to load.
    pub fn refresh(&mut self, found: Vec<BunnyPlugin<F, R>>) -> (first_new: usize)
        ensures
            final(self).plugins@ == refreshed(old(self).plugins@, found@),
            first_new == kept_plugins(old(self).plugins@, found@).len(),
            final(self).plugins@.subrange(0, first_new as int) == kept_plugins(old(self).plugins@, found@),
    {
        let ghost existing = self.plugins@;
        let n: usize = self.plugins.len();
        let mut remaining: Vec<BunnyPlugin<F, R>> = Vec::new();
        core::mem::swap(&mut remaining, &mut self.plugins);
        let mut k: usize = 0;
        while remaining.len() > 0
            invariant
                k <= existing.len(),
                existing.len() == n,
                remaining@ == existing.skip(k as int),
                remaining@.len() == existing.len() - k,
                self.plugins@ == kept_plugins(existing.take(k as int), found@),
            decreases remaining@.len(),
        {
            let p = remaining.remove(0);
            proof {
                assert(existing.take(k + 1).drop_last() =~= existing.take(k as int));
                assert(existing.take(k + 1).last() == existing[k as int]);
                assert(existing.skip(k as int).drop_first() =~= existing.skip(k + 1));
            }
            if has_file_exec(&found, &p.file_name) {
                self.plugins.push(p);
            }
            k = k + 1;
        }
        assert(existing.take(k as int) =~= existing);
        let first_new: usize = self.plugins.len();
        let ghost kept = self.plugins@;
        let ghost all_found = found@;
        let mut found = found;
        while found.len() > 0
            invariant
                with_new_plugins(self.plugins@, found@) == with_new_plugins(kept, all_found),
                self.plugins@.len() >= first_new,
                self.plugins@.subrange(0, first_new as int) == kept,
            decreases found@.len(),
        {
            let p = found.remove(0);
            if !has_file_exec(&self.plugins, &p.file_name) {
                self.plugins.push(p);
                assert(self.plugins@.subrange(0, first_new as int) =~= kept);
            }
        }
        first_new
    }
}

} // verus!

verus! {

/// No two plugins of `s` come from the same file.
pub open spec fn distinct_files<F, R>(s: Seq<BunnyPlugin<F, R>>) -> bool {
    forall|i: int, j: int| 0 <= i < j < s.len() ==> s[i].file_name@ != s[j].file_name@
}

#[verifier::spinoff_prover]
proof fn lemma_kept_plugins<F, R>(existing: Seq<BunnyPlugin<F, R>>, found: Seq<BunnyPlugin<F, R>>)
    ensures
        forall|i: int| 0 <= i < kept_plugins(existing, found).len() ==> {
            &&& has_file(found, #[trigger] kept_plugins(existing, found)[i].file_name@)
            &&& existing.contains(kept_plugins(existing, found)[i])
        },
        distinct_files(existing) ==> distinct_files(kept_plugins(existing, found)),
        forall|n: Seq<char>| has_file(existing, n) && has_file(found, n) ==> #[trigger] has_file(kept_plugins(existing, found), n),
    decreases existing.len(),
{
    if existing.len() > 0 {
        let init = existing.drop_last();
        lemma_kept_plugins(init, found);
        let rest = kept_plugins(init, found);
        let k = kept_plugins(existing, found);
        assert forall|i: int| 0 <= i < k.len() implies {
            &&& has_file(found, #[trigger] k[i].file_name@)
            &&& existing.contains(k[i])
        } by {
            if i < rest.len() {
                assert(k[i] == rest[i]);
                assert(has_file(found, rest[i].file_name@));
                assert(init.contains(rest[i]));
                let j = choose|j: int| 0 <= j < init.len() && init[j] == rest[i];
                assert(existing[j] == init[j]);
            } else {
                assert(k[i] == existing.last());
                assert(existing[existing.len() - 1] == existing.last());
            }
        }
        assert forall|n: Seq<char>| has_file(existing, n) && has_file(found, n) implies #[trigger] has_file(k, n) by {
            let j = choose|j: int| 0 <= j < existing.len() && existing[j].file_name@ == n;
            if j == existing.len() - 1 {
                assert(existing[existing.len() - 1] == existing.last());
                assert(has_file(found, existing.last().file_name@));
                assert(k == rest.push(existing.last()));
                assert(k[rest.len() as int] == existing.last());
            } else {
                assert(init[j] == existing[j]);
                assert(has_file(init, n));
                assert(has_file(rest, n));
                let a = choose|a: int| 0 <= a < rest.len() && rest[a].file_name@ == n;
                if has_file(found, existing.last().file_name@) {
                    assert(k == rest.push(existing.last()));
                    assert(k[a] == rest[a]);
                } else {
                    assert(k == rest);
                }
            }
        }
        if distinct_files(existing) {
            assert(distinct_files(init)) by {
                assert forall|i: int, j: int| 0 <= i < j < init.len() implies init[i].file_name@
                    != init[j].file_name@ by {
                    assert(init[i] == existing[i] && init[j] == existing[j]);
                }
            }
            if has_file(found, existing.last().file_name@) {
                assert forall|i: int, j: int| 0 <= i < j < k.len() implies k[i].file_name@
                    != k[j].file_name@ by {
                    if j == rest.len() {
                        assert(k[i] == rest[i]);
                        assert(has_file(found, rest[i].file_name@));
                        assert(existing.contains(k[i]));
                        let a = choose|a: int| 0 <= a < init.len() && init[a] == rest[i];
                        assert(existing[a] == init[a]);
                        assert(existing[existing.len() - 1] == existing.last());
                    } else {
                        assert(k[i] == rest[i] && k[j] == rest[j]);
                    }
                }
            }
        }
    }
}

proof fn lemma_with_new_plugins<F, R>(current: Seq<BunnyPlugin<F, R>>, found: Seq<BunnyPlugin<F, R>>)
    ensures
        with_new_plugins(current, found).len() >= current.len(),
        with_new_plugins(current, found).subrange(0, current.len() as int) == current,
        forall|i: int| 0 <= i < found.len() ==> has_file(with_new_plugins(current, found), #[trigger] found[i].file_name@),
        forall|i: int| 0 <= i < with_new_plugins(current, found).len() ==>
            current.contains(#[trigger] with_new_plugins(current, found)[i])
            || found.contains(with_new_plugins(current, found)[i]),
        distinct_files(current) ==> distinct_files(with_new_plugins(current, found)),
        forall|i: int| current.len() <= i < with_new_plugins(current, found).len() ==>
            !has_file(current, #[trigger] with_new_plugins(current, found)[i].file_name@),
    decreases found.len(),
{
    let r = with_new_plugins(current, found);
    if found.len() == 0 {
        assert(r.subrange(0, current.len() as int) =~= current);
    } else {
        let f0 = found[0];
        let next = if has_file(current, f0.file_name@) { current } else { current.push(f0) };
        let tail = found.drop_first();
        lemma_with_new_plugins(next, tail);
        assert(r == with_new_plugins(next, tail));
        assert(r.subrange(0, current.len() as int) =~= next.subrange(0, current.len() as int)) by {
            assert(r.subrange(0, next.len() as int) == next);
            assert forall|i: int| 0 <= i < current.len() implies r[i] == next[i] by {
                assert(r.subrange(0, next.len() as int)[i] == r[i]);
            }
        }
        assert(next.subrange(0, current.len() as int) =~= current);
        // every found file is present
        assert(has_file(next, f0.file_name@)) by {
            if !has_file(current, f0.file_name@) {
                assert(next[current.len() as int] == f0);
            }
        }
        assert(has_file(r, f0.file_name@)) by {
            let j = choose|j: int| 0 <= j < next.len() && next[j].file_name@ == f0.file_name@;
            assert(r.subrange(0, next.len() as int)[j] == r[j]);
        }
        assert forall|i: int| 0 <= i < found.len() implies has_file(r, #[trigger] found[i].file_name@) by {
            if i > 0 {
                assert(found[i] == tail[i - 1]);
            }
        }
        // every plugin comes from the current list or from found
        assert forall|i: int| 0 <= i < r.len() implies current.contains(#[trigger] r[i])
            || found.contains(r[i]) by {
            if next.contains(r[i]) {
                let j = choose|j: int| 0 <= j < next.len() && next[j] == r[i];
                if j < current.len() {
                    assert(current[j] == next[j]);
                } else {
                    assert(found[0] == r[i]);
                }
            } else {
                let j = choose|j: int| 0 <= j < tail.len() && tail[j] == r[i];
                assert(found[j + 1] == tail[j]);
            }
        }
        assert forall|i: int| current.len() <= i < r.len() implies !has_file(current, #[trigger] r[i].file_name@) by {
            if i >= next.len() {
                if has_file(current, r[i].file_name@) {
                    let j = choose|j: int| 0 <= j < current.len() && current[j].file_name@ == r[i].file_name@;
                    assert(next[j] == current[j]);
                }
            } else {
                assert(r.subrange(0, next.len() as int)[i] == r[i]);
                assert(next[i] == f0);
            }
        }
        if distinct_files(current) {
            assert(distinct_files(next)) by {
                if !has_file(current, f0.file_name@) {
                    assert forall|i: int, j: int| 0 <= i < j < next.len() implies next[i].file_name@
                        != next[j].file_name@ by {
                        if j == current.len() {
                            assert(next[i] == current[i]);
                        } else {
                            assert(next[i] == current[i] && next[j] == current[j]);
                        }
                    }
                }
            }
        }
    }
}

/// After a refresh the plugin list holds exactly one plugin for each file
/// found: every found file has a plugin, every plugin's file was found, no
/// two plugins share a file when none did before, and a plugin kept from
/// before is the same plugin, in the same state, as it was.
pub proof fn lemma_refresh_matches_found<F, R>(existing: Seq<BunnyPlugin<F, R>>, found: Seq<BunnyPlugin<F, R>>)
    ensures
        forall|i: int| 0 <= i < found.len() ==> has_file(refreshed(existing, found), #[trigger] found[i].file_name@),
        forall|i: int| 0 <= i < refreshed(existing, found).len() ==> has_file(found, #[trigger] refreshed(existing, found)[i].file_name@),
        distinct_files(existing) ==> distinct_files(refreshed(existing, found)),
        forall|i: int| 0 <= i < refreshed(existing, found).len() && has_file(existing, #[trigger] refreshed(existing, found)[i].file_name@)
            ==> existing.contains(refreshed(existing, found)[i]),
{
    let kept = kept_plugins(existing, found);
    let r = refreshed(existing, found);
    lemma_kept_plugins(existing, found);
    lemma_with_new_plugins(kept, found);
    assert forall|i: int| 0 <= i < r.len() implies has_file(found, #[trigger] r[i].file_name@) by {
        if kept.contains(r[i]) {
            let j = choose|j: int| 0 <= j < kept.len() && kept[j] == r[i];
            assert(has_file(found, kept[j].file_name@));
        } else {
            let j = choose|j: int| 0 <= j < found.len() && found[j] == r[i];
        }
    }
    assert forall|i: int| 0 <= i < r.len() && has_file(existing, #[trigger] r[i].file_name@)
        implies existing.contains(r[i]) by {
        assert(has_file(found, r[i].file_name@));
        assert(has_file(kept, r[i].file_name@));
        assert(i < kept.len());
        assert(r.subrange(0, kept.len() as int)[i] == r[i]);
        assert(existing.contains(kept[i]));
    }
}

} // verus!

verus! {

/// The folders the manager takes plugins and their configurations from.
#[derive(Clone, Debug)]
pub struct PluginDirs {
    pub plugins: String,
    pub configs: String,
}

impl PluginDirs {
    /// The plugin and configuration folders in the manager's folder.
    pub fn new(module_dir: &str) -> (d: Self)
        ensures
            join_of(module_dir@, PLUGINS_DIR_NAME@, d.plugins@),
            join_of(module_dir@, CONFIG_DIR_NAME@, d.configs@),
    {
        proof {
            lemma_names_plain();
        }
        PluginDirs {
            plugins: module_subdir(module_dir, PLUGINS_DIR_NAME),
            configs: module_subdir(module_dir, CONFIG_DIR_NAME),
        }
    }
}

} // verus!
