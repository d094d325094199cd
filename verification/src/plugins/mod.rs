//! Plugins: their metadata, states and commands, the plugin contract, and
//! the manager that loads, activates, deactivates and calls them.
//!
//! Plugin results and configuration are JSON text.

pub mod advanced;

use vstd::prelude::*;
use crate::error::{ClaudeError, Result, concat_str};
use crate::keyed::{unique_keys, key_map, lemma_key_at, lemma_key_update, lemma_key_push, lemma_key_map_len, find_key};

verus! {

/// 插件元数据
#[derive(Debug, Clone)]
pub struct PluginMetadata {
    /// 插件名称
    pub name: String,
    /// 插件版本
    pub version: String,
    /// 插件描述
    pub description: String,
    /// 作者
    pub author: String,
    /// 许可证
    pub license: Option<String>,
    /// 主页URL
    pub homepage: Option<String>,
    /// 依赖的主程序版本
    pub claude_version: String,
    /// 插件依赖
    pub dependencies: Vec<String>,
    /// 插件标签
    pub tags: Vec<String>,
    /// 插件入口点
    pub entry_point: String,
}

/// 插件状态
#[derive(Debug, Clone)]
pub enum PluginStatus {
    /// 未加载
    Unloaded,
    /// 已加载
    Loaded,
    /// 已激活
    Active,
    /// 已停用
    Disabled,
    /// 错误状态
    Error(String),
}

/// 插件命令
#[derive(Debug, Clone)]
pub struct PluginCommand {
    /// 命令名称
    pub name: String,
    /// 命令描述
    pub description: String,
    /// 命令参数
    pub parameters: Vec<CommandParameter>,
    /// 是否需要确认
    pub requires_confirmation: bool,
}

/// 命令参数
#[derive(Debug, Clone)]
pub struct CommandParameter {
    /// 参数名称
    pub name: String,
    /// 参数类型
    pub param_type: ParameterType,
    /// 是否必需
    pub required: bool,
    /// 默认值
    pub default_value: Option<String>,
    /// 参数描述
    pub description: String,
}

/// 参数类型
#[derive(Debug, Clone)]
pub enum ParameterType {
    String,
    Integer,
    Float,
    Boolean,
    Path,
    Choice(Vec<String>),
}

/// Something that happened, for plugins to react to. Custom data is JSON
/// text.
#[derive(Debug, Clone)]
pub enum PluginEvent {
    FileChanged { path: String },
    CommandExecuted { command: String, args: Vec<String> },
    ConfigChanged { key: String, value: String },
    Custom { event_type: String, data: String },
}

/// What a plugin provides.
pub trait Plugin {
    /// The plugin's metadata.
    fn metadata(&self) -> &PluginMetadata;
    /// Prepares the plugin for use.
    fn initialize(&mut self) -> Result<()>;
    /// Winds the plugin down.
    fn shutdown(&mut self) -> Result<()>;
    /// Reacts to an event.
    fn handle_event(&mut self, event: &PluginEvent) -> Result<()>;
    /// Runs one of the plugin's commands; the answer is JSON text.
    fn execute_command(&mut self, command: &str, args: &[String]) -> Result<String>;
    /// The commands the plugin offers.
    fn get_commands(&self) -> Vec<PluginCommand>;
    /// The JSON schema of the plugin's configuration, if it has one.
    fn get_config_schema(&self) -> (schema: Option<String>)
        default_ensures
            schema is None,
    {
        None
    }
    /// Checks a configuration (JSON text) for the plugin; unless a plugin
    /// says otherwise, every configuration is accepted.
    fn validate_config(&self, config: &String) -> (res: Result<()>)
        default_ensures
            res is Ok,
    {
        Ok(())
    }
}

/// Whether a status is `Active`.
pub open spec fn is_active(s: PluginStatus) -> bool {
    s is Active
}

/// A loaded plugin with its status, configuration and manifest path.
pub struct PluginInstance {
    plugin: Box<dyn Plugin>,
    status: PluginStatus,
    config: Option<String>,
    path: String,
}

impl PluginInstance {
    /// The instance's status.
    pub closed spec fn status_view(&self) -> PluginStatus {
        self.status
    }

    /// The instance's configuration.
    pub closed spec fn config_view(&self) -> Option<String> {
        self.config
    }

    /// An unloaded instance of `plugin` from the manifest at `path`.
    pub fn new(plugin: Box<dyn Plugin>, path: String) -> (i: PluginInstance)
        ensures
            i.status_view() is Unloaded,
            i.config_view() is None,
    {
        PluginInstance { plugin, status: PluginStatus::Unloaded, config: None, path }
    }

    /// The plugin's metadata.
    pub fn metadata(&self) -> &PluginMetadata {
        self.plugin.metadata()
    }

    /// The instance's status.
    pub fn status(&self) -> (s: &PluginStatus)
        ensures
            *s == self.status_view(),
    {
        &self.status
    }

    /// Sets the status.
    pub fn set_status(&mut self, status: PluginStatus)
        ensures
            final(self).status_view() == status,
            final(self).config_view() == old(self).config_view(),
    {
        self.status = status;
    }

    /// The configuration, if set.
    pub fn config(&self) -> (c: Option<&String>)
        ensures
            c == match self.config_view() { Some(s) => Some(&s), None => None::<&String> },
    {
        match &self.config {
            Some(s) => Some(s),
            None => None,
        }
    }

    /// Sets the configuration once the plugin accepts it; a refused
    /// configuration leaves the instance as it was.
    pub fn set_config(&mut self, config: String) -> (res: Result<()>)
        ensures
            res is Ok ==> final(self).config_view() == Some(config),
            res is Err ==> final(self).config_view() == old(self).config_view(),
            final(self).status_view() == old(self).status_view(),
    {
        match self.plugin.validate_config(&config) {
            Ok(()) => {},
            Err(e) => { return Err(e); },
        }
        self.config = Some(config);
        Ok(())
    }
}

/// A general error whose message is `a`, then `name`, then `b`.
pub open spec fn is_named_error(e: ClaudeError, a: Seq<char>, name: Seq<char>, b: Seq<char>) -> bool {
    e matches ClaudeError::General(m) && m@ == a + name + b
}

/// A copy of a status.
fn copy_status(s: &PluginStatus) -> (c: PluginStatus)
    ensures
        c == *s,
{
    match s {
        PluginStatus::Unloaded => PluginStatus::Unloaded,
        PluginStatus::Loaded => PluginStatus::Loaded,
        PluginStatus::Active => PluginStatus::Active,
        PluginStatus::Disabled => PluginStatus::Disabled,
        PluginStatus::Error(m) => PluginStatus::Error(m.clone()),
    }
}

fn named_error(a: &str, name: &str, b: &str) -> (e: ClaudeError)
    ensures
        is_named_error(e, a@, name@, b@),
{
    let mut m = concat_str(a, name);
    m.append(b);
    ClaudeError::General(m)
}

/// The text that Rust's `{:?}` gives for a string: the string quoted, with
/// its special characters escaped.
pub uninterp spec fn quoted_text(s: Seq<char>) -> Seq<char>;

/// `s` rendered by `{:?}` (std's `Debug` for `str`): quoted and escaped. It
/// is a function of the text alone; nothing else about it is claimed here.
#[verifier::external_body]
fn debug_quoted(s: &str) -> (q: String)
    ensures
        q@ == quoted_text(s@),
{
    format!("{:?}", s)
}

/// The name of a status as it is shown: the variant's name, and for the
/// error state its message quoted, in brackets.
pub open spec fn status_text_of(s: PluginStatus) -> Seq<char> {
    match s {
        PluginStatus::Unloaded => "Unloaded"@,
        PluginStatus::Loaded => "Loaded"@,
        PluginStatus::Active => "Active"@,
        PluginStatus::Disabled => "Disabled"@,
        PluginStatus::Error(m) => "Error("@ + quoted_text(m@) + ")"@,
    }
}

/// The name of the status `s` as it is shown.
pub fn status_text(s: &PluginStatus) -> (t: String)
    ensures
        t@ == status_text_of(*s),
{
    match s {
        PluginStatus::Unloaded => String::from_str("Unloaded"),
        PluginStatus::Loaded => String::from_str("Loaded"),
        PluginStatus::Active => String::from_str("Active"),
        PluginStatus::Disabled => String::from_str("Disabled"),
        PluginStatus::Error(m) => {
            let mut t = String::from_str("Error(");
            let q = debug_quoted(m.as_str());
            t.append(q.as_str());
            t.append(")");
            t
        },
    }
}

/// The names of the active plugins among `s`, in order.
pub open spec fn active_names_of(s: Seq<(String, PluginInstance)>) -> Seq<Seq<char>>
    decreases s.len(),
{
    if s.len() == 0 {
        Seq::empty()
    } else {
        let r = active_names_of(s.drop_last());
        if s.last().1.status_view() is Active { r.push(s.last().0@) } else { r }
    }
}

/// The plugin names of a list of offers.
pub open spec fn offer_names(o: Seq<(String, Vec<PluginCommand>)>) -> Seq<Seq<char>> {
    o.map_values(|p: (String, Vec<PluginCommand>)| p.0@)
}

/// The offers that hold at least one command, in order.
pub open spec fn nonempty_offers(o: Seq<(String, Vec<PluginCommand>)>) -> Seq<(String, Vec<PluginCommand>)>
    decreases o.len(),
{
    if o.len() == 0 {
        o
    } else {
        let r = nonempty_offers(o.drop_last());
        if o.last().1@.len() > 0 { r.push(o.last()) } else { r }
    }
}

/// The loaded plugins by name, the directories searched for manifests, the
/// event listeners and the global configuration (JSON text).
pub struct PluginManager {
    plugins: Vec<(String, PluginInstance)>,
    plugin_directories: Vec<String>,
    event_listeners: Vec<(String, Vec<String>)>,
    global_config: String,
}

impl PluginManager {
    /// The statuses of the loaded plugins, by name.
    pub closed spec fn statuses(&self) -> Map<Seq<char>, PluginStatus> {
        key_map(self.plugins@).map_values(|i: PluginInstance| i.status)
    }

    /// The directories searched for plugin manifests.
    pub closed spec fn directories(&self) -> Seq<String> {
        self.plugin_directories@
    }

    /// Plugin names are distinct.
    pub closed spec fn well_formed(&self) -> bool {
        unique_keys(self.plugins@)
    }

    /// A manager without plugins or directories, with an empty global
    /// configuration.
    pub fn new() -> (m: PluginManager)
        ensures
            m.well_formed(),
            m.statuses() == Map::<Seq<char>, PluginStatus>::empty(),
            m.directories().len() == 0,
    {
        let m = PluginManager {
            plugins: Vec::new(),
            plugin_directories: Vec::new(),
            event_listeners: Vec::new(),
            global_config: String::from_str("{}"),
        };
        assert(m.statuses() =~= Map::<Seq<char>, PluginStatus>::empty());
        m
    }

    /// The directories searched for plugin manifests.
    pub fn plugin_directories(&self) -> (d: &[String])
        ensures
            d@ == self.directories(),
    {
        self.plugin_directories.as_slice()
    }

    /// Adds a directory to search for plugin manifests.
    pub fn add_plugin_directory(&mut self, path: String)
        ensures
            final(self).directories() == old(self).directories().push(path),
            final(self).statuses() == old(self).statuses(),
            final(self).well_formed() == old(self).well_formed(),
    {
        self.plugin_directories.push(path);
    }

    /// Loads the plugin described by `metadata` from the manifest at `path`
    /// as an unloaded example plugin under its name, replacing any plugin of
    /// that name; the name comes back.
    pub fn load_plugin(&mut self, metadata: PluginMetadata, path: String) -> (res: Result<String>)
        requires
            old(self).well_formed(),
        ensures
            final(self).well_formed(),
            res matches Ok(n) && n@ == metadata.name@,
            final(self).statuses() == old(self).statuses().insert(metadata.name@, PluginStatus::Unloaded),
    {
        let name = metadata.name.clone();
        let plugin = ExamplePlugin::new(metadata);
        let instance = PluginInstance::new(Box::new(plugin), path);
        let ghost before = self.plugins@;
        let item = (name.clone(), instance);
        match find_key(&self.plugins, name.as_str()) {
            Some(i) => {
                proof { lemma_key_update(before, i as int, item); }
                self.plugins.set(i, item);
            },
            None => {
                proof { lemma_key_push(before, item); }
                self.plugins.push(item);
            },
        }
        assert(self.statuses() =~= old(self).statuses().insert(name@, PluginStatus::Unloaded));
        Ok(name)
    }

    /// Activates the plugin `plugin_name`: an unloaded, loaded or disabled
    /// plugin is initialized and becomes active, an active one stays so, and
    /// one in the error state is refused. An unknown name is refused.
    pub fn activate_plugin(&mut self, plugin_name: &str) -> (res: Result<()>)
        requires
            old(self).well_formed(),
        ensures
            final(self).well_formed(),
            !old(self).statuses().contains_key(plugin_name@) ==> (res matches Err(e)
                && is_named_error(e, "Plugin '"@, plugin_name@, "' not found"@)
                && final(self).statuses() == old(self).statuses()),
            old(self).statuses().contains_key(plugin_name@) ==> ({
                let s = old(self).statuses()[plugin_name@];
                &&& s is Active ==> (res is Ok && final(self).statuses() == old(self).statuses())
                &&& s is Error ==> (res matches Err(e) && is_named_error(e, "Cannot activate plugin '"@, plugin_name@,
                        "' in state "@ + status_text_of(s))
                    && final(self).statuses() == old(self).statuses())
                &&& (s is Unloaded || s is Loaded || s is Disabled) ==> (
                    (res is Ok && final(self).statuses() == old(self).statuses().insert(plugin_name@, PluginStatus::Active))
                    || (res is Err && final(self).statuses() == old(self).statuses()))
            }),
    {
        let i = match find_key(&self.plugins, plugin_name) {
            Some(i) => i,
            None => { return Err(named_error("Plugin '", plugin_name, "' not found")); },
        };
        let ghost before = self.plugins@;
        proof { lemma_key_at(before, i as int); }
        let (name, mut inst) = self.plugins.remove(i);
        let res = match inst.status {
            PluginStatus::Unloaded | PluginStatus::Loaded | PluginStatus::Disabled => {
                match inst.plugin.initialize() {
                    Ok(()) => {
                        inst.set_status(PluginStatus::Active);
                        Ok(())
                    },
                    Err(e) => Err(e),
                }
            },
            PluginStatus::Active => Ok(()),
            _ => {
                let state = status_text(&inst.status);
                let mut m = concat_str("Cannot activate plugin '", plugin_name);
                m.append("' in state ");
                m.append(state.as_str());
                assert(m@ =~= "Cannot activate plugin '"@ + plugin_name@ + ("' in state "@ + status_text_of(inst.status)));
                Err(ClaudeError::General(m))
            },
        };
        let ghost item = (name, inst);
        self.plugins.insert(i, (name, inst));
        proof {
            assert(self.plugins@ =~= before.update(i as int, item));
            lemma_key_update(before, i as int, item);
        }
        assert(self.statuses() =~= key_map(before).insert(plugin_name@, item.1).map_values(|i: PluginInstance| i.status));
        res
    }

    /// Deactivates the plugin `plugin_name`: an active plugin is shut down
    /// and becomes disabled; any other is left as it is. An unknown name is
    /// refused.
    pub fn deactivate_plugin(&mut self, plugin_name: &str) -> (res: Result<()>)
        requires
            old(self).well_formed(),
        ensures
            final(self).well_formed(),
            !old(self).statuses().contains_key(plugin_name@) ==> (res matches Err(e)
                && is_named_error(e, "Plugin '"@, plugin_name@, "' not found"@)
                && final(self).statuses() == old(self).statuses()),
            old(self).statuses().contains_key(plugin_name@) ==> ({
                let s = old(self).statuses()[plugin_name@];
                &&& !(s is Active) ==> (res is Ok && final(self).statuses() == old(self).statuses())
                &&& s is Active ==> (
                    (res is Ok && final(self).statuses() == old(self).statuses().insert(plugin_name@, PluginStatus::Disabled))
                    || (res is Err && final(self).statuses() == old(self).statuses()))
            }),
    {
        let i = match find_key(&self.plugins, plugin_name) {
            Some(i) => i,
            None => { return Err(named_error("Plugin '", plugin_name, "' not found")); },
        };
        let ghost before = self.plugins@;
        proof { lemma_key_at(before, i as int); }
        let (name, mut inst) = self.plugins.remove(i);
        let res = match inst.status {
            PluginStatus::Active => {
                match inst.plugin.shutdown() {
                    Ok(()) => {
                        inst.set_status(PluginStatus::Disabled);
                        Ok(())
                    },
                    Err(e) => Err(e),
                }
            },
            _ => Ok(()),
        };
        let ghost item = (name, inst);
        self.plugins.insert(i, (name, inst));
        proof {
            assert(self.plugins@ =~= before.update(i as int, item));
            lemma_key_update(before, i as int, item);
        }
        assert(self.statuses() =~= key_map(before).insert(plugin_name@, item.1).map_values(|i: PluginInstance| i.status));
        res
    }

    /// Runs `command` of the plugin `plugin_name`, which must be active.
    pub fn execute_plugin_command(&mut self, plugin_name: &str, command: &str, args: &[String]) -> (res: Result<String>)
        requires
            old(self).well_formed(),
        ensures
            final(self).well_formed(),
            final(self).statuses() == old(self).statuses(),
            !old(self).statuses().contains_key(plugin_name@) ==> (res matches Err(e)
                && is_named_error(e, "Plugin '"@, plugin_name@, "' not found"@)),
            old(self).statuses().contains_key(plugin_name@) && !(old(self).statuses()[plugin_name@] is Active)
                ==> (res matches Err(e) && is_named_error(e, "Plugin '"@, plugin_name@, "' is not active"@)),
    {
        let i = match find_key(&self.plugins, plugin_name) {
            Some(i) => i,
            None => { return Err(named_error("Plugin '", plugin_name, "' not found")); },
        };
        let ghost before = self.plugins@;
        proof { lemma_key_at(before, i as int); }
        let (name, mut inst) = self.plugins.remove(i);
        let res = match inst.status {
            PluginStatus::Active => inst.plugin.execute_command(command, args),
            _ => Err(named_error("Plugin '", plugin_name, "' is not active")),
        };
        let ghost item = (name, inst);
        assert(item.1.status == before[i as int].1.status);
        self.plugins.insert(i, (name, inst));
        proof {
            assert(self.plugins@ =~= before.update(i as int, item));
            lemma_key_update(before, i as int, item);
        }
        assert(self.statuses() =~= old(self).statuses());
        res
    }

    /// The loaded plugins: each name once, with its status and metadata.
    pub fn list_plugins(&self) -> (res: Vec<(String, PluginStatus, PluginMetadata)>)
        requires
            self.well_formed(),
        ensures
            res@.len() == self.statuses().len(),
            forall|i: int| 0 <= i < res@.len() ==> self.statuses().contains_key(#[trigger] res@[i].0@)
                && self.statuses()[res@[i].0@] == res@[i].1,
            forall|i: int, j: int| 0 <= i < j < res@.len() ==> res@[i].0@ != res@[j].0@,
    {
        proof { lemma_key_map_len(self.plugins@); }
        let mut res: Vec<(String, PluginStatus, PluginMetadata)> = Vec::new();
        let mut i: usize = 0;
        while i < self.plugins.len()
            invariant
                unique_keys(self.plugins@),
                i <= self.plugins@.len(),
                res@.len() == i,
                forall|j: int| 0 <= j < i ==> (#[trigger] res@[j]).0@ == self.plugins@[j].0@
                    && res@[j].1 == self.plugins@[j].1.status,
            decreases self.plugins.len() - i,
        {
            let (name, inst) = &self.plugins[i];
            let status = copy_status(&inst.status);
            res.push((name.clone(), status, inst.metadata().clone()));
            i = i + 1;
        }
        proof {
            assert(self.statuses().dom() =~= key_map(self.plugins@).dom());
            assert forall|j: int| 0 <= j < res@.len() implies self.statuses().contains_key(#[trigger] res@[j].0@)
                && self.statuses()[res@[j].0@] == res@[j].1 by {
                lemma_key_at(self.plugins@, j);
            }
        }
        res
    }

    /// The names of the active plugins, in the order they were loaded.
    pub closed spec fn active_names(&self) -> Seq<Seq<char>> {
        active_names_of(self.plugins@)
    }

    /// The commands of the active plugins that offer any, by plugin name, in
    /// the order the plugins were loaded. What each plugin offers is its own
    /// `get_commands`, asked once of each active plugin.
    pub fn get_all_commands(&self) -> (res: Vec<(String, Vec<PluginCommand>)>)
        requires
            self.well_formed(),
        ensures
            forall|i: int| 0 <= i < res@.len() ==> self.statuses().contains_key(#[trigger] res@[i].0@)
                && is_active(self.statuses()[res@[i].0@])
                && res@[i].1@.len() > 0,
            forall|i: int, j: int| 0 <= i < j < res@.len() ==> res@[i].0@ != res@[j].0@,
            exists|offers: Seq<(String, Vec<PluginCommand>)>|
                offer_names(offers) == self.active_names() && res@ == nonempty_offers(offers),
    {
        let mut res: Vec<(String, Vec<PluginCommand>)> = Vec::new();
        let ghost idx: Seq<int> = Seq::empty();
        let ghost offers: Seq<(String, Vec<PluginCommand>)> = Seq::empty();
        let mut i: usize = 0;
        while i < self.plugins.len()
            invariant
                unique_keys(self.plugins@),
                i <= self.plugins@.len(),
                idx.len() == res@.len(),
                forall|j: int| 0 <= j < res@.len() ==> 0 <= #[trigger] idx[j] < i
                    && res@[j].0@ == self.plugins@[idx[j]].0@
                    && is_active(self.plugins@[idx[j]].1.status)
                    && res@[j].1@.len() > 0,
                forall|a: int, b: int| 0 <= a < b < idx.len() ==> idx[a] < idx[b],
                offer_names(offers) == active_names_of(self.plugins@.take(i as int)),
                res@ == nonempty_offers(offers),
            decreases self.plugins.len() - i,
        {
            proof {
                assert(self.plugins@.take(i + 1).drop_last() =~= self.plugins@.take(i as int));
                assert(self.plugins@.take(i + 1).last() == self.plugins@[i as int]);
            }
            let (name, inst) = &self.plugins[i];
            match inst.status {
                PluginStatus::Active => {
                    let commands = inst.plugin.get_commands();
                    let n = name.clone();
                    proof {
                        let item = (n, commands);
                        assert(offer_names(offers.push(item)) =~= offer_names(offers).push(name@));
                        assert(offers.push(item).drop_last() =~= offers);
                        offers = offers.push(item);
                    }
                    if commands.len() > 0 {
                        res.push((n, commands));
                        proof { idx = idx.push(i as int); }
                    }
                },
                _ => {},
            }
            i = i + 1;
        }
        proof {
            assert(self.plugins@.take(self.plugins@.len() as int) =~= self.plugins@);
            assert forall|j: int| 0 <= j < res@.len() implies self.statuses().contains_key(#[trigger] res@[j].0@)
                && is_active(self.statuses()[res@[j].0@]) && res@[j].1@.len() > 0 by {
                lemma_key_at(self.plugins@, idx[j]);
            }
            assert forall|a: int, b: int| 0 <= a < b < res@.len() implies res@[a].0@ != res@[b].0@ by {
                assert(idx[a] < idx[b]);
            }
        }
        res
    }

    /// Hands `event` to every active plugin; a plugin's failure does not
    /// stop the others.
    pub fn broadcast_event(&mut self, event: &PluginEvent) -> (res: Result<()>)
        requires
            old(self).well_formed(),
        ensures
            final(self).well_formed(),
            final(self).statuses() == old(self).statuses(),
            res is Ok,
    {
        let mut i: usize = 0;
        while i < self.plugins.len()
            invariant
                unique_keys(self.plugins@),
                self.statuses() == old(self).statuses(),
                self.plugins@.len() == old(self).plugins@.len(),
                i <= self.plugins@.len(),
            decreases self.plugins.len() - i,
        {
            let ghost before = self.plugins@;
            let (name, mut inst) = self.plugins.remove(i);
            match inst.status {
                PluginStatus::Active => {
                    let _ = inst.plugin.handle_event(event);
                },
                _ => {},
            }
            let ghost item = (name, inst);
            assert(item.1.status == before[i as int].1.status);
            self.plugins.insert(i, (name, inst));
            proof {
                assert(self.plugins@ =~= before.update(i as int, item));
                lemma_key_update(before, i as int, item);
            }
            assert(self.statuses() =~= key_map(before).map_values(|i: PluginInstance| i.status));
            i = i + 1;
        }
        Ok(())
    }
}

/// A demonstration plugin that answers one command, `hello`.
pub struct ExamplePlugin {
    metadata: PluginMetadata,
}

impl ExamplePlugin {
    /// The plugin described by `metadata`.
    pub fn new(metadata: PluginMetadata) -> (p: ExamplePlugin)
        ensures
            p.metadata_view() == metadata,
    {
        ExamplePlugin { metadata }
    }

    /// The plugin's metadata.
    pub closed spec fn metadata_view(&self) -> PluginMetadata {
        self.metadata
    }
}

/// The JSON text of a string: quoted, with `"` and `\` escaped, the usual
/// short escapes for backspace, form feed, newline, carriage return and
/// tab, and `\u00xx` (lower-case hex) for the other control characters.
pub open spec fn json_string(s: Seq<char>) -> Seq<char> {
    seq!['"'] + json_escaped(s) + seq!['"']
}

/// The escaped body of a JSON string.
pub open spec fn json_escaped(s: Seq<char>) -> Seq<char>
    decreases s.len(),
{
    if s.len() == 0 { Seq::empty() } else { json_escaped(s.drop_last()) + json_escape_char(s.last()) }
}

/// The JSON escape of one character.
pub open spec fn json_escape_char(c: char) -> Seq<char> {
    if c == '"' { seq!['\\', '"'] }
    else if c == '\\' { seq!['\\', '\\'] }
    else if c == '\u{8}' { seq!['\\', 'b'] }
    else if c == '\u{c}' { seq!['\\', 'f'] }
    else if c == '\n' { seq!['\\', 'n'] }
    else if c == '\r' { seq!['\\', 'r'] }
    else if c == '\t' { seq!['\\', 't'] }
    else if (c as u32) < 0x20 {
        seq!['\\', 'u', '0', '0', crate::hashing::hex_digit(((c as u32) / 16) as nat), crate::hashing::hex_digit(((c as u32) % 16) as nat)]
    }
    else { seq![c] }
}

fn push_str(s: &mut String, t: &str)
    ensures
        final(s)@ == old(s)@ + t@,
{
    s.append(t);
}

fn push_json_string(out: &mut String, s: &str)
    ensures
        final(out)@ == old(out)@ + json_string(s@),
{
    let cs = crate::text::chars_of(s);
    crate::text::string_push_char(out, '"');
    let ghost start = out@;
    let mut i: usize = 0;
    while i < cs.len()
        invariant
            i <= cs@.len(),
            cs@ == s@,
            out@ == start + json_escaped(cs@.take(i as int)),
        decreases cs.len() - i,
    {
        let c = cs[i];
        let ghost before = out@;
        if c == '"' {
            push_str(out, "\\\"");
            proof { reveal_strlit("\\\""); }
        } else if c == '\\' {
            push_str(out, "\\\\");
            proof { reveal_strlit("\\\\"); }
        } else if c == '\u{8}' {
            push_str(out, "\\b");
            proof { reveal_strlit("\\b"); }
        } else if c == '\u{c}' {
            push_str(out, "\\f");
            proof { reveal_strlit("\\f"); }
        } else if c == '\n' {
            push_str(out, "\\n");
            proof { reveal_strlit("\\n"); }
        } else if c == '\r' {
            push_str(out, "\\r");
            proof { reveal_strlit("\\r"); }
        } else if c == '\t' {
            push_str(out, "\\t");
            proof { reveal_strlit("\\t"); }
        } else if (c as u32) < 0x20 {
            push_str(out, "\\u00");
            proof { reveal_strlit("\\u00"); }
            let v = c as u32;
            crate::text::string_push_char(out, crate::hashing::hex_char((v / 16) as u8));
            crate::text::string_push_char(out, crate::hashing::hex_char((v % 16) as u8));
        } else {
            crate::text::string_push_char(out, c);
        }
        proof {
            assert(cs@.take(i + 1).drop_last() =~= cs@.take(i as int));
            assert(cs@.take(i + 1).last() == c);
            assert(out@ =~= before + json_escape_char(c));
        }
        i = i + 1;
    }
    crate::text::string_push_char(out, '"');
    proof {
        assert(cs@.take(cs@.len() as int) =~= cs@);
        assert(out@ =~= old(out)@ + json_string(s@));
    }
}

/// The JSON text of the answer to `hello`: an object with the arguments
/// under "args" and the greeting under "message", keys in that order.
pub open spec fn hello_json(name: Seq<char>, args: Seq<Seq<char>>) -> Seq<char> {
    "{\"args\":["@ + crate::text::seq_join(args.map_values(|a: Seq<char>| json_string(a)), ","@)
        + "],\"message\":"@ + json_string("Hello from plugin "@ + name + "!"@) + "}"@
}

impl Plugin for ExamplePlugin {
    fn metadata(&self) -> (m: &PluginMetadata)
        ensures
            *m == self.metadata_view(),
    {
        &self.metadata
    }

    fn initialize(&mut self) -> (res: Result<()>)
        ensures
            res is Ok,
    {
        Ok(())
    }

    fn shutdown(&mut self) -> (res: Result<()>)
        ensures
            res is Ok,
    {
        Ok(())
    }

    fn handle_event(&mut self, event: &PluginEvent) -> (res: Result<()>)
        ensures
            res is Ok,
    {
        Ok(())
    }

    fn execute_command(&mut self, command: &str, args: &[String]) -> (res: Result<String>)
        ensures
            command@ == "hello"@ ==> (res matches Ok(j)
                && j@ == hello_json(old(self).metadata_view().name@, crate::text::string_views(args@))),
            command@ != "hello"@ ==> (res matches Err(e)
                && crate::error::is_general_with(e, "Unknown command: "@, command@)),
    {
        if String::from_str(command) == String::from_str("hello") {
            let mut out = String::from_str("{\"args\":[");
            let ghost views = crate::text::string_views(args@);
            let ghost escaped = views.map_values(|a: Seq<char>| json_string(a));
            let ghost start = out@;
            let mut i: usize = 0;
            while i < args.len()
                invariant
                    i <= args@.len(),
                    views == crate::text::string_views(args@),
                    escaped == views.map_values(|a: Seq<char>| json_string(a)),
                    out@ == start + crate::text::seq_join(escaped.take(i as int), ","@),
                decreases args.len() - i,
            {
                let ghost before = out@;
                if i > 0 {
                    push_str(&mut out, ",");
                }
                assert(out@ == before + (if i > 0 { ","@ } else { Seq::<char>::empty() }));
                push_json_string(&mut out, args[i].as_str());
                proof { lemma_join_step(escaped, i as int); }
                i = i + 1;
            }
            assert(escaped.take(args@.len() as int) =~= escaped);
            push_str(&mut out, "],\"message\":");
            let mut greeting = concat_str("Hello from plugin ", self.metadata.name.as_str());
            greeting.append("!");
            push_json_string(&mut out, greeting.as_str());
            push_str(&mut out, "}");
            Ok(out)
        } else {
            Err(ClaudeError::General(concat_str("Unknown command: ", command)))
        }
    }

    fn get_commands(&self) -> (v: Vec<PluginCommand>)
        ensures
            v@.len() == 1,
            v@[0].name@ == "hello"@,
            v@[0].description@ == "Say hello from the plugin"@,
            v@[0].parameters@.len() == 0,
            !v@[0].requires_confirmation,
    {
        let mut v: Vec<PluginCommand> = Vec::new();
        v.push(PluginCommand {
            name: String::from_str("hello"),
            description: String::from_str("Say hello from the plugin"),
            parameters: Vec::new(),
            requires_confirmation: false,
        });
        v
    }
}

proof fn lemma_join_step(parts: Seq<Seq<char>>, i: int)
    requires
        0 <= i < parts.len(),
    ensures
        crate::text::seq_join(parts.take(i + 1), ","@)
            == crate::text::seq_join(parts.take(i), ","@) + (if i > 0 { ","@ } else { Seq::empty() }) + parts[i],
{
    let e = Seq::<Seq<char>>::empty();
    assert(parts.take(i + 1).drop_last() =~= parts.take(i));
    assert(parts.take(i + 1).last() == parts[i]);
    if i == 0 {
        assert(parts.take(0) =~= e);
        assert(crate::text::seq_join(e, ","@) == Seq::<char>::empty());
        assert(parts.take(1).len() == 1);
        assert(Seq::<char>::empty() + Seq::<char>::empty() + parts[0] =~= parts[0]);
    }
}

} // verus!
