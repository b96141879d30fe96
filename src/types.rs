//! The values an invocation is made of, and their mathematical views.
use vstd::prelude::*;

verus! {

/// Replication factor used when `--replicas` is not given.
pub const DEFAULT_REPLICAS: usize = 3;

/// Seconds to wait for syncing when `--timeout` is not given.
pub const DEFAULT_SYNC_TIMEOUT_SECS: u64 = 9;

/// A repository identifier; no structure is imposed on it at this layer.
#[derive(Debug, Clone, PartialEq, Eq)]
pub struct RepoId(String);

impl View for RepoId {
    type V = Seq<char>;

    closed spec fn view(&self) -> Seq<char> {
        self.0@
    }
}

impl core::str::FromStr for RepoId {
    type Err = core::convert::Infallible;

    fn from_str(s: &str) -> (r: Result<Self, Self::Err>)
        ensures
            r is Ok && r->Ok_0@ == s@,
    {
        Ok(RepoId::new(s))
    }
}

impl RepoId {
    pub fn new(s: &str) -> (r: RepoId)
        ensures
            r@ == s@,
    {
        RepoId(s.to_owned())
    }

    pub fn as_str(&self) -> (r: &str)
        ensures
            r@ == self@,
    {
        self.0.as_str()
    }
}

/// A node (peer) identifier; no structure is imposed on it at this layer.
#[derive(Debug, Clone, PartialEq, Eq)]
pub struct NodeId(String);

impl View for NodeId {
    type V = Seq<char>;

    closed spec fn view(&self) -> Seq<char> {
        self.0@
    }
}

impl core::str::FromStr for NodeId {
    type Err = core::convert::Infallible;

    fn from_str(s: &str) -> (r: Result<Self, Self::Err>)
        ensures
            r is Ok && r->Ok_0@ == s@,
    {
        Ok(NodeId::new(s))
    }
}

impl NodeId {
    pub fn new(s: &str) -> (r: NodeId)
        ensures
            r@ == s@,
    {
        NodeId(s.to_owned())
    }

    pub fn as_str(&self) -> (r: &str)
        ensures
            r@ == self@,
    {
        self.0.as_str()
    }
}

/// The column by which `rad sync status` sorts its table.
#[derive(Clone, Copy, Debug, PartialEq, Eq, Structural)]
pub enum SortBy {
    /// Sort by Node ID
    Nid,
    /// Sort by alias
    Alias,
    /// Sort by the sync status (default)
    Status,
}

/// The `status` subcommand.
#[derive(Clone, Copy, Debug, PartialEq, Eq, Structural)]
pub enum Operation {
    /// Display whether other nodes are in sync with this node's signed references.
    Status { sort_by: SortBy },
}

/// Which of the sync phases run.
#[derive(Clone, Copy, Debug, PartialEq, Eq, Structural)]
pub enum SyncDirection {
    Fetch,
    Announce,
    Both,
}

/// The `--fetch` and `--announce` flags.
#[derive(Clone, Copy, Debug, PartialEq, Eq, Structural)]
pub struct Directions {
    pub fetch: bool,
    pub announce: bool,
}

/// The flags that choose between inventory announcement and a repository sync.
#[derive(Clone, Copy, Debug, PartialEq, Eq, Structural)]
pub struct SyncModeArgs {
    pub directions: Directions,
    /// Announce the node's inventory; `--rid` is then ignored.
    pub inventory: bool,
}

/// The mathematical value of a set of sync settings.
pub struct SettingsView {
    pub replicas: nat,
    pub seeds: Seq<Seq<char>>,
    pub timeout: nat,
}

/// The settings that apply when none are given.
pub open spec fn default_settings() -> SettingsView {
    SettingsView { replicas: 3, seeds: Seq::empty(), timeout: 9 }
}

pub open spec fn seeds_view(seeds: Seq<NodeId>) -> Seq<Seq<char>> {
    seeds.map_values(|n: NodeId| n@)
}

/// Repository sync settings.
#[derive(Debug, Clone, PartialEq, Eq)]
pub struct SyncSettings {
    /// Sync with at least N replicas.
    pub replicas: usize,
    /// Sync with the given list of seeds.
    pub seeds: Vec<NodeId>,
    /// How many seconds to wait for syncing to complete.
    pub timeout: u64,
}

impl View for SyncSettings {
    type V = SettingsView;

    open spec fn view(&self) -> SettingsView {
        SettingsView {
            replicas: self.replicas as nat,
            seeds: seeds_view(self.seeds@),
            timeout: self.timeout as nat,
        }
    }
}

/// The settings as read from the command line, defaults applied.
#[derive(Debug, Clone, PartialEq, Eq)]
pub struct SyncSettingsArgs {
    /// Sync with at least N replicas.
    pub replicas: usize,
    /// Sync with the given list of seeds, in the order given.
    pub seeds: Vec<NodeId>,
    /// How many seconds to wait for syncing to complete.
    pub timeout: u64,
}

impl View for SyncSettingsArgs {
    type V = SettingsView;

    open spec fn view(&self) -> SettingsView {
        SettingsView {
            replicas: self.replicas as nat,
            seeds: seeds_view(self.seeds@),
            timeout: self.timeout as nat,
        }
    }
}

/// The mathematical value of a sync mode.
pub enum ModeView {
    Repo { settings: SettingsView, direction: SyncDirection },
    Inventory,
}

/// The resolved intent of a root `rad sync` invocation.
#[derive(Debug, Clone, PartialEq, Eq)]
pub enum SyncMode {
    Repo { settings: SyncSettings, direction: SyncDirection },
    Inventory,
}

impl View for SyncMode {
    type V = ModeView;

    open spec fn view(&self) -> ModeView {
        match self {
            SyncMode::Repo { settings, direction } => ModeView::Repo {
                settings: settings@,
                direction: *direction,
            },
            SyncMode::Inventory => ModeView::Inventory,
        }
    }
}

/// The payload of `rad sync status`.
#[derive(Debug, Clone, PartialEq, Eq)]
pub struct StatusRequest {
    pub sort_by: SortBy,
    pub rid: Option<RepoId>,
}

/// What a whole invocation asks for.
#[derive(Debug, Clone, PartialEq, Eq)]
pub enum Intent {
    /// Show the sync status of a repository.
    Status(StatusRequest),
    /// Sync; `rid` is absent in inventory mode, which ignores it.
    Sync { rid: Option<RepoId>, mode: SyncMode },
}

pub open spec fn opt_rid_view(r: Option<RepoId>) -> Option<Seq<char>> {
    match r {
        Some(r) => Some(r@),
        None => None,
    }
}

/// The mathematical value of an intent.
pub enum IntentView {
    Status { sort_by: SortBy, rid: Option<Seq<char>> },
    Sync { rid: Option<Seq<char>>, mode: ModeView },
}

impl View for Intent {
    type V = IntentView;

    open spec fn view(&self) -> IntentView {
        match self {
            Intent::Status(s) => IntentView::Status { sort_by: s.sort_by, rid: opt_rid_view(s.rid) },
            Intent::Sync { rid, mode } => IntentView::Sync { rid: opt_rid_view(*rid), mode: mode@ },
        }
    }
}

/// The mathematical value of a parsed invocation.
pub struct OptionsView {
    pub rid: Option<Seq<char>>,
    pub debug: bool,
    pub verbose: bool,
    pub sync: SyncModeArgs,
    pub settings: SettingsView,
    pub op: Option<Operation>,
}

/// A parsed `rad sync` invocation: typed values with defaults applied.
#[derive(Debug, Clone, PartialEq, Eq)]
pub struct Options {
    /// Repository Identifier to be synchronized
    pub rid: Option<RepoId>,
    /// Output debug information, if any
    pub debug: bool,
    /// Output verbose information, if any
    pub verbose: bool,
    pub sync: SyncModeArgs,
    pub settings: SyncSettingsArgs,
    pub op: Option<Operation>,
}

impl View for Options {
    type V = OptionsView;

    open spec fn view(&self) -> OptionsView {
        OptionsView {
            rid: opt_rid_view(self.rid),
            debug: self.debug,
            verbose: self.verbose,
            sync: self.sync,
            settings: self.settings@,
            op: self.op,
        }
    }
}

} // verus!
