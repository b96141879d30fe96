//! Intent resolution: from validated mode flags and settings to one sync mode.
use vstd::prelude::*;

use crate::types::{
    default_settings, Directions, Intent, IntentView, ModeView, Options, OptionsView,
    StatusRequest, Operation, SettingsView, SortBy, SyncDirection,
    SyncMode, SyncModeArgs, SyncSettings, SyncSettingsArgs, DEFAULT_REPLICAS,
    DEFAULT_SYNC_TIMEOUT_SECS,
};

verus! {

/// The direction that a pair of `--fetch` / `--announce` flags asks for:
/// one flag alone selects its phase, both or neither select both phases.
pub open spec fn direction_of(d: Directions) -> SyncDirection {
    if d.fetch && !d.announce {
        SyncDirection::Fetch
    } else if !d.fetch && d.announce {
        SyncDirection::Announce
    } else {
        SyncDirection::Both
    }
}

pub open spec fn opt_settings_view(s: Option<SyncSettings>) -> Option<SettingsView> {
    match s {
        Some(s) => Some(s@),
        None => None,
    }
}

/// The mode that mode flags and optional settings resolve to: inventory wins
/// over everything else; otherwise a repository sync in the direction of the
/// flags, with the given settings or the default ones.
pub open spec fn resolve_mode(args: SyncModeArgs, settings: Option<SettingsView>) -> ModeView {
    if args.inventory {
        ModeView::Inventory
    } else {
        ModeView::Repo {
            settings: match settings {
                Some(s) => s,
                None => default_settings(),
            },
            direction: direction_of(args.directions),
        }
    }
}

/// The flags that select a direction: the one phase's flag, or none for both.
pub open spec fn directions_for(d: SyncDirection) -> Directions {
    match d {
        SyncDirection::Fetch => Directions { fetch: true, announce: false },
        SyncDirection::Announce => Directions { fetch: false, announce: true },
        SyncDirection::Both => Directions { fetch: false, announce: false },
    }
}

/// A flag bundle that reproduces a mode when resolved.
pub open spec fn mode_args(m: ModeView) -> (SyncModeArgs, Option<SettingsView>) {
    match m {
        ModeView::Inventory => (
            SyncModeArgs { directions: directions_for(SyncDirection::Both), inventory: true },
            None,
        ),
        ModeView::Repo { settings, direction } => (
            SyncModeArgs { directions: directions_for(direction), inventory: false },
            Some(settings),
        ),
    }
}

impl Default for SortBy {
    fn default() -> (r: SortBy)
        ensures
            r == SortBy::Status,
    {
        SortBy::Status
    }
}

impl Default for Operation {
    fn default() -> (r: Operation)
        ensures
            r == (Operation::Status { sort_by: SortBy::Status }),
    {
        Operation::Status { sort_by: SortBy::Status }
    }
}

impl Default for SyncDirection {
    fn default() -> (r: SyncDirection)
        ensures
            r == SyncDirection::Both,
    {
        SyncDirection::Both
    }
}

impl Default for Directions {
    fn default() -> (r: Directions)
        ensures
            r == (Directions { fetch: false, announce: false }),
    {
        Directions { fetch: false, announce: false }
    }
}

impl Default for SyncModeArgs {
    fn default() -> (r: SyncModeArgs)
        ensures
            r == (SyncModeArgs {
                directions: Directions { fetch: false, announce: false },
                inventory: false,
            }),
    {
        SyncModeArgs { directions: Directions { fetch: false, announce: false }, inventory: false }
    }
}

impl Default for SyncSettings {
    fn default() -> (r: SyncSettings)
        ensures
            r@ == default_settings(),
    {
        let r = SyncSettings {
            replicas: DEFAULT_REPLICAS,
            seeds: Vec::new(),
            timeout: DEFAULT_SYNC_TIMEOUT_SECS,
        };
        assert(r@.seeds =~= Seq::<Seq<char>>::empty());
        r
    }
}

impl From<Directions> for SyncDirection {
    fn from(value: Directions) -> (r: SyncDirection)
        ensures
            r == direction_of(value),
    {
        match (value.fetch, value.announce) {
            (true, true) => SyncDirection::Both,
            (true, false) => SyncDirection::Fetch,
            (false, true) => SyncDirection::Announce,
            (false, false) => SyncDirection::Both,
        }
    }
}

impl vstd::std_specs::convert::FromSpecImpl<Directions> for SyncDirection {
    open spec fn obeys_from_spec() -> bool {
        true
    }

    open spec fn from_spec(v: Directions) -> SyncDirection {
        direction_of(v)
    }
}

impl From<SyncSettingsArgs> for SyncSettings {
    fn from(s: SyncSettingsArgs) -> (r: SyncSettings)
        ensures
            r@ == s@,
    {
        SyncSettings { replicas: s.replicas, seeds: s.seeds, timeout: s.timeout }
    }
}

impl vstd::std_specs::convert::FromSpecImpl<SyncSettingsArgs> for SyncSettings {
    open spec fn obeys_from_spec() -> bool {
        true
    }

    open spec fn from_spec(v: SyncSettingsArgs) -> SyncSettings {
        SyncSettings { replicas: v.replicas, seeds: v.seeds, timeout: v.timeout }
    }
}

impl SyncMode {
    /// Resolves the mode flags: `--inventory` wins and discards everything
    /// else; otherwise a repository sync with the given or default settings.
    pub fn new(args: SyncModeArgs, settings: Option<SyncSettings>) -> (r: SyncMode)
        ensures
            r@ == resolve_mode(args, opt_settings_view(settings)),
            args.inventory ==> r@ == ModeView::Inventory,
            !args.inventory ==> r@ is Repo && r@->Repo_direction == direction_of(args.directions),
    {
        if args.inventory {
            SyncMode::Inventory
        } else {
            let settings = match settings {
                Some(s) => s,
                None => SyncSettings::default(),
            };
            SyncMode::Repo { settings, direction: SyncDirection::from(args.directions) }
        }
    }

    /// Re-derives mode flags and settings that resolve back to this mode.
    pub fn into_args(self) -> (r: (SyncModeArgs, Option<SyncSettings>))
        ensures
            (r.0, opt_settings_view(r.1)) == mode_args(self@),
    {
        match self {
            SyncMode::Inventory => (
                SyncModeArgs {
                    directions: Directions { fetch: false, announce: false },
                    inventory: true,
                },
                None,
            ),
            SyncMode::Repo { settings, direction } => {
                let directions = match direction {
                    SyncDirection::Fetch => Directions { fetch: true, announce: false },
                    SyncDirection::Announce => Directions { fetch: false, announce: true },
                    SyncDirection::Both => Directions { fetch: false, announce: false },
                };
                (SyncModeArgs { directions, inventory: false }, Some(settings))
            },
        }
    }
}

/// What a parsed invocation asks for: the status table when the `status`
/// subcommand was given, else the resolved sync mode, with the repository
/// only where the mode is not inventory announcement.
pub open spec fn intent_of(o: OptionsView) -> IntentView {
    match o.op {
        Some(Operation::Status { sort_by }) => IntentView::Status { sort_by, rid: o.rid },
        None => IntentView::Sync {
            rid: if o.sync.inventory {
                None
            } else {
                o.rid
            },
            mode: resolve_mode(o.sync, Some(o.settings)),
        },
    }
}

impl Options {
    /// Folds parsed options into the one intent they stand for.
    pub fn into_intent(self) -> (r: Intent)
        ensures
            r@ == intent_of(self@),
    {
        match self.op {
            Some(Operation::Status { sort_by }) => Intent::Status(
                StatusRequest { sort_by, rid: self.rid },
            ),
            None => {
                let rid = if self.sync.inventory {
                    None
                } else {
                    self.rid
                };
                let mode = SyncMode::new(self.sync, Some(SyncSettings::from(self.settings)));
                Intent::Sync { rid, mode }
            },
        }
    }
}

/// With `--inventory` the mode is inventory announcement, whatever the
/// direction flags and settings say.
pub proof fn lemma_inventory_wins(args: SyncModeArgs, settings: Option<SettingsView>)
    requires
        args.inventory,
    ensures
        resolve_mode(args, settings) == ModeView::Inventory,
{
}

/// Without `--inventory` the direction follows the flag pair exactly:
/// neither or both give `Both`, one alone gives its own phase.
pub proof fn lemma_direction_table(args: SyncModeArgs, settings: Option<SettingsView>)
    requires
        !args.inventory,
    ensures
        resolve_mode(args, settings) is Repo,
        (!args.directions.fetch && !args.directions.announce) ==> resolve_mode(
            args,
            settings,
        )->Repo_direction == SyncDirection::Both,
        (args.directions.fetch && !args.directions.announce) ==> resolve_mode(
            args,
            settings,
        )->Repo_direction == SyncDirection::Fetch,
        (!args.directions.fetch && args.directions.announce) ==> resolve_mode(
            args,
            settings,
        )->Repo_direction == SyncDirection::Announce,
        (args.directions.fetch && args.directions.announce) ==> resolve_mode(
            args,
            settings,
        )->Repo_direction == SyncDirection::Both,
{
}

/// Resolution is lossless: re-deriving a flag bundle from a resolved mode
/// and resolving that bundle gives the same mode back, and a repository
/// sync's bundle carries the same direction and settings it was resolved
/// from.
pub proof fn lemma_round_trip(args: SyncModeArgs, settings: Option<SettingsView>)
    ensures
        ({
            let m = resolve_mode(args, settings);
            let (a2, s2) = mode_args(m);
            &&& resolve_mode(a2, s2) == m
            &&& a2.inventory == args.inventory
            &&& !args.inventory ==> direction_of(a2.directions) == direction_of(args.directions)
            &&& !args.inventory ==> s2 == Some(
                match settings {
                    Some(s) => s,
                    None => default_settings(),
                },
            )
        }),
{
}

} // verus!
