//! The argument surface: reads the raw argument list of `rad sync` into typed,
//! defaulted [`Options`], rejecting what cannot be a valid invocation.
use vstd::prelude::*;
use vstd::string::StringExecFns;

use crate::types::{
    default_settings, Directions, NodeId, Operation, Options, OptionsView, RepoId,
    SettingsView, SortBy, SyncModeArgs, SyncSettingsArgs, DEFAULT_REPLICAS,
    DEFAULT_SYNC_TIMEOUT_SECS,
};

verus! {

pub open spec fn is_digit(c: char) -> bool {
    '0' <= c && c <= '9'
}

pub open spec fn all_digits(s: Seq<char>) -> bool {
    forall|i: int| 0 <= i < s.len() ==> is_digit(#[trigger] s[i])
}

/// A non-empty run of decimal digits.
pub open spec fn is_decimal(s: Seq<char>) -> bool {
    s.len() > 0 && all_digits(s)
}

pub open spec fn digit_value(c: char) -> int {
    (c as u32) as int - 48
}

/// The number that a run of decimal digits writes.
pub open spec fn decimal_value(s: Seq<char>) -> int
    decreases s.len(),
{
    if s.len() == 0 {
        0
    } else {
        decimal_value(s.drop_last()) * 10 + digit_value(s.last())
    }
}

/// The number that `s` writes in decimal, where it is one and is at most `max`.
pub open spec fn number_at_most(s: Seq<char>, max: int) -> Option<nat> {
    if is_decimal(s) && decimal_value(s) <= max {
        Some(decimal_value(s) as nat)
    } else {
        None
    }
}

proof fn lemma_value_nonneg(s: Seq<char>)
    requires
        all_digits(s),
    ensures
        decimal_value(s) >= 0,
    decreases s.len(),
{
    if s.len() > 0 {
        lemma_value_nonneg(s.drop_last());
    }
}

proof fn lemma_prefix_le(s: Seq<char>, k: int)
    requires
        all_digits(s),
        0 <= k <= s.len(),
    ensures
        decimal_value(s.subrange(0, k)) <= decimal_value(s),
    decreases s.len(),
{
    if k < s.len() {
        let t = s.drop_last();
        lemma_prefix_le(t, k);
        assert(t.subrange(0, k) =~= s.subrange(0, k));
        lemma_value_nonneg(t);
    } else {
        assert(s.subrange(0, k) =~= s);
    }
}

spec fn is_ascii_chars_of(s: Seq<char>) -> bool {
    forall|i: int| 0 <= i < s.len() ==> '\0' <= #[trigger] s[i] <= '\u{7f}'
}

/// Reads a decimal number that fits in a `u64`.
fn parse_u64(s: &str) -> (r: Option<u64>)
    ensures
        match r {
            Some(k) => number_at_most(s@, u64::MAX as int) == Some(k as nat),
            None => number_at_most(s@, u64::MAX as int) is None,
        },
{
    if !s.is_ascii() {
        proof {
            if all_digits(s@) {
                assert(is_ascii_chars_of(s@));
            }
        }
        return None;
    }
    let bytes = s.as_bytes();
    proof {
        broadcast use vstd::string::is_ascii_spec_bytes;

        assert(bytes@ =~= Seq::new(s@.len(), |i| s@[i] as u8));
    }
    let n = bytes.len();
    if n == 0 {
        return None;
    }
    let mut acc: u64 = 0;
    let mut i: usize = 0;
    while i < n
        invariant
            0 <= i <= n,
            n == s@.len(),
            bytes@ == Seq::new(s@.len(), |k| s@[k] as u8),
            vstd::string::is_ascii(s),
            all_digits(s@.subrange(0, i as int)),
            acc == decimal_value(s@.subrange(0, i as int)),
        decreases n - i,
    {
        let b = bytes[i];
        let ghost c = s@[i as int];
        assert(b == c as u8);
        if b < 48 || b > 57 {
            assert(!is_digit(c));
            return None;
        }
        assert(is_digit(c));
        let d = (b - 48) as u64;
        let ghost prefix = s@.subrange(0, i as int + 1);
        assert(prefix.drop_last() =~= s@.subrange(0, i as int));
        assert(digit_value(c) == d);
        if acc > (u64::MAX - d) / 10 {
            proof {
                assert(acc * 10 + d > u64::MAX) by (nonlinear_arith)
                    requires
                        acc > (u64::MAX - d) / 10,
                        d <= 9,
                ;
                if is_decimal(s@) {
                    lemma_prefix_le(s@, i as int + 1);
                }
            }
            return None;
        }
        assert(acc * 10 + d <= u64::MAX) by (nonlinear_arith)
            requires
                acc <= (u64::MAX - d) / 10,
                d <= 9,
        ;
        acc = acc * 10 + d;
        i += 1;
    }
    assert(s@.subrange(0, n as int) =~= s@);
    Some(acc)
}

/// Why an argument list was rejected.
#[derive(Debug, Clone, PartialEq, Eq)]
pub enum ArgError {
    /// An argument that is no flag of the command it was given to.
    UnexpectedArgument { arg: String },
    /// A flag that takes a value came last.
    MissingValue { flag: String },
    /// A numeric flag's value is not a decimal number that fits.
    InvalidNumber { flag: String, value: String },
    /// The value of `--sort-by` is none of `nid`, `alias`, `status`.
    InvalidSortField { value: String },
    /// A direction flag was given together with `--inventory`.
    Conflict { flag: String },
}

/// The usage summary shown with every rejection.
pub const USAGE: &'static str = "Usage:
  rad sync [--fetch | --announce] [--rid <rid>] [--timeout <secs>] [--debug] [--seed <nid>]... [-r <n>] [-v]
  rad sync status [--sort-by nid|alias|status] [--rid <rid>] [--debug] [-v]
  rad sync --inventory
";

/// The text that explains a rejection, naming the offending argument, flag
/// or value.
pub open spec fn message_of(e: ArgErrorView) -> Seq<char> {
    match e {
        ArgErrorView::UnexpectedArgument(a) => "unexpected argument '"@ + a + "'"@,
        ArgErrorView::MissingValue(f) => "a value is required for '"@ + f + "'"@,
        ArgErrorView::InvalidNumber(f, v) => "invalid value '"@ + v + "' for '"@ + f
            + "': expected a non-negative integer"@,
        ArgErrorView::InvalidSortField(v) => "invalid value '"@ + v
            + "' for '--sort-by': expected one of nid, alias, status"@,
        ArgErrorView::Conflict(f) => "the argument '"@ + f + "' cannot be used with '--inventory'"@,
    }
}

impl ArgError {
    /// What went wrong, naming the offending argument, flag or value.
    pub fn message(&self) -> (r: String)
        ensures
            r@ == message_of(self@),
    {
        let mut m = String::new();
        match self {
            ArgError::UnexpectedArgument { arg } => {
                m.append("unexpected argument '");
                m.append(arg.as_str());
                m.append("'");
            },
            ArgError::MissingValue { flag } => {
                m.append("a value is required for '");
                m.append(flag.as_str());
                m.append("'");
            },
            ArgError::InvalidNumber { flag, value } => {
                m.append("invalid value '");
                m.append(value.as_str());
                m.append("' for '");
                m.append(flag.as_str());
                m.append("': expected a non-negative integer");
            },
            ArgError::InvalidSortField { value } => {
                m.append("invalid value '");
                m.append(value.as_str());
                m.append("' for '--sort-by': expected one of nid, alias, status");
            },
            ArgError::Conflict { flag } => {
                m.append("the argument '");
                m.append(flag.as_str());
                m.append("' cannot be used with '--inventory'");
            },
        }
        m
    }

    /// The full diagnostic: the message, then the usage summary.
    pub fn diagnostic(&self) -> (r: String)
        ensures
            r@ == "error: "@ + message_of(self@) + "\n\n"@ + USAGE@,
    {
        let mut d = String::new();
        d.append("error: ");
        let m = self.message();
        d.append(m.as_str());
        d.append("\n\n");
        d.append(USAGE);
        d
    }
}

/// The mathematical value of an [`ArgError`].
pub enum ArgErrorView {
    UnexpectedArgument(Seq<char>),
    MissingValue(Seq<char>),
    InvalidNumber(Seq<char>, Seq<char>),
    InvalidSortField(Seq<char>),
    Conflict(Seq<char>),
}

impl View for ArgError {
    type V = ArgErrorView;

    open spec fn view(&self) -> ArgErrorView {
        match self {
            ArgError::UnexpectedArgument { arg } => ArgErrorView::UnexpectedArgument(arg@),
            ArgError::MissingValue { flag } => ArgErrorView::MissingValue(flag@),
            ArgError::InvalidNumber { flag, value } => ArgErrorView::InvalidNumber(flag@, value@),
            ArgError::InvalidSortField { value } => ArgErrorView::InvalidSortField(value@),
            ArgError::Conflict { flag } => ArgErrorView::Conflict(flag@),
        }
    }
}

/// The sort column that a `--sort-by` value names.
pub open spec fn sort_field(s: Seq<char>) -> Option<SortBy> {
    if s == "nid"@ {
        Some(SortBy::Nid)
    } else if s == "alias"@ {
        Some(SortBy::Alias)
    } else if s == "status"@ {
        Some(SortBy::Status)
    } else {
        None
    }
}

/// What an empty argument list means: a bidirectional sync with default settings.
pub open spec fn initial_options() -> OptionsView {
    OptionsView {
        rid: None,
        debug: false,
        verbose: false,
        sync: SyncModeArgs {
            directions: Directions { fetch: false, announce: false },
            inventory: false,
        },
        settings: default_settings(),
        op: None,
    }
}

/// Reads the argument at `i` into `o`: the options after it and the index of
/// the next unread argument, or why it is rejected. Global flags are read
/// anywhere; after `status` only `--sort-by` joins them. A flag that takes a
/// value takes the argument after it, whatever that holds.
pub open spec fn step(args: Seq<Seq<char>>, i: int, o: OptionsView) -> Result<
    (OptionsView, int),
    ArgErrorView,
> {
    let a = args[i];
    let has_value = i + 1 < args.len();
    if a == "--rid"@ {
        if !has_value {
            Err(ArgErrorView::MissingValue(a))
        } else {
            Ok((OptionsView { rid: Some(args[i + 1]), ..o }, i + 2))
        }
    } else if a == "--debug"@ {
        Ok((OptionsView { debug: true, ..o }, i + 1))
    } else if a == "--verbose"@ || a == "-v"@ {
        Ok((OptionsView { verbose: true, ..o }, i + 1))
    } else if o.op is Some {
        if a == "--sort-by"@ {
            if !has_value {
                Err(ArgErrorView::MissingValue(a))
            } else {
                match sort_field(args[i + 1]) {
                    Some(f) => Ok((OptionsView { op: Some(Operation::Status { sort_by: f }), ..o }, i + 2)),
                    None => Err(ArgErrorView::InvalidSortField(args[i + 1])),
                }
            }
        } else {
            Err(ArgErrorView::UnexpectedArgument(a))
        }
    } else if a == "--fetch"@ {
        Ok((OptionsView { sync: SyncModeArgs { directions: Directions { fetch: true, ..o.sync.directions }, ..o.sync }, ..o }, i + 1))
    } else if a == "--announce"@ {
        Ok((OptionsView { sync: SyncModeArgs { directions: Directions { announce: true, ..o.sync.directions }, ..o.sync }, ..o }, i + 1))
    } else if a == "--inventory"@ {
        Ok((OptionsView { sync: SyncModeArgs { inventory: true, ..o.sync }, ..o }, i + 1))
    } else if a == "--replicas"@ || a == "-r"@ {
        if !has_value {
            Err(ArgErrorView::MissingValue(a))
        } else {
            match number_at_most(args[i + 1], usize::MAX as int) {
                Some(n) => Ok((OptionsView { settings: SettingsView { replicas: n, ..o.settings }, ..o }, i + 2)),
                None => Err(ArgErrorView::InvalidNumber(a, args[i + 1])),
            }
        }
    } else if a == "--seed"@ {
        if !has_value {
            Err(ArgErrorView::MissingValue(a))
        } else {
            Ok((OptionsView { settings: SettingsView { seeds: o.settings.seeds.push(args[i + 1]), ..o.settings }, ..o }, i + 2))
        }
    } else if a == "--timeout"@ {
        if !has_value {
            Err(ArgErrorView::MissingValue(a))
        } else {
            match number_at_most(args[i + 1], u64::MAX as int) {
                Some(n) => Ok((OptionsView { settings: SettingsView { timeout: n, ..o.settings }, ..o }, i + 2)),
                None => Err(ArgErrorView::InvalidNumber(a, args[i + 1])),
            }
        }
    } else if a == "status"@ {
        Ok((OptionsView { op: Some(Operation::Status { sort_by: SortBy::Status }), ..o }, i + 1))
    } else {
        Err(ArgErrorView::UnexpectedArgument(a))
    }
}

/// The conflict rule, applied once every argument is read: a direction flag
/// together with `--inventory` is rejected.
pub open spec fn finish(o: OptionsView) -> Result<OptionsView, ArgErrorView> {
    if o.sync.inventory && o.sync.directions.fetch {
        Err(ArgErrorView::Conflict("--fetch"@))
    } else if o.sync.inventory && o.sync.directions.announce {
        Err(ArgErrorView::Conflict("--announce"@))
    } else {
        Ok(o)
    }
}

/// Reads the arguments from `i` on into `o`.
pub open spec fn parse_from(args: Seq<Seq<char>>, i: int, o: OptionsView) -> Result<
    OptionsView,
    ArgErrorView,
>
    decreases args.len() - i,
{
    if i < 0 || i >= args.len() {
        finish(o)
    } else {
        match step(args, i, o) {
            Ok((o2, j)) => parse_from(args, j, o2),
            Err(e) => Err(e),
        }
    }
}

/// What an argument list means: its options, or why it is rejected.
pub open spec fn parse(args: Seq<Seq<char>>) -> Result<OptionsView, ArgErrorView> {
    parse_from(args, 0, initial_options())
}

pub open spec fn args_view(args: Seq<String>) -> Seq<Seq<char>> {
    args.map_values(|s: String| s@)
}

pub open spec fn parse_result_view(r: Result<Options, ArgError>) -> Result<OptionsView, ArgErrorView> {
    match r {
        Ok(o) => Ok(o@),
        Err(e) => Err(e@),
    }
}

fn same_text(a: &str, w: &str) -> (r: bool)
    ensures
        r == (a@ == w@),
{
    a.to_owned().eq(&w.to_owned())
}

/// Reads a `--sort-by` value.
pub fn parse_sort_by(s: &str) -> (r: Result<SortBy, ArgError>)
    ensures
        match r {
            Ok(f) => sort_field(s@) == Some(f),
            Err(e) => sort_field(s@) is None && e@ == ArgErrorView::InvalidSortField(s@),
        },
{
    if same_text(s, "nid") {
        Ok(SortBy::Nid)
    } else if same_text(s, "alias") {
        Ok(SortBy::Alias)
    } else if same_text(s, "status") {
        Ok(SortBy::Status)
    } else {
        Err(ArgError::InvalidSortField { value: s.to_owned() })
    }
}

impl core::str::FromStr for SortBy {
    type Err = &'static str;

    fn from_str(s: &str) -> (r: Result<Self, Self::Err>)
        ensures
            r is Ok <==> sort_field(s@) is Some,
            r is Ok ==> sort_field(s@) == Some(r->Ok_0),
            r is Err ==> r->Err_0@ == "invalid `--sort-by` field"@,
    {
        match parse_sort_by(s) {
            Ok(f) => Ok(f),
            Err(_) => Err("invalid `--sort-by` field"),
        }
    }
}

/// Reads a numeric flag's value as a `u64`.
fn number_value(flag: &String, value: &String) -> (r: Result<u64, ArgError>)
    ensures
        match r {
            Ok(n) => number_at_most(value@, u64::MAX as int) == Some(n as nat),
            Err(e) => number_at_most(value@, u64::MAX as int) is None
                && e@ == ArgErrorView::InvalidNumber(flag@, value@),
        },
{
    match parse_u64(value.as_str()) {
        Some(n) => Ok(n),
        None => Err(ArgError::InvalidNumber { flag: flag.clone(), value: value.clone() }),
    }
}

/// Reads the argument list of `rad sync` (without the command name) into
/// options with every default applied, or rejects it.
///
/// Only the spaced form of a flag with a value is recognised (`--timeout 5`,
/// `-r 5`); `--timeout=5` and `-r5` are unexpected arguments. A flag that
/// takes a value takes the next argument as it stands, even one that looks
/// like a flag: `--rid --debug` names the repository `--debug`.
pub fn parse_args(args: &Vec<String>) -> (r: Result<Options, ArgError>)
    ensures
        parse_result_view(r) == parse(args_view(args@)),
        r is Ok ==> !(r->Ok_0.sync.inventory && (r->Ok_0.sync.directions.fetch
            || r->Ok_0.sync.directions.announce)),
{
    let ghost av = args_view(args@);
    let n = args.len();
    let mut o = Options {
        rid: None,
        debug: false,
        verbose: false,
        sync: SyncModeArgs {
            directions: Directions { fetch: false, announce: false },
            inventory: false,
        },
        settings: SyncSettingsArgs {
            replicas: DEFAULT_REPLICAS,
            seeds: Vec::new(),
            timeout: DEFAULT_SYNC_TIMEOUT_SECS,
        },
        op: None,
    };
    assert(o@.settings.seeds =~= Seq::<Seq<char>>::empty());
    assert(o@ == initial_options());
    let mut i: usize = 0;
    while i < n
        invariant
            n == args@.len(),
            av == args_view(args@),
            0 <= i <= n,
            parse(av) == parse_from(av, i as int, o@),
        decreases n - i,
    {
        let a = &args[i];
        let has_value = i + 1 < n;
        assert(av[i as int] == a@);
        assert(has_value ==> av[i + 1] == args@[i + 1]@);
        if same_text(a.as_str(), "--rid") {
            if !has_value {
                return Err(ArgError::MissingValue { flag: a.clone() });
            }
            o.rid = Some(RepoId::new(args[i + 1].as_str()));
            i = i + 2;
        } else if same_text(a.as_str(), "--debug") {
            o.debug = true;
            i = i + 1;
        } else if same_text(a.as_str(), "--verbose") || same_text(a.as_str(), "-v") {
            o.verbose = true;
            i = i + 1;
        } else if o.op.is_some() {
            if same_text(a.as_str(), "--sort-by") {
                if !has_value {
                    return Err(ArgError::MissingValue { flag: a.clone() });
                }
                match parse_sort_by(args[i + 1].as_str()) {
                    Ok(f) => {
                        o.op = Some(Operation::Status { sort_by: f });
                    },
                    Err(e) => {
                        return Err(e);
                    },
                }
                i = i + 2;
            } else {
                return Err(ArgError::UnexpectedArgument { arg: a.clone() });
            }
        } else if same_text(a.as_str(), "--fetch") {
            o.sync.directions.fetch = true;
            i = i + 1;
        } else if same_text(a.as_str(), "--announce") {
            o.sync.directions.announce = true;
            i = i + 1;
        } else if same_text(a.as_str(), "--inventory") {
            o.sync.inventory = true;
            i = i + 1;
        } else if same_text(a.as_str(), "--replicas") || same_text(a.as_str(), "-r") {
            if !has_value {
                return Err(ArgError::MissingValue { flag: a.clone() });
            }
            let v = number_value(a, &args[i + 1]);
            match v {
                Ok(k) => {
                    if k > usize::MAX as u64 {
                        proof {
                            lemma_value_nonneg(av[i + 1]);
                        }
                        assert(number_at_most(av[i + 1], usize::MAX as int) is None);
                        return Err(
                            ArgError::InvalidNumber { flag: a.clone(), value: args[i + 1].clone() },
                        );
                    }
                    o.settings.replicas = k as usize;
                },
                Err(e) => {
                    proof {
                        assert(number_at_most(av[i + 1], usize::MAX as int) is None);
                    }
                    return Err(e);
                },
            }
            i = i + 2;
        } else if same_text(a.as_str(), "--seed") {
            if !has_value {
                return Err(ArgError::MissingValue { flag: a.clone() });
            }
            let ghost old_seeds = o@.settings.seeds;
            o.settings.seeds.push(NodeId::new(args[i + 1].as_str()));
            assert(o@.settings.seeds =~= old_seeds.push(av[i + 1]));
            i = i + 2;
        } else if same_text(a.as_str(), "--timeout") {
            if !has_value {
                return Err(ArgError::MissingValue { flag: a.clone() });
            }
            match number_value(a, &args[i + 1]) {
                Ok(k) => {
                    o.settings.timeout = k;
                },
                Err(e) => {
                    return Err(e);
                },
            }
            i = i + 2;
        } else if same_text(a.as_str(), "status") {
            o.op = Some(Operation::Status { sort_by: SortBy::Status });
            i = i + 1;
        } else {
            return Err(ArgError::UnexpectedArgument { arg: a.clone() });
        }
    }
    if o.sync.inventory && o.sync.directions.fetch {
        Err(ArgError::Conflict { flag: "--fetch".to_owned() })
    } else if o.sync.inventory && o.sync.directions.announce {
        Err(ArgError::Conflict { flag: "--announce".to_owned() })
    } else {
        Ok(o)
    }
}

/// Whether `w` is among the arguments from `i` on.
pub open spec fn mentions(args: Seq<Seq<char>>, i: int, w: Seq<char>) -> bool {
    exists|k: int| i <= k < args.len() && args[k] == w
}

proof fn lemma_settings_kept_from(args: Seq<Seq<char>>, i: int, o: OptionsView)
    requires
        0 <= i,
    ensures
        parse_from(args, i, o) is Ok ==> {
            let r = parse_from(args, i, o)->Ok_0;
            &&& (!mentions(args, i, "--replicas"@) && !mentions(args, i, "-r"@))
                ==> r.settings.replicas == o.settings.replicas
            &&& !mentions(args, i, "--timeout"@) ==> r.settings.timeout == o.settings.timeout
            &&& !mentions(args, i, "--seed"@) ==> r.settings.seeds == o.settings.seeds
        },
    decreases args.len() - i,
{
    if i < args.len() {
        if let Ok((o2, j)) = step(args, i, o) {
            lemma_settings_kept_from(args, j, o2);
            assert(mentions(args, j, "--replicas"@) ==> mentions(args, i, "--replicas"@));
            assert(mentions(args, j, "-r"@) ==> mentions(args, i, "-r"@));
            assert(mentions(args, j, "--timeout"@) ==> mentions(args, i, "--timeout"@));
            assert(mentions(args, j, "--seed"@) ==> mentions(args, i, "--seed"@));
        }
    }
}

/// A setting whose flag is not given keeps its default: three replicas
/// without `--replicas`/`-r`, nine seconds without `--timeout`, no seeds
/// without `--seed`; each flag given changes its own setting only.
pub proof fn lemma_omitted_settings_default(args: Seq<Seq<char>>)
    ensures
        parse(args) is Ok ==> {
            let r = parse(args)->Ok_0;
            &&& (!mentions(args, 0, "--replicas"@) && !mentions(args, 0, "-r"@))
                ==> r.settings.replicas == 3
            &&& !mentions(args, 0, "--timeout"@) ==> r.settings.timeout == 9
            &&& !mentions(args, 0, "--seed"@) ==> r.settings.seeds == Seq::<Seq<char>>::empty()
        },
{
    lemma_settings_kept_from(args, 0, initial_options());
}

proof fn lemma_finished_from(args: Seq<Seq<char>>, i: int, o: OptionsView)
    requires
        0 <= i,
    ensures
        parse_from(args, i, o) is Ok ==> finish(parse_from(args, i, o)->Ok_0) == parse_from(
            args,
            i,
            o,
        ),
    decreases args.len() - i,
{
    if i < args.len() {
        if let Ok((o2, j)) = step(args, i, o) {
            lemma_finished_from(args, j, o2);
        }
    }
}

/// No accepted argument list asks both for inventory announcement and for a
/// sync direction: `--inventory` with `--fetch` or `--announce` is always
/// rejected.
pub proof fn lemma_conflict_never_resolves(args: Seq<Seq<char>>)
    ensures
        parse(args) is Ok ==> {
            let r = parse(args)->Ok_0;
            !(r.sync.inventory && (r.sync.directions.fetch || r.sync.directions.announce))
        },
{
    lemma_finished_from(args, 0, initial_options());
}

/// The argument list `--seed x0 --seed x1 ...` for the given seeds.
pub open spec fn seed_args(xs: Seq<Seq<char>>) -> Seq<Seq<char>>
    decreases xs.len(),
{
    if xs.len() == 0 {
        Seq::empty()
    } else {
        seq!["--seed"@, xs[0]] + seed_args(xs.drop_first())
    }
}

proof fn lemma_seeds_from(args: Seq<Seq<char>>, i: int, xs: Seq<Seq<char>>, o: OptionsView)
    requires
        0 <= i <= args.len(),
        args.subrange(i, args.len() as int) == seed_args(xs),
        o.op is None,
    ensures
        parse_from(args, i, o) == finish(
            OptionsView {
                settings: SettingsView { seeds: o.settings.seeds + xs, ..o.settings },
                ..o
            },
        ),
    decreases xs.len(),
{
    if xs.len() == 0 {
        assert(o.settings.seeds + xs =~= o.settings.seeds);
        assert(args.subrange(i, args.len() as int).len() == 0);
    } else {
        let tail = seed_args(xs.drop_first());
        let sub = args.subrange(i, args.len() as int);
        assert(sub =~= seq!["--seed"@, xs[0]] + tail);
        assert(args[i] == sub[0]);
        assert(args[i + 1] == sub[1]);
        assert(args.subrange(i + 2, args.len() as int) =~= sub.subrange(2, sub.len() as int));
        assert(sub.subrange(2, sub.len() as int) =~= tail);
        reveal_strlit("--seed");
        reveal_strlit("--rid");
        reveal_strlit("--debug");
        reveal_strlit("--verbose");
        reveal_strlit("-v");
        reveal_strlit("--fetch");
        reveal_strlit("--announce");
        reveal_strlit("--inventory");
        reveal_strlit("--replicas");
        reveal_strlit("-r");
        let o2 = OptionsView {
            settings: SettingsView { seeds: o.settings.seeds.push(xs[0]), ..o.settings },
            ..o
        };
        assert(step(args, i, o) == Ok::<(OptionsView, int), ArgErrorView>((o2, i + 2)));
        lemma_seeds_from(args, i + 2, xs.drop_first(), o2);
        assert(o2.settings.seeds + xs.drop_first() =~= o.settings.seeds + xs);
    }
}

/// `--seed` may be repeated: the seeds are the given values in the order
/// given, repeats included, and nothing else changes.
pub proof fn lemma_seeds_in_order(xs: Seq<Seq<char>>)
    ensures
        parse(seed_args(xs)) == Ok::<OptionsView, ArgErrorView>(
            OptionsView {
                settings: SettingsView { seeds: xs, ..default_settings() },
                ..initial_options()
            },
        ),
{
    let args = seed_args(xs);
    assert(args.subrange(0, args.len() as int) =~= args);
    lemma_seeds_from(args, 0, xs, initial_options());
    assert(Seq::<Seq<char>>::empty() + xs =~= xs);
}

} // verus!
