use vstd::prelude::*;

use crate::allow::{allowed, is_allowed_extension, views};
use crate::entry::{
    extension_of, file_extension, hidden_spec, is_hidden, is_symlink, DirectoryEntry, EntryKind,
    HiddenRule,
};

verus! {

/// Seconds between two sweeps when nothing else is asked for.
pub const DEFAULT_INTERVAL: u64 = 600;

/// What one run of the cleaner is asked to do; fixed at start-up.
#[derive(Clone, Debug)]
pub struct Config {
    /// Seconds to wait after each sweep.
    pub interval: u64,
    /// Report what would be relocated, and relocate nothing.
    pub dry_run: bool,
    /// Extensions (compared ignoring case, without the dot) that protect a file.
    pub allow_list: Vec<String>,
}

impl Config {
    pub fn new(interval: u64, dry_run: bool, allow_list: Vec<String>) -> (r: Config)
        ensures
            r.interval == interval,
            r.dry_run == dry_run,
            r.allow_list@ == allow_list@,
    {
        Config { interval, dry_run, allow_list }
    }
}

/// Why an entry is kept, or that it may go.
#[derive(Clone, Copy, Debug, PartialEq, Eq, Structural)]
pub enum Disposition {
    Hidden,
    Symlink,
    AllowedExtension,
    Eligible,
}

/// What the sweep does with one item of the listing.
#[derive(Clone, Copy, Debug, PartialEq, Eq, Structural)]
pub enum Action {
    /// The entry is protected and left alone.
    Keep,
    /// Move the entry to the trash.
    Relocate,
    /// Dry run: report that the entry would be moved, touch nothing.
    Simulate,
    /// The listing could not read this item; it is skipped.
    SkipUnreadable,
}

/// The only error that aborts a sweep.
#[derive(Clone, Debug)]
pub enum SweepError {
    /// The target directory could not be listed; holds the path tried.
    DirectoryUnreadable(String),
}

/// Counts that describe one finished sweep.
#[derive(Clone, Copy, Debug, PartialEq, Eq, Structural)]
pub struct SweepSummary {
    /// Items the listing produced, readable or not.
    pub seen: usize,
    /// Entries moved to the trash, or reported as such in a dry run.
    pub relocated: usize,
    /// Entries kept as protected.
    pub protected: usize,
    /// Items that could not be read, and entries whose relocation failed.
    pub errors: usize,
}

/// The disposition of an entry: hidden and symlink checks first, then
/// files are protected by an allowed extension; everything else may go.
pub open spec fn disposition_of(e: DirectoryEntry, rule: HiddenRule, allow: Seq<Seq<char>>) -> Disposition {
    if hidden_spec(e, rule) {
        Disposition::Hidden
    } else if e.kind == EntryKind::Symlink {
        Disposition::Symlink
    } else if e.kind == EntryKind::File && extension_of(e.name@) is Some && allowed(
        extension_of(e.name@)->0,
        allow,
    ) {
        Disposition::AllowedExtension
    } else {
        Disposition::Eligible
    }
}

/// The action for one item of a listing.
pub open spec fn step_spec(
    allow: Seq<Seq<char>>,
    dry_run: bool,
    rule: HiddenRule,
    item: Option<DirectoryEntry>,
) -> Action {
    match item {
        None => Action::SkipUnreadable,
        Some(e) => if disposition_of(e, rule, allow) != Disposition::Eligible {
            Action::Keep
        } else if dry_run {
            Action::Simulate
        } else {
            Action::Relocate
        },
    }
}

/// The actions for a whole listing, item by item.
pub open spec fn plan_spec(
    allow: Seq<Seq<char>>,
    dry_run: bool,
    rule: HiddenRule,
    items: Seq<Option<DirectoryEntry>>,
) -> Seq<Action> {
    items.map_values(|it: Option<DirectoryEntry>| step_spec(allow, dry_run, rule, it))
}

/// Whether an action leaves its entry counted as relocated, given the
/// outcome of the trash call (only read for `Relocate`).
pub open spec fn moved(a: Action, ok: bool) -> bool {
    a == Action::Simulate || (a == Action::Relocate && ok)
}

/// Whether an action leaves its item counted as an error.
pub open spec fn failed(a: Action, ok: bool) -> bool {
    a == Action::SkipUnreadable || (a == Action::Relocate && !ok)
}

/// How many of the first `k` actions moved their entry.
pub open spec fn n_moved(p: Seq<Action>, o: Seq<bool>, k: int) -> nat
    decreases k,
{
    if k <= 0 {
        0
    } else {
        n_moved(p, o, k - 1) + if moved(p[k - 1], o[k - 1]) { 1nat } else { 0nat }
    }
}

/// How many of the first `k` actions kept their entry.
pub open spec fn n_kept(p: Seq<Action>, k: int) -> nat
    decreases k,
{
    if k <= 0 {
        0
    } else {
        n_kept(p, k - 1) + if p[k - 1] == Action::Keep { 1nat } else { 0nat }
    }
}

/// How many of the first `k` actions ended in an error.
pub open spec fn n_failed(p: Seq<Action>, o: Seq<bool>, k: int) -> nat
    decreases k,
{
    if k <= 0 {
        0
    } else {
        n_failed(p, o, k - 1) + if failed(p[k - 1], o[k - 1]) { 1nat } else { 0nat }
    }
}

/// Whether a summary gives the counts of a plan carried out with outcomes `o`.
pub open spec fn summarises(s: SweepSummary, p: Seq<Action>, o: Seq<bool>) -> bool {
    &&& s.seen == p.len()
    &&& s.relocated == n_moved(p, o, p.len() as int)
    &&& s.protected == n_kept(p, p.len() as int)
    &&& s.errors == n_failed(p, o, p.len() as int)
}

proof fn lemma_counts_bounded(p: Seq<Action>, o: Seq<bool>, k: int)
    requires
        0 <= k <= p.len(),
    ensures
        n_moved(p, o, k) + n_kept(p, k) + n_failed(p, o, k) <= k,
    decreases k,
{
    if k > 0 {
        lemma_counts_bounded(p, o, k - 1);
    }
}

/// Classifies one entry.
pub fn classify(e: &DirectoryEntry, rule: HiddenRule, allow: &Vec<String>) -> (r: Disposition)
    ensures
        r == disposition_of(*e, rule, views(allow@)),
{
    if is_hidden(e, rule) {
        return Disposition::Hidden;
    }
    if is_symlink(e) {
        return Disposition::Symlink;
    }
    if e.kind == EntryKind::File {
        if let Some(ext) = file_extension(e.name.as_str()) {
            if is_allowed_extension(ext.as_str(), allow) {
                return Disposition::AllowedExtension;
            }
        }
    }
    Disposition::Eligible
}

/// The action for one item of a listing (`None`: the item could not be read).
pub fn plan_entry(config: &Config, rule: HiddenRule, item: &Option<DirectoryEntry>) -> (r: Action)
    ensures
        r == step_spec(views(config.allow_list@), config.dry_run, rule, *item),
{
    match item {
        None => Action::SkipUnreadable,
        Some(e) => {
            if classify(e, rule, &config.allow_list) != Disposition::Eligible {
                Action::Keep
            } else if config.dry_run {
                Action::Simulate
            } else {
                Action::Relocate
            }
        },
    }
}

/// Plans one sweep of `target`. `listing` is `None` when the directory
/// could not be listed at all; otherwise it holds one item per listed
/// entry, `None` where that entry could not be read.
pub fn plan_sweep(
    config: &Config,
    rule: HiddenRule,
    target: &String,
    listing: &Option<Vec<Option<DirectoryEntry>>>,
) -> (r: Result<Vec<Action>, SweepError>)
    ensures
        listing is None <==> r is Err,
        r matches Err(SweepError::DirectoryUnreadable(p)) ==> p@ == target@,
        r matches Ok(plan) ==> listing matches Some(items) && plan@ == plan_spec(
            views(config.allow_list@),
            config.dry_run,
            rule,
            items@,
        ),
{
    match listing {
        None => Err(SweepError::DirectoryUnreadable(target.clone())),
        Some(items) => {
            let mut plan: Vec<Action> = Vec::new();
            let mut i: usize = 0;
            while i < items.len()
                invariant
                    i <= items@.len(),
                    plan@.len() == i,
                    forall|j: int|
                        0 <= j < i ==> plan@[j] == step_spec(
                            views(config.allow_list@),
                            config.dry_run,
                            rule,
                            items@[j],
                        ),
                decreases items@.len() - i,
            {
                let a = plan_entry(config, rule, &items[i]);
                plan.push(a);
                i = i + 1;
            }
            assert(plan@ =~= plan_spec(views(config.allow_list@), config.dry_run, rule, items@));
            Ok(plan)
        },
    }
}

/// Counts what a sweep did. `outcomes[i]` tells whether the trash call for
/// `plan[i]` succeeded; it is read only where `plan[i]` is `Relocate`.
pub fn tally(plan: &Vec<Action>, outcomes: &Vec<bool>) -> (r: SweepSummary)
    requires
        outcomes@.len() == plan@.len(),
    ensures
        summarises(r, plan@, outcomes@),
{
    let mut s = SweepSummary { seen: 0, relocated: 0, protected: 0, errors: 0 };
    let mut i: usize = 0;
    while i < plan.len()
        invariant
            i <= plan@.len(),
            outcomes@.len() == plan@.len(),
            s.seen == i,
            s.relocated == n_moved(plan@, outcomes@, i as int),
            s.protected == n_kept(plan@, i as int),
            s.errors == n_failed(plan@, outcomes@, i as int),
        decreases plan@.len() - i,
    {
        proof {
            lemma_counts_bounded(plan@, outcomes@, i + 1);
        }
        let a = plan[i];
        let ok = outcomes[i];
        match a {
            Action::Keep => {
                s.protected = s.protected + 1;
            },
            Action::Simulate => {
                s.relocated = s.relocated + 1;
            },
            Action::SkipUnreadable => {
                s.errors = s.errors + 1;
            },
            Action::Relocate => {
                if ok {
                    s.relocated = s.relocated + 1;
                } else {
                    s.errors = s.errors + 1;
                }
            },
        }
        s.seen = s.seen + 1;
        i = i + 1;
    }
    s
}

} // verus!
