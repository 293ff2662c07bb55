use vstd::prelude::*;

use crate::allow::allowed;
use crate::entry::{extension_of, hidden_spec, DirectoryEntry, EntryKind, HiddenRule};
use crate::sweep::{moved, n_failed, n_kept, n_moved, plan_spec, summarises, Action, SweepSummary};

verus! {

/// A file whose extension matches the allow-list, ignoring case, is kept,
/// in a dry run or not.
pub proof fn allowed_file_is_kept(
    allow: Seq<Seq<char>>,
    dry_run: bool,
    rule: HiddenRule,
    items: Seq<Option<DirectoryEntry>>,
    i: int,
)
    requires
        0 <= i < items.len(),
        items[i] is Some,
        items[i]->0.kind == EntryKind::File,
        extension_of(items[i]->0.name@) is Some,
        allowed(extension_of(items[i]->0.name@)->0, allow),
    ensures
        plan_spec(allow, dry_run, rule, items)[i] == Action::Keep,
{
}

/// A hidden entry is kept, whatever its extension.
pub proof fn hidden_entry_is_kept(
    allow: Seq<Seq<char>>,
    dry_run: bool,
    rule: HiddenRule,
    items: Seq<Option<DirectoryEntry>>,
    i: int,
)
    requires
        0 <= i < items.len(),
        items[i] matches Some(e) && hidden_spec(e, rule),
    ensures
        plan_spec(allow, dry_run, rule, items)[i] == Action::Keep,
{
}

/// A symbolic link is kept, whatever its name or target.
pub proof fn symlink_is_kept(
    allow: Seq<Seq<char>>,
    dry_run: bool,
    rule: HiddenRule,
    items: Seq<Option<DirectoryEntry>>,
    i: int,
)
    requires
        0 <= i < items.len(),
        items[i] matches Some(e) && e.kind == EntryKind::Symlink,
    ensures
        plan_spec(allow, dry_run, rule, items)[i] == Action::Keep,
{
}

/// A subdirectory that is neither hidden nor a link always goes: it is
/// relocated, or reported in a dry run, whatever its name.
pub proof fn plain_directory_goes(
    allow: Seq<Seq<char>>,
    dry_run: bool,
    rule: HiddenRule,
    items: Seq<Option<DirectoryEntry>>,
    i: int,
)
    requires
        0 <= i < items.len(),
        items[i] matches Some(e) && e.kind == EntryKind::Directory && !hidden_spec(e, rule),
    ensures
        plan_spec(allow, dry_run, rule, items)[i] == if dry_run {
            Action::Simulate
        } else {
            Action::Relocate
        },
{
}

proof fn lemma_dry_counts(
    pd: Seq<Action>,
    pl: Seq<Action>,
    o: Seq<bool>,
    t: Seq<bool>,
    k: int,
)
    requires
        0 <= k <= pd.len(),
        pd.len() == pl.len(),
        forall|j: int| 0 <= j < pd.len() ==> t[j],
        forall|j: int|
            0 <= j < pd.len() ==> (pd[j] == Action::Simulate <==> pl[j] == Action::Relocate),
        forall|j: int|
            0 <= j < pd.len() && pd[j] != Action::Simulate ==> pd[j] == pl[j] && pd[j]
                != Action::Relocate,
    ensures
        n_moved(pd, o, k) == n_moved(pl, t, k),
        n_kept(pd, k) == n_kept(pl, k),
        n_failed(pd, o, k) == n_failed(pl, t, k),
    decreases k,
{
    if k > 0 {
        lemma_dry_counts(pd, pl, o, t, k - 1);
    }
}

/// A dry run asks for no relocation at all, and its summary has the counts
/// of a live sweep of the same listing in which every relocation succeeds.
pub proof fn dry_run_changes_nothing_but_counts_alike(
    allow: Seq<Seq<char>>,
    rule: HiddenRule,
    items: Seq<Option<DirectoryEntry>>,
    outcomes: Seq<bool>,
    dry: SweepSummary,
    live: SweepSummary,
)
    requires
        outcomes.len() == items.len(),
        summarises(dry, plan_spec(allow, true, rule, items), outcomes),
        summarises(
            live,
            plan_spec(allow, false, rule, items),
            Seq::new(items.len(), |j: int| true),
        ),
    ensures
        forall|j: int|
            0 <= j < items.len() ==> plan_spec(allow, true, rule, items)[j] != Action::Relocate,
        dry == live,
{
    let pd = plan_spec(allow, true, rule, items);
    let pl = plan_spec(allow, false, rule, items);
    lemma_dry_counts(pd, pl, outcomes, Seq::new(items.len(), |j: int| true), items.len() as int);
}

proof fn lemma_none_moved(p: Seq<Action>, o: Seq<bool>, k: int)
    requires
        0 <= k <= p.len(),
        forall|j: int| 0 <= j < p.len() ==> p[j] == Action::Keep,
    ensures
        n_moved(p, o, k) == 0,
    decreases k,
{
    if k > 0 {
        lemma_none_moved(p, o, k - 1);
    }
}

/// A second sweep over what a first sweep kept relocates nothing: every
/// entry of the second listing is one that the first sweep kept.
pub proof fn second_sweep_relocates_nothing(
    allow: Seq<Seq<char>>,
    dry_run: bool,
    rule: HiddenRule,
    first: Seq<Option<DirectoryEntry>>,
    second: Seq<Option<DirectoryEntry>>,
    outcomes: Seq<bool>,
)
    requires
        outcomes.len() == second.len(),
        forall|j: int|
            #![trigger second[j]]
            0 <= j < second.len() ==> exists|i: int|
                #![trigger first[i]]
                0 <= i < first.len() && first[i] == second[j] && plan_spec(
                    allow,
                    false,
                    rule,
                    first,
                )[i] == Action::Keep,
    ensures
        forall|j: int|
            0 <= j < second.len() ==> plan_spec(allow, dry_run, rule, second)[j] == Action::Keep,
        n_moved(plan_spec(allow, dry_run, rule, second), outcomes, second.len() as int) == 0,
{
    let p2 = plan_spec(allow, dry_run, rule, second);
    assert forall|j: int| 0 <= j < second.len() implies p2[j] == Action::Keep by {
        let i = choose|i: int|
            #![trigger first[i]]
            0 <= i < first.len() && first[i] == second[j] && plan_spec(
                allow,
                false,
                rule,
                first,
            )[i] == Action::Keep;
    }
    lemma_none_moved(p2, outcomes, second.len() as int);
}

/// One item's action depends on that item alone: changing another item of
/// the listing leaves it as it was.
pub proof fn plan_is_per_entry(
    allow: Seq<Seq<char>>,
    dry_run: bool,
    rule: HiddenRule,
    items: Seq<Option<DirectoryEntry>>,
    a: int,
    x: Option<DirectoryEntry>,
    b: int,
)
    requires
        0 <= a < items.len(),
        0 <= b < items.len(),
        a != b,
    ensures
        plan_spec(allow, dry_run, rule, items.update(a, x))[b] == plan_spec(
            allow,
            dry_run,
            rule,
            items,
        )[b],
{
}

proof fn lemma_fail_one(p: Seq<Action>, o: Seq<bool>, a: int, k: int)
    requires
        0 <= k <= p.len(),
        p.len() == o.len(),
        0 <= a < p.len(),
    ensures
        n_moved(p, o.update(a, false), k) + (if a < k && moved(p[a], o[a])
            && p[a] == Action::Relocate { 1int } else { 0int }) == n_moved(p, o, k),
    decreases k,
{
    if k > 0 {
        lemma_fail_one(p, o, a, k - 1);
    }
}

/// When the relocation of one entry fails, the others are unaffected: the
/// relocated count drops by that entry alone, and every other entry that
/// was relocated still is.
pub proof fn failure_is_isolated(p: Seq<Action>, o: Seq<bool>, a: int)
    requires
        p.len() == o.len(),
        0 <= a < p.len(),
        p[a] == Action::Relocate,
        o[a],
    ensures
        n_moved(p, o.update(a, false), p.len() as int) + 1 == n_moved(p, o, p.len() as int),
        forall|b: int|
            0 <= b < p.len() && b != a ==> (moved(p[b], o.update(a, false)[b]) <==> moved(
                p[b],
                o[b],
            )),
{
    lemma_fail_one(p, o, a, p.len() as int);
}

} // verus!
