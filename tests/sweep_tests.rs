use desktop_cleaner::allow::{default_allow_list, fold_all, is_allowed_extension, is_listed};
use desktop_cleaner::entry::{
    file_extension, is_dot_hidden, is_hidden, is_symlink, DirectoryEntry, EntryKind, HiddenRule,
};
use desktop_cleaner::sweep::{
    classify, plan_entry, plan_sweep, tally, Action, Config, Disposition, SweepError,
    SweepSummary, DEFAULT_INTERVAL,
};

fn entry(name: &str, kind: EntryKind) -> DirectoryEntry {
    DirectoryEntry { name: name.to_string(), kind, hidden_attribute: false }
}

fn config(dry_run: bool) -> Config {
    Config::new(DEFAULT_INTERVAL, dry_run, default_allow_list())
}

fn desktop_listing() -> Vec<Option<DirectoryEntry>> {
    vec![
        Some(entry("notes.txt", EntryKind::File)),
        Some(entry("launcher.desktop", EntryKind::File)),
        Some(entry("app.exe", EntryKind::File)),
        Some(entry(".hidden_file", EntryKind::File)),
        Some(entry("link_to_file", EntryKind::Symlink)),
        Some(entry("old_project", EntryKind::Directory)),
    ]
}

#[test]
fn dot_prefix_marks_hidden() {
    assert!(is_dot_hidden(".bashrc"));
    assert!(is_dot_hidden("."));
    assert!(!is_dot_hidden("notes.txt"));
    assert!(!is_dot_hidden(""));
}

#[test]
fn hidden_rule_selects_the_source() {
    let mut e = entry("visible.txt", EntryKind::File);
    e.hidden_attribute = true;
    assert!(is_hidden(&e, HiddenRule::Attribute));
    assert!(!is_hidden(&e, HiddenRule::DotPrefix));
    let d = entry(".dotted", EntryKind::File);
    assert!(is_hidden(&d, HiddenRule::DotPrefix));
    assert!(!is_hidden(&d, HiddenRule::Attribute));
}

#[test]
fn symlink_kind_is_detected() {
    assert!(is_symlink(&entry("l", EntryKind::Symlink)));
    assert!(!is_symlink(&entry("f", EntryKind::File)));
}

#[test]
fn extension_follows_last_dot() {
    assert_eq!(file_extension("notes.txt"), Some("txt".to_string()));
    assert_eq!(file_extension("archive.tar.gz"), Some("gz".to_string()));
    assert_eq!(file_extension("noext"), None);
    assert_eq!(file_extension(".profile"), None);
    assert_eq!(file_extension(".config.url"), Some("url".to_string()));
    assert_eq!(file_extension("trailing."), Some("".to_string()));
    assert_eq!(file_extension(".."), None);
    assert_eq!(file_extension(""), None);
    assert_eq!(file_extension("café.ÉXE"), Some("ÉXE".to_string()));
}

#[test]
fn default_allow_list_contents() {
    assert_eq!(default_allow_list(), vec!["desktop", "exe", "lnk", "url"]);
    assert_eq!(DEFAULT_INTERVAL, 600);
}

#[test]
fn extension_match_ignores_case() {
    let allow = default_allow_list();
    assert!(is_allowed_extension("exe", &allow));
    assert!(is_allowed_extension("EXE", &allow));
    assert!(is_allowed_extension("Desktop", &allow));
    assert!(!is_allowed_extension("txt", &allow));
    assert!(!is_allowed_extension("", &allow));
    let upper = vec!["LNK".to_string()];
    assert!(is_allowed_extension("lnk", &upper));
    assert!(!is_allowed_extension("lnk", &Vec::new()));
}

#[test]
fn folding_lowers_every_entry() {
    let allow = vec!["URL".to_string(), "Exe".to_string()];
    assert_eq!(fold_all(&allow), vec!["url", "exe"]);
    assert!(is_listed(&"exe".to_string(), &fold_all(&allow)));
    assert!(!is_listed(&"Exe".to_string(), &fold_all(&allow)));
}

#[test]
fn classification_order() {
    let allow = default_allow_list();
    let r = HiddenRule::DotPrefix;
    assert_eq!(classify(&entry(".x.txt", EntryKind::File), r, &allow), Disposition::Hidden);
    assert_eq!(classify(&entry(".x.txt", EntryKind::Symlink), r, &allow), Disposition::Hidden);
    assert_eq!(classify(&entry("x.txt", EntryKind::Symlink), r, &allow), Disposition::Symlink);
    assert_eq!(
        classify(&entry("App.EXE", EntryKind::File), r, &allow),
        Disposition::AllowedExtension
    );
    assert_eq!(classify(&entry("x.txt", EntryKind::File), r, &allow), Disposition::Eligible);
    assert_eq!(classify(&entry("x", EntryKind::File), r, &allow), Disposition::Eligible);
    assert_eq!(classify(&entry("y.exe", EntryKind::Directory), r, &allow), Disposition::Eligible);
    assert_eq!(classify(&entry("fifo.lnk", EntryKind::Other), r, &allow), Disposition::Eligible);
}

#[test]
fn unreadable_item_is_skipped() {
    assert_eq!(plan_entry(&config(false), HiddenRule::DotPrefix, &None), Action::SkipUnreadable);
}

#[test]
fn desktop_scenario_live() {
    let target = "/home/u/Desktop".to_string();
    let plan =
        plan_sweep(&config(false), HiddenRule::DotPrefix, &target, &Some(desktop_listing()))
            .unwrap();
    assert_eq!(plan, vec![Action::Relocate, Action::Keep, Action::Keep, Action::Keep, Action::Keep, Action::Relocate]);
    let s = tally(&plan, &vec![true; 6]);
    assert_eq!(s, SweepSummary { seen: 6, relocated: 2, protected: 4, errors: 0 });
}

#[test]
fn desktop_scenario_dry_run() {
    let target = "/home/u/Desktop".to_string();
    let plan =
        plan_sweep(&config(true), HiddenRule::DotPrefix, &target, &Some(desktop_listing()))
            .unwrap();
    assert_eq!(plan, vec![Action::Simulate, Action::Keep, Action::Keep, Action::Keep, Action::Keep, Action::Simulate]);
    assert!(!plan.contains(&Action::Relocate));
    let dry = tally(&plan, &vec![false; 6]);
    let live_plan =
        plan_sweep(&config(false), HiddenRule::DotPrefix, &target, &Some(desktop_listing()))
            .unwrap();
    assert_eq!(dry, tally(&live_plan, &vec![true; 6]));
}

#[test]
fn missing_directory_is_unreadable() {
    let target = "/nowhere/Desktop".to_string();
    match plan_sweep(&config(false), HiddenRule::DotPrefix, &target, &None) {
        Err(SweepError::DirectoryUnreadable(p)) => assert_eq!(p, target),
        Ok(_) => panic!("expected an error"),
    }
}

#[test]
fn second_sweep_after_cleaning_moves_nothing() {
    let target = "/home/u/Desktop".to_string();
    let cfg = config(false);
    let first = desktop_listing();
    let plan = plan_sweep(&cfg, HiddenRule::DotPrefix, &target, &Some(first.clone())).unwrap();
    let kept: Vec<Option<DirectoryEntry>> = first
        .into_iter()
        .zip(plan.iter())
        .filter(|(_, a)| **a == Action::Keep)
        .map(|(e, _)| e)
        .collect();
    assert_eq!(kept.len(), 4);
    let again = plan_sweep(&cfg, HiddenRule::DotPrefix, &target, &Some(kept)).unwrap();
    assert!(again.iter().all(|a| *a == Action::Keep));
    assert_eq!(tally(&again, &vec![true; 4]).relocated, 0);
}

#[test]
fn failed_relocation_does_not_stop_later_entries() {
    let target = "/home/u/Desktop".to_string();
    let listing = vec![
        Some(entry("a.txt", EntryKind::File)),
        None,
        Some(entry("b.txt", EntryKind::File)),
    ];
    let plan = plan_sweep(&config(false), HiddenRule::DotPrefix, &target, &Some(listing)).unwrap();
    assert_eq!(plan, vec![Action::Relocate, Action::SkipUnreadable, Action::Relocate]);
    let s = tally(&plan, &vec![false, true, true]);
    assert_eq!(s, SweepSummary { seen: 3, relocated: 1, protected: 0, errors: 2 });
}

#[test]
fn empty_listing_gives_zero_counts() {
    let target = "/home/u/Desktop".to_string();
    let plan = plan_sweep(&config(false), HiddenRule::DotPrefix, &target, &Some(Vec::new())).unwrap();
    assert!(plan.is_empty());
    assert_eq!(tally(&plan, &Vec::new()), SweepSummary { seen: 0, relocated: 0, protected: 0, errors: 0 });
}
