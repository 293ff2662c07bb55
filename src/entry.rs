use vstd::prelude::*;

verus! {

/// How a platform marks an entry as hidden.
#[derive(Clone, Copy, Debug, PartialEq, Eq, Structural)]
pub enum HiddenRule {
    /// The base name starts with `.` (POSIX convention).
    DotPrefix,
    /// The file system keeps an explicit hidden attribute bit.
    Attribute,
}

/// What kind of object an entry is, as seen without following links.
#[derive(Clone, Copy, Debug, PartialEq, Eq, Structural)]
pub enum EntryKind {
    File,
    Directory,
    Symlink,
    /// Anything else the listing may yield (a socket, a fifo, a device).
    Other,
}

/// One object found in the swept directory.
#[derive(Clone, Debug)]
pub struct DirectoryEntry {
    /// The base name, without any directory part.
    pub name: String,
    pub kind: EntryKind,
    /// The platform's hidden attribute bit; only read under `HiddenRule::Attribute`.
    pub hidden_attribute: bool,
}

/// Whether a base name follows the dot-prefix convention for hidden entries.
pub open spec fn dot_hidden(name: Seq<char>) -> bool {
    name.len() > 0 && name[0] == '.'
}

/// Whether an entry counts as hidden under a platform's rule.
pub open spec fn hidden_spec(e: DirectoryEntry, rule: HiddenRule) -> bool {
    match rule {
        HiddenRule::DotPrefix => dot_hidden(e.name@),
        HiddenRule::Attribute => e.hidden_attribute,
    }
}

/// Index of the last `.` among the first `k` characters of `name`, or -1.
pub open spec fn last_dot_before(name: Seq<char>, k: int) -> int
    decreases k,
{
    if k <= 0 {
        -1
    } else if name[k - 1] == '.' {
        k - 1
    } else {
        last_dot_before(name, k - 1)
    }
}

/// The extension of a base name: what follows its last `.`, unless that dot
/// is the first character (a dot file such as `.profile` has none), and
/// `..` has none.
pub open spec fn extension_of(name: Seq<char>) -> Option<Seq<char>> {
    let d = last_dot_before(name, name.len() as int);
    if name =~= seq!['.', '.'] || d <= 0 {
        None
    } else {
        Some(name.subrange(d + 1, name.len() as int))
    }
}

proof fn lemma_last_dot_bounds(name: Seq<char>, k: int)
    requires
        0 <= k <= name.len(),
    ensures
        -1 <= last_dot_before(name, k) < k,
        last_dot_before(name, k) >= 0 ==> name[last_dot_before(name, k)] == '.',
    decreases k,
{
    if k > 0 && name[k - 1] != '.' {
        lemma_last_dot_bounds(name, k - 1);
    }
}

/// True iff `name` starts with a dot.
pub fn is_dot_hidden(name: &str) -> (r: bool)
    ensures
        r == dot_hidden(name@),
{
    if name.unicode_len() == 0 {
        false
    } else {
        name.get_char(0) == '.'
    }
}

/// Whether `e` is hidden under `rule`.
pub fn is_hidden(e: &DirectoryEntry, rule: HiddenRule) -> (r: bool)
    ensures
        r == hidden_spec(*e, rule),
{
    match rule {
        HiddenRule::DotPrefix => is_dot_hidden(e.name.as_str()),
        HiddenRule::Attribute => e.hidden_attribute,
    }
}

/// Whether `e` is a symbolic link.
pub fn is_symlink(e: &DirectoryEntry) -> (r: bool)
    ensures
        r == (e.kind == EntryKind::Symlink),
{
    e.kind == EntryKind::Symlink
}

/// The extension of a base name, without the leading dot.
pub fn file_extension(name: &str) -> (r: Option<String>)
    ensures
        r matches Some(x) ==> extension_of(name@) == Some(x@),
        r is None ==> extension_of(name@) is None,
{
    let n = name.unicode_len();
    if n == 2 && name.get_char(0) == '.' && name.get_char(1) == '.' {
        assert(name@ =~= seq!['.', '.']);
        return None;
    }
    let mut k: usize = n;
    while k > 0
        invariant_except_break
            k <= n,
            n == name@.len(),
            last_dot_before(name@, n as int) == last_dot_before(name@, k as int),
        ensures
            k <= n,
            last_dot_before(name@, n as int) == if k == 0 { -1 } else { k - 1 },
        decreases k,
    {
        if name.get_char(k - 1) == '.' {
            break;
        }
        k = k - 1;
    }
    proof {
        lemma_last_dot_bounds(name@, n as int);
    }
    if k <= 1 {
        None
    } else {
        let ext = name.substring_char(k, n);
        Some(ext.to_string())
    }
}

} // verus!
