use vstd::prelude::*;

verus! {

/// The Unicode lower-case mapping of a string, as `str::to_lowercase` gives it.
pub uninterp spec fn lower_of(s: Seq<char>) -> Seq<char>;

/// Relies on `str::to_lowercase`: the result depends on the characters alone.
#[verifier::external_body]
fn lowercase(s: &str) -> (r: String)
    ensures
        r@ == lower_of(s@),
{
    s.to_lowercase()
}

/// Whether `ext` equals one of the entries of `allow`.
pub open spec fn listed(ext: Seq<char>, allow: Seq<Seq<char>>) -> bool {
    exists|i: int| 0 <= i < allow.len() && allow[i] == ext
}

/// The views of a list of strings.
pub open spec fn views(v: Seq<String>) -> Seq<Seq<char>> {
    v.map_values(|s: String| s@)
}

/// The lower-case forms of a list of strings.
pub open spec fn folded(v: Seq<Seq<char>>) -> Seq<Seq<char>> {
    v.map_values(|s: Seq<char>| lower_of(s))
}

/// Whether `ext` matches an entry of `allow`, ignoring case.
pub open spec fn allowed(ext: Seq<char>, allow: Seq<Seq<char>>) -> bool {
    listed(lower_of(ext), folded(allow))
}

/// The extensions that protect a file when no other list is given.
pub open spec fn default_allow_spec() -> Seq<Seq<char>> {
    seq![
        seq!['d', 'e', 's', 'k', 't', 'o', 'p'],
        seq!['e', 'x', 'e'],
        seq!['l', 'n', 'k'],
        seq!['u', 'r', 'l'],
    ]
}

/// The default allow-list: `desktop`, `exe`, `lnk`, `url`.
pub fn default_allow_list() -> (r: Vec<String>)
    ensures
        views(r@) == default_allow_spec(),
{
    let mut r: Vec<String> = Vec::new();
    r.push("desktop".to_string());
    r.push("exe".to_string());
    r.push("lnk".to_string());
    r.push("url".to_string());
    proof {
        reveal_strlit("desktop");
        reveal_strlit("exe");
        reveal_strlit("lnk");
        reveal_strlit("url");
        assert(r@[0]@ =~= default_allow_spec()[0]);
        assert(r@[1]@ =~= default_allow_spec()[1]);
        assert(r@[2]@ =~= default_allow_spec()[2]);
        assert(r@[3]@ =~= default_allow_spec()[3]);
        assert(views(r@) =~= default_allow_spec());
    }
    r
}

/// Whether an already lower-cased extension is one of the already
/// lower-cased allow-list entries.
pub fn is_listed(ext_lower: &String, allow_lower: &Vec<String>) -> (r: bool)
    ensures
        r == listed(ext_lower@, views(allow_lower@)),
{
    let mut i: usize = 0;
    while i < allow_lower.len()
        invariant
            i <= allow_lower@.len(),
            forall|j: int| 0 <= j < i ==> allow_lower@[j]@ != ext_lower@,
        decreases allow_lower@.len() - i,
    {
        if allow_lower[i] == *ext_lower {
            assert(views(allow_lower@)[i as int] == ext_lower@);
            return true;
        }
        i = i + 1;
    }
    assert forall|j: int| 0 <= j < views(allow_lower@).len() implies views(allow_lower@)[j]
        != ext_lower@ by {}
    false
}

/// The lower-case forms of every entry of `allow`, in order.
pub fn fold_all(allow: &Vec<String>) -> (r: Vec<String>)
    ensures
        views(r@) == folded(views(allow@)),
{
    let mut r: Vec<String> = Vec::new();
    let mut i: usize = 0;
    while i < allow.len()
        invariant
            i <= allow@.len(),
            r@.len() == i,
            forall|j: int| 0 <= j < i ==> r@[j]@ == lower_of(allow@[j]@),
        decreases allow@.len() - i,
    {
        r.push(lowercase(allow[i].as_str()));
        i = i + 1;
    }
    assert(views(r@) =~= folded(views(allow@)));
    r
}

/// Whether `ext` matches an entry of `allow`, ignoring case.
pub fn is_allowed_extension(ext: &str, allow: &Vec<String>) -> (r: bool)
    ensures
        r == allowed(ext@, views(allow@)),
{
    let ext_lower = lowercase(ext);
    let allow_lower = fold_all(allow);
    is_listed(&ext_lower, &allow_lower)
}

} // verus!
