//! The pacman / AUR package manager.
use vstd::prelude::*;

use crate::config::OsName;
use crate::errors::NoAurHelper;
use crate::filter::{contains_str, holds_str};
use crate::package_managers::PackageManager;

verus! {

/// The pacman package manager, with AUR packages installed through a helper.
#[derive(Debug, Clone, Copy, PartialEq, Eq, Structural)]
pub struct Pacman {}

impl Pacman {
    pub fn new() -> (r: Pacman)
        ensures
            r == (Pacman {}),
    {
        Pacman {}
    }
}

/// A package found in the local package database.
#[derive(Debug)]
pub struct PacmanPackage {
    pub name: String,
    pub version: String,
    /// Whether the package came from the AUR rather than a repository.
    pub aur: bool,
}

/// Options of a pacman batch.
#[derive(Debug)]
pub struct PacmanOptions {
    /// Packages installed with `pacman`.
    pub repo: Option<Vec<String>>,
    /// Additional arguments passed to `pacman`.
    pub pacman_args: Option<Vec<String>>,
    /// Packages installed with an AUR helper.
    pub aur: Option<Vec<String>>,
    /// Arguments passed to the AUR helper.
    pub aur_helper_args: Option<Vec<String>>,
    /// Force the use of this AUR helper.
    pub force_aur_helper: Option<String>,
}

/// Whether `installed` records a package called `name` from the given channel.
pub open spec fn installed_via(installed: Seq<PacmanPackage>, name: Seq<char>, aur: bool) -> bool {
    exists|i: int|
        0 <= i < installed.len() && (#[trigger] installed[i]).name@ == name && installed[i].aur == aur
}

/// The records of the local packages, given as name and version: a package
/// is marked as coming from the AUR exactly where `foreign` names it, the
/// packages that no repository provides.
pub fn record_installed(local: &Vec<(String, String)>, foreign: &Vec<String>) -> (r: Vec<
    PacmanPackage,
>)
    ensures
        r@.len() == local@.len(),
        forall|i: int|
            0 <= i < local@.len() ==> {
                &&& (#[trigger] r@[i]).name == local@[i].0
                &&& r@[i].version == local@[i].1
                &&& r@[i].aur == holds_str(foreign@, local@[i].0@)
            },
{
    let mut r: Vec<PacmanPackage> = Vec::new();
    let mut i: usize = 0;
    while i < local.len()
        invariant
            i <= local@.len(),
            r@.len() == i,
            forall|k: int|
                0 <= k < i ==> {
                    &&& (#[trigger] r@[k]).name == local@[k].0
                    &&& r@[k].version == local@[k].1
                    &&& r@[k].aur == holds_str(foreign@, local@[k].0@)
                },
        decreases local@.len() - i,
    {
        let (name, version) = &local[i];
        let aur = contains_str(foreign, name);
        r.push(PacmanPackage { name: name.clone(), version: version.clone(), aur });
        i += 1;
    }
    r
}

/// Whether no two records of `installed` share a name, as in a map by name.
pub open spec fn unique_names(installed: Seq<PacmanPackage>) -> bool {
    forall|i: int, j: int|
        0 <= i < installed.len() && 0 <= j < installed.len() && i != j ==> (#[trigger] installed[i]).name@
            != (#[trigger] installed[j]).name@
}

/// The channel of the package called `name`, looked up as in a map by name.
pub open spec fn channel_of(installed: Seq<PacmanPackage>, name: Seq<char>) -> Option<bool> {
    if exists|i: int| 0 <= i < installed.len() && (#[trigger] installed[i]).name@ == name {
        let i = choose|i: int| 0 <= i < installed.len() && (#[trigger] installed[i]).name@ == name;
        Some(installed[i].aur)
    } else {
        None
    }
}

/// With unique names, a package counts as installed from a channel exactly
/// where looking its name up gives that channel.
pub proof fn lemma_installed_via_lookup(installed: Seq<PacmanPackage>, name: Seq<char>, aur: bool)
    requires
        unique_names(installed),
    ensures
        installed_via(installed, name, aur) == (channel_of(installed, name) == Some(aur)),
{
    if installed_via(installed, name, aur) {
        let i = choose|i: int|
            0 <= i < installed.len() && (#[trigger] installed[i]).name@ == name && installed[i].aur
                == aur;
        let k = choose|k: int| 0 <= k < installed.len() && (#[trigger] installed[k]).name@ == name;
        assert(k == i);
    }
    if channel_of(installed, name) == Some(aur) {
        let k = choose|k: int| 0 <= k < installed.len() && (#[trigger] installed[k]).name@ == name;
        assert(installed[k].name@ == name && installed[k].aur == aur);
    }
}

/// The names of `names`, in order, that are not installed from the given channel.
pub open spec fn missing_via(installed: Seq<PacmanPackage>, names: Seq<String>, aur: bool) -> Seq<
    String,
> {
    names.filter(|p: String| !installed_via(installed, p@, aur))
}

/// A list of names, pruned of those installed from the given channel.
pub open spec fn prune(installed: Seq<PacmanPackage>, names: Option<Vec<String>>, aur: bool) -> Option<
    Seq<String>,
> {
    match names {
        Some(v) => Some(missing_via(installed, v@, aur)),
        None => None,
    }
}

/// The view of an optional list of names.
pub open spec fn names_of(names: Option<Vec<String>>) -> Option<Seq<String>> {
    match names {
        Some(v) => Some(v@),
        None => None,
    }
}

/// The number of names in an optional list.
pub open spec fn count_of(names: Option<Seq<String>>) -> nat {
    match names {
        Some(s) => s.len(),
        None => 0,
    }
}

/// Filtering a sequence a second time by the same predicate changes nothing.
pub proof fn lemma_filter_twice<A>(s: Seq<A>, pred: spec_fn(A) -> bool)
    ensures
        s.filter(pred).filter(pred) == s.filter(pred),
    decreases s.len(),
{
    reveal(Seq::filter);
    if s.len() > 0 {
        lemma_filter_twice(s.drop_last(), pred);
        let rest = s.drop_last().filter(pred);
        if pred(s.last()) {
            assert(rest.push(s.last()).drop_last() =~= rest);
        }
    }
}

/// Pruning is idempotent: pruning again, against the same installed
/// packages, what one pruning left yields the same options again.
pub proof fn lemma_filter_missing_idempotent(
    pacman: Pacman,
    installed: Seq<PacmanPackage>,
    desired: PacmanOptions,
    once: PacmanOptions,
    twice: PacmanOptions,
)
    requires
        pacman.spec_missing(installed, desired, once),
        pacman.spec_missing(installed, once, twice),
    ensures
        pacman.spec_missing(installed, desired, twice),
        names_of(twice.repo) == names_of(once.repo),
        names_of(twice.aur) == names_of(once.aur),
        names_of(twice.pacman_args) == names_of(once.pacman_args),
        names_of(twice.aur_helper_args) == names_of(once.aur_helper_args),
        twice.force_aur_helper == once.force_aur_helper,
        pacman.spec_count(twice) == pacman.spec_count(once),
{
    if let Some(v) = desired.repo {
        lemma_filter_twice(v@, |p: String| !installed_via(installed, p@, false));
    }
    if let Some(v) = desired.aur {
        lemma_filter_twice(v@, |p: String| !installed_via(installed, p@, true));
    }
}

/// Whether every package that `desired` names is installed from its channel.
pub open spec fn all_installed(installed: Seq<PacmanPackage>, desired: PacmanOptions) -> bool {
    &&& desired.repo matches Some(v) ==> forall|i: int|
        0 <= i < v@.len() ==> installed_via(installed, (#[trigger] v@[i])@, false)
    &&& desired.aur matches Some(v) ==> forall|i: int|
        0 <= i < v@.len() ==> installed_via(installed, (#[trigger] v@[i])@, true)
}

/// Pruning drops every name that is installed from its channel.
pub proof fn lemma_filter_all_installed<A>(s: Seq<A>, pred: spec_fn(A) -> bool)
    requires
        forall|i: int| 0 <= i < s.len() ==> !pred(#[trigger] s[i]),
    ensures
        s.filter(pred).len() == 0,
    decreases s.len(),
{
    reveal(Seq::filter);
    if s.len() > 0 {
        assert forall|i: int| 0 <= i < s.drop_last().len() implies !pred(
            #[trigger] s.drop_last()[i],
        ) by {
            assert(s.drop_last()[i] == s[i]);
        }
        lemma_filter_all_installed(s.drop_last(), pred);
        assert(!pred(s[s.len() - 1]));
    }
}

/// A copy of the list of strings.
pub fn copy_strings(v: &Vec<String>) -> (r: Vec<String>)
    ensures
        r@ == v@,
{
    let mut r: Vec<String> = Vec::new();
    let mut i: usize = 0;
    while i < v.len()
        invariant
            i <= v@.len(),
            r@ == v@.take(i as int),
        decreases v@.len() - i,
    {
        r.push(v[i].clone());
        assert(v@.take(i + 1) =~= v@.take(i as int).push(v@[i as int]));
        i += 1;
    }
    assert(v@.take(v@.len() as int) =~= v@);
    r
}

/// A copy of the optional list of strings.
pub fn copy_opt_strings(v: &Option<Vec<String>>) -> (r: Option<Vec<String>>)
    ensures
        names_of(r) == names_of(*v),
{
    match v {
        Some(v) => Some(copy_strings(v)),
        None => None,
    }
}

/// A copy of the optional string.
pub fn copy_opt_string(s: &Option<String>) -> (r: Option<String>)
    ensures
        r == *s,
{
    match s {
        Some(s) => Some(s.clone()),
        None => None,
    }
}

/// Whether `installed` records a package called `name` from the given channel.
pub fn is_installed_via(installed: &Vec<PacmanPackage>, name: &String, aur: bool) -> (r: bool)
    ensures
        r == installed_via(installed@, name@, aur),
{
    let mut i: usize = 0;
    while i < installed.len()
        invariant
            i <= installed@.len(),
            forall|k: int|
                0 <= k < i ==> !((#[trigger] installed@[k]).name@ == name@ && installed@[k].aur
                    == aur),
        decreases installed@.len() - i,
    {
        if installed[i].aur == aur && installed[i].name == *name {
            return true;
        }
        i += 1;
    }
    false
}

/// The names of `names`, in order, that are not installed from the given channel.
pub fn missing_names(installed: &Vec<PacmanPackage>, names: &Vec<String>, aur: bool) -> (r: Vec<
    String,
>)
    ensures
        r@ == missing_via(installed@, names@, aur),
{
    let ghost pred = |p: String| !installed_via(installed@, p@, aur);
    let mut r: Vec<String> = Vec::new();
    let mut i: usize = 0;
    while i < names.len()
        invariant
            i <= names@.len(),
            r@ == names@.take(i as int).filter(pred),
            pred == (|p: String| !installed_via(installed@, p@, aur)),
        decreases names@.len() - i,
    {
        proof {
            reveal(Seq::filter);
            assert(names@.take(i + 1).drop_last() =~= names@.take(i as int));
            assert(names@.take(i + 1).last() == names@[i as int]);
        }
        if !is_installed_via(installed, &names[i], aur) {
            r.push(names[i].clone());
        }
        i += 1;
    }
    assert(names@.take(names@.len() as int) =~= names@);
    r
}

/// The names of an optional list that are not installed from the given channel.
pub fn prune_names(installed: &Vec<PacmanPackage>, names: &Option<Vec<String>>, aur: bool) -> (r:
    Option<Vec<String>>)
    ensures
        names_of(r) == prune(installed@, *names, aur),
{
    match names {
        Some(v) => Some(missing_names(installed, v, aur)),
        None => None,
    }
}

/// The text of each string.
pub open spec fn views(xs: Seq<String>) -> Seq<Seq<char>> {
    xs.map_values(|x: String| x@)
}

/// The strings of an optional list, none where it is absent.
pub open spec fn or_empty(xs: Option<Vec<String>>) -> Seq<String> {
    match xs {
        Some(v) => v@,
        None => Seq::empty(),
    }
}

/// The command line that installs the repository packages of `options`:
/// `sudo pacman -S --needed`, the extra arguments, then the packages.
pub open spec fn repo_command(options: PacmanOptions) -> Seq<Seq<char>> {
    seq!["sudo"@, "pacman"@, "-S"@, "--needed"@] + views(or_empty(options.pacman_args)) + views(
        or_empty(options.repo),
    )
}

/// The command line that installs the AUR packages of `options` with
/// `helper`: the helper, `-S --needed`, the extra arguments, then the packages.
pub open spec fn aur_command(options: PacmanOptions, helper: Seq<char>) -> Seq<Seq<char>> {
    seq![helper, "-S"@, "--needed"@] + views(or_empty(options.aur_helper_args)) + views(
        or_empty(options.aur),
    )
}

/// Appends copies of the strings of `xs` to `out`.
fn push_all(out: &mut Vec<String>, xs: &Option<Vec<String>>)
    ensures
        final(out)@ == old(out)@ + or_empty(*xs),
{
    if let Some(xs) = xs {
        let ghost start = out@;
        let mut i: usize = 0;
        while i < xs.len()
            invariant
                i <= xs@.len(),
                out@ == start + xs@.take(i as int),
            decreases xs@.len() - i,
        {
            out.push(xs[i].clone());
            assert(xs@.take(i + 1) =~= xs@.take(i as int).push(xs@[i as int]));
            i += 1;
        }
        assert(xs@.take(xs@.len() as int) =~= xs@);
    } else {
        assert(old(out)@ + or_empty(*xs) =~= old(out)@);
    }
}

/// Whether an optional list holds at least one name.
pub open spec fn has_names(xs: Option<Vec<String>>) -> bool {
    xs matches Some(v) && v@.len() > 0
}

/// The command line that installs the repository packages, or `None` where
/// there are none to install.
pub fn repo_install_command(options: &PacmanOptions) -> (r: Option<Vec<String>>)
    ensures
        r is Some <==> has_names(options.repo),
        r matches Some(c) ==> views(c@) == repo_command(*options),
{
    match &options.repo {
        Some(repo) if repo.len() > 0 => {},
        _ => return None,
    }
    let mut c: Vec<String> = Vec::new();
    c.push("sudo".to_string());
    c.push("pacman".to_string());
    c.push("-S".to_string());
    c.push("--needed".to_string());
    let ghost head = c@;
    push_all(&mut c, &options.pacman_args);
    push_all(&mut c, &options.repo);
    proof {
        assert(views(head) =~= seq!["sudo"@, "pacman"@, "-S"@, "--needed"@]);
        assert(views(c@) =~= views(head) + views(or_empty(options.pacman_args)) + views(
            or_empty(options.repo),
        ));
    }
    Some(c)
}

/// The command line that installs the AUR packages with `helper`, or `None`
/// where there are none to install.
pub fn aur_install_command(options: &PacmanOptions, helper: &String) -> (r: Option<Vec<String>>)
    ensures
        r is Some <==> has_names(options.aur),
        r matches Some(c) ==> views(c@) == aur_command(*options, helper@),
{
    match &options.aur {
        Some(aur) if aur.len() > 0 => {},
        _ => return None,
    }
    let mut c: Vec<String> = Vec::new();
    c.push(helper.clone());
    c.push("-S".to_string());
    c.push("--needed".to_string());
    let ghost head = c@;
    push_all(&mut c, &options.aur_helper_args);
    push_all(&mut c, &options.aur);
    proof {
        assert(views(head) =~= seq![helper@, "-S"@, "--needed"@]);
        assert(views(c@) =~= views(head) + views(or_empty(options.aur_helper_args)) + views(
            or_empty(options.aur),
        ));
    }
    Some(c)
}

/// The AUR helpers looked for, most preferred first.
pub open spec fn aur_helpers() -> Seq<Seq<char>> {
    seq!["paru"@, "yay"@, "pikaur"@, "aura"@, "trizen"@]
}

/// The AUR helpers looked for on the host, most preferred first.
pub fn aur_helper_candidates() -> (r: Vec<String>)
    ensures
        views(r@) == aur_helpers(),
{
    let mut r: Vec<String> = Vec::new();
    r.push("paru".to_string());
    r.push("yay".to_string());
    r.push("pikaur".to_string());
    r.push("aura".to_string());
    r.push("trizen".to_string());
    assert(views(r@) =~= aur_helpers());
    r
}

/// Chooses the AUR helper: the forced one if any, else the first of
/// `aur_helper_candidates()` whose entry in `present` is true.
pub fn select_aur_helper(forced: &Option<String>, present: &Vec<bool>) -> (r: Result<
    String,
    NoAurHelper,
>)
    ensures
        forced.is_some() ==> r == Ok::<String, NoAurHelper>(forced.unwrap()),
        r matches Ok(h) ==> forced is Some || exists|i: int|
            0 <= i < present@.len() && i < aur_helpers().len() && present@[i] && h@
                == aur_helpers()[i] && forall|k: int| 0 <= k < i ==> !present@[k],
        r is Err <==> forced.is_none() && forall|i: int|
            0 <= i < present@.len() && i < aur_helpers().len() ==> !present@[i],
{
    if let Some(h) = forced {
        return Ok(h.clone());
    }
    let candidates = aur_helper_candidates();
    let mut i: usize = 0;
    while i < present.len() && i < candidates.len()
        invariant
            i <= present@.len(),
            forced is None,
            views(candidates@) == aur_helpers(),
            candidates@.len() == aur_helpers().len(),
            forall|k: int| 0 <= k < i ==> !present@[k],
        decreases present@.len() - i,
    {
        if present[i] {
            assert(candidates@[i as int]@ == views(candidates@)[i as int]);
            return Ok(candidates[i].clone());
        }
        i += 1;
    }
    Err(NoAurHelper)
}

impl PackageManager for Pacman {
    type Options = PacmanOptions;

    type Package = PacmanPackage;

    open spec fn spec_name(&self) -> Seq<char> {
        "pacman"@
    }

    fn name(&self) -> (r: &'static str) {
        "pacman"
    }

    open spec fn spec_supports(&self, os: OsName) -> bool {
        os == OsName::Linux
    }

    fn supports(&self, os: OsName) -> (r: bool) {
        os == OsName::Linux
    }

    /// Repository packages count as installed only from a repository, AUR
    /// packages only from the AUR; the other options are kept.
    open spec fn spec_missing(
        &self,
        installed: Seq<PacmanPackage>,
        desired: PacmanOptions,
        pruned: PacmanOptions,
    ) -> bool {
        &&& names_of(pruned.repo) == prune(installed, desired.repo, false)
        &&& names_of(pruned.aur) == prune(installed, desired.aur, true)
        &&& names_of(pruned.pacman_args) == names_of(desired.pacman_args)
        &&& names_of(pruned.aur_helper_args) == names_of(desired.aur_helper_args)
        &&& pruned.force_aur_helper == desired.force_aur_helper
    }

    open spec fn spec_count(&self, options: PacmanOptions) -> nat {
        count_of(names_of(options.repo)) + count_of(names_of(options.aur))
    }

    open spec fn spec_missing_count(&self, installed: Seq<PacmanPackage>, desired: PacmanOptions) -> nat {
        count_of(prune(installed, desired.repo, false)) + count_of(prune(installed, desired.aur, true))
    }

    open spec fn all_installed(&self, installed: Seq<PacmanPackage>, desired: PacmanOptions) -> bool {
        all_installed(installed, desired)
    }

    proof fn lemma_all_installed_none_missing(
        &self,
        installed: Seq<PacmanPackage>,
        desired: PacmanOptions,
    ) {
        if let Some(v) = desired.repo {
            lemma_filter_all_installed(v@, |p: String| !installed_via(installed, p@, false));
        }
        if let Some(v) = desired.aur {
            lemma_filter_all_installed(v@, |p: String| !installed_via(installed, p@, true));
        }
    }

    open spec fn within_limits(&self, desired: PacmanOptions) -> bool {
        count_of(names_of(desired.repo)) + count_of(names_of(desired.aur)) <= usize::MAX
    }

    fn filter_missing(&self, installed: &Vec<PacmanPackage>, desired: &PacmanOptions) -> (r: (
        PacmanOptions,
        usize,
    )) {
        let repo = prune_names(installed, &desired.repo, false);
        let aur = prune_names(installed, &desired.aur, true);
        proof {
            if let Some(v) = &desired.repo {
                v@.lemma_filter_len(|p: String| !installed_via(installed@, p@, false));
            }
            if let Some(v) = &desired.aur {
                v@.lemma_filter_len(|p: String| !installed_via(installed@, p@, true));
            }
        }
        let repo_count: usize = match &repo {
            Some(v) => v.len(),
            None => 0,
        };
        let aur_count: usize = match &aur {
            Some(v) => v.len(),
            None => 0,
        };
        let pruned = PacmanOptions {
            repo,
            pacman_args: copy_opt_strings(&desired.pacman_args),
            aur,
            aur_helper_args: copy_opt_strings(&desired.aur_helper_args),
            force_aur_helper: copy_opt_string(&desired.force_aur_helper),
        };
        (pruned, repo_count + aur_count)
    }
}

} // verus!
