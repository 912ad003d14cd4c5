//! Facts about the host, and the evaluation of conditions against them.
use vstd::prelude::*;

use crate::args::GlobalArgs;
use crate::config::{os_named, Condition, Config, Group, OsName, OsType};
use crate::version::{is_semver, req_matches, Version};

verus! {

/// Facts about the host, read once per run.
#[derive(Debug)]
pub struct SystemInfo {
    pub os: OsName,
    /// Distribution identifier; empty off Linux.
    pub distro: String,
    /// Host version, where it could be read as a semantic version.
    pub version: Option<Version>,
    /// Distribution families the host declares itself like.
    pub distro_like: Vec<String>,
}

/// The host facts, from the name of the OS family (`windows`, `macos`,
/// `linux`), the distribution's `ID` and `ID_LIKE` entries, and the OS
/// version text. `None` where the family is none of the three; a version text
/// that is no semantic version leaves the version unknown. Off Linux the
/// distribution identifier is empty, whatever was given.
pub fn system_info_from(
    os_name: &str,
    distro: String,
    distro_like: Vec<String>,
    os_version: Option<String>,
) -> (r: Option<SystemInfo>)
    ensures
        r is Some <==> os_named(os_name@) is Some,
        r matches Some(info) ==> {
            &&& Some(info.os) == os_named(os_name@)
            &&& info.distro@ == (if info.os == OsName::Linux {
                distro@
            } else {
                Seq::<char>::empty()
            })
            &&& info.distro_like == distro_like
            &&& match os_version {
                Some(text) => match info.version {
                    Some(v) => is_semver(text@) && v@ == text@,
                    None => !is_semver(text@),
                },
                None => info.version is None,
            }
        },
{
    let os = match OsName::from_name(os_name) {
        Some(os) => os,
        None => return None,
    };
    let distro = if os == OsName::Linux {
        distro
    } else {
        String::new()
    };
    let version = match os_version {
        Some(text) => Version::parse(text.as_str()),
        None => None,
    };
    Some(SystemInfo { os, distro, version, distro_like })
}

/// Whether some string of `xs` reads `x`.
pub open spec fn holds_str(xs: Seq<String>, x: Seq<char>) -> bool {
    exists|i: int| 0 <= i < xs.len() && (#[trigger] xs[i])@ == x
}

/// Whether some string reads the same in both lists.
pub open spec fn share_str(xs: Seq<String>, ys: Seq<String>) -> bool {
    exists|i: int, j: int|
        0 <= i < xs.len() && 0 <= j < ys.len() && (#[trigger] xs[i])@ == (#[trigger] ys[j])@
}

/// Whether one operating system constraint admits the host.
pub open spec fn os_admits(system: SystemInfo, os: OsType) -> bool {
    &&& os.spec_name() == system.os
    &&& match os {
        OsType::Windows => true,
        OsType::MacOS { version } => match version {
            None => true,
            Some(req) => match system.version {
                Some(v) => req_matches(req@, v@),
                None => false,
            },
        },
        OsType::Linux { distro, distro_like } => {
            ||| (distro is None && distro_like is None)
            ||| (distro matches Some(d) && holds_str(d@, system.distro@))
            ||| (distro_like matches Some(dl) && share_str(dl@, system.distro_like@))
        },
    }
}

/// Whether a condition holds on the host, given the requested labels.
///
/// A label decides alone: it holds where it is requested, or where nothing
/// is requested and the condition is a default one. Without a label, a
/// non-empty list of OS constraints must admit the host through one of them.
pub open spec fn condition_holds(system: SystemInfo, c: Condition, labels: Seq<String>) -> bool {
    match c.label {
        Some(label) => (labels.len() == 0 && c.default == Some(true)) || holds_str(labels, label@),
        None => match c.os {
            Some(list) => list.len() == 0 || exists|i: int|
                0 <= i < list.len() && os_admits(system, #[trigger] list@[i]),
            None => true,
        },
    }
}

/// Whether every condition a group names holds, wherever the name is declared.
/// Names declared nowhere do not restrict the group.
pub open spec fn group_selected(
    conditions: Seq<(String, Condition)>,
    group: Group,
    system: SystemInfo,
    labels: Seq<String>,
) -> bool {
    forall|j: int, i: int|
        0 <= j < group.conditions.len() && 0 <= i < conditions.len() && (#[trigger] conditions[i]).0@
            == (#[trigger] group.conditions@[j])@ ==> condition_holds(system, conditions[i].1, labels)
}

/// A condition that sets no label, no OS, no architecture and no hostname
/// pattern holds on every host, whatever labels are requested.
pub proof fn lemma_unconstrained_condition_holds(
    system: SystemInfo,
    c: Condition,
    labels: Seq<String>,
)
    requires
        c.label is None,
        c.os is None,
        c.architecture is None,
        c.hostname_pattern is None,
    ensures
        condition_holds(system, c, labels),
{
}

/// A labelled default condition holds when no label is requested, holds when
/// its label is requested, and fails when other labels only are requested;
/// the host does not matter.
pub proof fn lemma_default_label(system: SystemInfo, c: Condition, labels: Seq<String>)
    requires
        c.label is Some,
        c.default == Some(true),
    ensures
        labels.len() == 0 ==> condition_holds(system, c, labels),
        holds_str(labels, c.label.unwrap()@) ==> condition_holds(system, c, labels),
        labels.len() > 0 && !holds_str(labels, c.label.unwrap()@) ==> !condition_holds(
            system,
            c,
            labels,
        ),
{
}

/// Whether no two conditions share a name, as in a map by name.
pub open spec fn unique_keys(conditions: Seq<(String, Condition)>) -> bool {
    forall|i: int, j: int|
        0 <= i < conditions.len() && 0 <= j < conditions.len() && i != j ==> (#[trigger] conditions[i]).0@
            != (#[trigger] conditions[j]).0@
}

/// The condition called `name`, looked up as in a map by name.
pub open spec fn condition_named(conditions: Seq<(String, Condition)>, name: Seq<char>) -> Option<
    Condition,
> {
    if exists|i: int| 0 <= i < conditions.len() && (#[trigger] conditions[i]).0@ == name {
        let i = choose|i: int| 0 <= i < conditions.len() && (#[trigger] conditions[i]).0@ == name;
        Some(conditions[i].1)
    } else {
        None
    }
}

/// Whether every name of the group looks up to a condition that holds, or
/// to none.
pub open spec fn group_selected_by_lookup(
    conditions: Seq<(String, Condition)>,
    group: Group,
    system: SystemInfo,
    labels: Seq<String>,
) -> bool {
    forall|j: int|
        0 <= j < group.conditions.len() ==> match condition_named(
            conditions,
            (#[trigger] group.conditions@[j])@,
        ) {
            Some(c) => condition_holds(system, c, labels),
            None => true,
        }
}

/// With unique condition names, selecting a group agrees with looking each
/// of its condition names up as in a map, names declared nowhere being
/// satisfied.
pub proof fn lemma_group_selected_lookup(
    conditions: Seq<(String, Condition)>,
    group: Group,
    system: SystemInfo,
    labels: Seq<String>,
)
    requires
        unique_keys(conditions),
    ensures
        group_selected(conditions, group, system, labels) == group_selected_by_lookup(
            conditions,
            group,
            system,
            labels,
        ),
{
    if group_selected(conditions, group, system, labels) {
        assert forall|j: int| 0 <= j < group.conditions.len() implies match condition_named(
            conditions,
            (#[trigger] group.conditions@[j])@,
        ) {
            Some(c) => condition_holds(system, c, labels),
            None => true,
        } by {
            let name = group.conditions@[j]@;
            if exists|i: int| 0 <= i < conditions.len() && (#[trigger] conditions[i]).0@ == name {
                let i = choose|i: int|
                    0 <= i < conditions.len() && (#[trigger] conditions[i]).0@ == name;
                assert(condition_holds(system, conditions[i].1, labels));
            }
        }
    }
    if group_selected_by_lookup(conditions, group, system, labels) {
        assert forall|j: int, i: int|
            0 <= j < group.conditions.len() && 0 <= i < conditions.len() && (#[trigger] conditions[i]).0@
                == (#[trigger] group.conditions@[j])@ implies condition_holds(
            system,
            conditions[i].1,
            labels,
        ) by {
            let name = group.conditions@[j]@;
            let k = choose|k: int| 0 <= k < conditions.len() && (#[trigger] conditions[k]).0@ == name;
            assert(k == i);
        }
    }
}

/// Whether `xs` holds a string equal to `x`.
pub fn contains_str(xs: &Vec<String>, x: &String) -> (r: bool)
    ensures
        r == holds_str(xs@, x@),
{
    let mut i: usize = 0;
    while i < xs.len()
        invariant
            i <= xs@.len(),
            forall|k: int| 0 <= k < i ==> (#[trigger] xs@[k])@ != x@,
        decreases xs@.len() - i,
    {
        if xs[i] == *x {
            return true;
        }
        i += 1;
    }
    false
}

/// Whether the two lists share a string.
pub fn lists_overlap(xs: &Vec<String>, ys: &Vec<String>) -> (r: bool)
    ensures
        r == share_str(xs@, ys@),
{
    let mut i: usize = 0;
    while i < xs.len()
        invariant
            i <= xs@.len(),
            forall|k: int| 0 <= k < i ==> !holds_str(ys@, (#[trigger] xs@[k])@),
        decreases xs@.len() - i,
    {
        if contains_str(ys, &xs[i]) {
            return true;
        }
        i += 1;
    }
    proof {
        if share_str(xs@, ys@) {
            let (a, b) = choose|a: int, b: int|
                0 <= a < xs.len() && 0 <= b < ys.len() && (#[trigger] xs@[a])@ == (#[trigger] ys@[b])@;
            assert(holds_str(ys@, xs@[a]@));
        }
    }
    false
}

/// Whether one operating system constraint admits the host.
pub fn os_matches(system: &SystemInfo, os: &OsType) -> (r: bool)
    ensures
        r == os_admits(*system, *os),
{
    if os.name() != system.os {
        return false;
    }
    match os {
        OsType::Windows => true,
        OsType::MacOS { version } => match version {
            None => true,
            Some(req) => match &system.version {
                Some(v) => req.matches(v),
                None => false,
            },
        },
        OsType::Linux { distro, distro_like } => {
            if distro.is_none() && distro_like.is_none() {
                return true;
            }
            let distro_matches = match distro {
                Some(d) => contains_str(d, &system.distro),
                None => false,
            };
            let distro_like_matches = match distro_like {
                Some(dl) => lists_overlap(dl, &system.distro_like),
                None => false,
            };
            distro_matches || distro_like_matches
        },
    }
}

/// Whether `condition` holds on the host for the labels requested in `global_args`.
pub fn check_condition(system: &SystemInfo, condition: &Condition, global_args: &GlobalArgs) -> (r:
    bool)
    ensures
        r == condition_holds(*system, *condition, global_args.labels@),
{
    if let Some(label) = &condition.label {
        if global_args.labels.len() == 0 && condition.default == Some(true) {
            return true;
        }
        return contains_str(&global_args.labels, label);
    }
    if let Some(list) = &condition.os {
        if list.len() == 0 {
            return true;
        }
        let mut i: usize = 0;
        while i < list.len()
            invariant
                i <= list@.len(),
                condition.label is None,
                condition.os == Some(*list),
                forall|k: int| 0 <= k < i ==> !os_admits(*system, #[trigger] list@[k]),
            decreases list@.len() - i,
        {
            if os_matches(system, &list[i]) {
                assert(os_admits(*system, list@[i as int]));
                return true;
            }
            i += 1;
        }
        return false;
    }
    true
}

/// Whether every condition that `group` names holds on the host.
pub fn group_applies(
    conditions: &Vec<(String, Condition)>,
    group: &Group,
    system: &SystemInfo,
    global_args: &GlobalArgs,
) -> (r: bool)
    ensures
        r == group_selected(conditions@, *group, *system, global_args.labels@),
{
    let mut j: usize = 0;
    while j < group.conditions.len()
        invariant
            j <= group.conditions@.len(),
            forall|jj: int, i: int|
                0 <= jj < j && 0 <= i < conditions@.len() && (#[trigger] conditions@[i]).0@
                    == (#[trigger] group.conditions@[jj])@ ==> condition_holds(
                    *system,
                    conditions@[i].1,
                    global_args.labels@,
                ),
        decreases group.conditions@.len() - j,
    {
        let mut i: usize = 0;
        while i < conditions.len()
            invariant
                j < group.conditions@.len(),
                i <= conditions@.len(),
                forall|jj: int, ii: int|
                    0 <= jj < j && 0 <= ii < conditions@.len() && (#[trigger] conditions@[ii]).0@
                        == (#[trigger] group.conditions@[jj])@ ==> condition_holds(
                        *system,
                        conditions@[ii].1,
                        global_args.labels@,
                    ),
                forall|ii: int|
                    0 <= ii < i && (#[trigger] conditions@[ii]).0@ == group.conditions@[j as int]@
                        ==> condition_holds(*system, conditions@[ii].1, global_args.labels@),
            decreases conditions@.len() - i,
        {
            let (name, condition) = &conditions[i];
            if *name == group.conditions[j] && !check_condition(system, condition, global_args) {
                return false;
            }
            i += 1;
        }
        j += 1;
    }
    true
}

/// The groups of `config` whose conditions all hold on the host, in the
/// order they are declared.
pub fn select_groups(config: Config, system: &SystemInfo, global_args: &GlobalArgs) -> (r: Vec<
    Group,
>)
    ensures
        r@ == config.groups@.filter(
            |g: Group| group_selected(config.conditions@, g, *system, global_args.labels@),
        ),
{
    let ghost pred = |g: Group| group_selected(config.conditions@, g, *system, global_args.labels@);
    let Config { conditions, mut groups } = config;
    let ghost all = groups@;
    let mut selected: Vec<Group> = Vec::new();
    while groups.len() > 0
        invariant
            groups@.len() <= all.len(),
            groups@ == all.skip(all.len() - groups@.len()),
            selected@ == all.take(all.len() - groups@.len()).filter(pred),
            pred == (|g: Group| group_selected(conditions@, g, *system, global_args.labels@)),
        decreases groups@.len(),
    {
        let ghost k = all.len() - groups@.len();
        let group = groups.remove(0);
        proof {
            reveal(Seq::filter);
            assert(all.take(k + 1).drop_last() =~= all.take(k));
            assert(all.take(k + 1).last() == group);
            assert(groups@ =~= all.skip(k + 1));
        }
        if group_applies(&conditions, &group, system, global_args) {
            selected.push(group);
        }
    }
    proof {
        assert(all.take(all.len() as int) =~= all);
    }
    selected
}

} // verus!
