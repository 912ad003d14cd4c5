//! The package manager contract and the dispatch over the known managers.
pub mod pacman;

use vstd::prelude::*;

use crate::config::OsName;
use crate::errors::UnsupportedPlatform;
use crate::package_managers::pacman::{Pacman, PacmanOptions};

verus! {

/// What a package manager offers to reconcile a batch against the host.
///
/// Querying what is installed and installing are done by the caller; this
/// contract holds what decides between them.
pub trait PackageManager {
    /// Options of one batch for this manager.
    type Options;

    /// A record of an installed package.
    type Package;

    spec fn spec_name(&self) -> Seq<char>;

    /// Name of the manager, as reported to the user.
    fn name(&self) -> (r: &'static str)
        ensures
            r@ == self.spec_name(),
    ;

    spec fn spec_supports(&self, os: OsName) -> bool;

    /// Whether the manager can work on hosts of this family.
    fn supports(&self, os: OsName) -> (r: bool)
        ensures
            r == self.spec_supports(os),
    ;

    /// Whether `pruned` is what is left of `desired` once what `installed`
    /// already satisfies is taken out.
    spec fn spec_missing(
        &self,
        installed: Seq<Self::Package>,
        desired: Self::Options,
        pruned: Self::Options,
    ) -> bool;

    /// The number of packages that `options` asks for.
    spec fn spec_count(&self, options: Self::Options) -> nat;

    /// The number of packages of `desired` that `installed` does not satisfy.
    spec fn spec_missing_count(&self, installed: Seq<Self::Package>, desired: Self::Options) -> nat;

    /// Whether `installed` satisfies every package that `desired` names.
    spec fn all_installed(&self, installed: Seq<Self::Package>, desired: Self::Options) -> bool;

    /// Where everything desired is installed, nothing is missing.
    proof fn lemma_all_installed_none_missing(
        &self,
        installed: Seq<Self::Package>,
        desired: Self::Options,
    )
        requires
            self.all_installed(installed, desired),
        ensures
            self.spec_missing_count(installed, desired) == 0,
    ;

    /// Whether the packages of `desired` can be counted in a `usize`.
    spec fn within_limits(&self, desired: Self::Options) -> bool;

    /// The part of `desired` that `installed` does not satisfy, and the number
    /// of packages in it.
    fn filter_missing(&self, installed: &Vec<Self::Package>, desired: &Self::Options) -> (r: (
        Self::Options,
        usize,
    ))
        requires
            self.within_limits(*desired),
        ensures
            self.spec_missing(installed@, *desired, r.0),
            r.1 as nat == self.spec_count(r.0),
            r.1 as nat == self.spec_missing_count(installed@, *desired),
    ;
}

/// Outcome of reconciling one batch against the installed packages.
#[derive(Debug)]
pub enum Reconcile<O> {
    /// Everything is installed already: nothing is to be done.
    NothingMissing,
    /// These options name what is still to be installed, `count` packages.
    Install { missing: O, count: usize },
}

/// Fails with the manager's name where it does not support the host's family.
pub fn check_supported<M: PackageManager>(manager: &M, os: OsName) -> (r: Result<
    (),
    UnsupportedPlatform,
>)
    ensures
        r is Ok <==> manager.spec_supports(os),
        r matches Err(e) ==> e.manager@ == manager.spec_name(),
{
    if manager.supports(os) {
        Ok(())
    } else {
        Err(UnsupportedPlatform { manager: manager.name() })
    }
}

/// Decides what installing the missing part of `desired` takes, given the
/// installed packages: nothing where all is installed, else the pruned options.
pub fn reconcile<M: PackageManager>(
    manager: &M,
    installed: &Vec<M::Package>,
    desired: &M::Options,
) -> (r: Reconcile<M::Options>)
    requires
        manager.within_limits(*desired),
    ensures
        r matches Reconcile::Install { missing, count } ==> {
            &&& manager.spec_missing(installed@, *desired, missing)
            &&& count as nat == manager.spec_count(missing)
            &&& count > 0
        },
        r is NothingMissing <==> manager.spec_missing_count(installed@, *desired) == 0,
{
    let (missing, count) = manager.filter_missing(installed, desired);
    if count == 0 {
        Reconcile::NothingMissing
    } else {
        Reconcile::Install { missing, count }
    }
}

/// Reconciling a batch that the installed packages fully satisfy installs
/// nothing: the missing count is zero, so `reconcile` answers `NothingMissing`.
pub proof fn lemma_satisfied_installs_nothing<M: PackageManager>(
    manager: M,
    installed: Seq<M::Package>,
    desired: M::Options,
)
    requires
        manager.all_installed(installed, desired),
    ensures
        manager.spec_missing_count(installed, desired) == 0,
{
    manager.lemma_all_installed_none_missing(installed, desired);
}

/// The managers a batch can be dispatched to.
#[derive(Debug, Clone, Copy, PartialEq, Eq, Structural)]
pub enum PackageManagerName {
    Pacman,
}

/// One batch: the manager it targets with that manager's options.
#[derive(Debug)]
pub enum PackageManagerConfig {
    Pacman(PacmanOptions),
}

impl PackageManagerConfig {
    pub open spec fn spec_manager(&self) -> PackageManagerName {
        match self {
            PackageManagerConfig::Pacman(_) => PackageManagerName::Pacman,
        }
    }

    /// The manager the batch targets.
    pub fn manager(&self) -> (r: PackageManagerName)
        ensures
            r == self.spec_manager(),
    {
        match self {
            PackageManagerConfig::Pacman(_) => PackageManagerName::Pacman,
        }
    }
}

/// One instance of each known manager.
#[derive(Debug, Clone, Copy, PartialEq, Eq, Structural)]
pub struct PackageManagers {
    pub pacman: Pacman,
}

impl PackageManagers {
    pub fn new() -> (r: PackageManagers)
        ensures
            r.pacman == (Pacman {}),
    {
        PackageManagers { pacman: Pacman::new() }
    }
}

} // verus!
