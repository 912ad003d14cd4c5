use dotget::args::GlobalArgs;
use dotget::config::{Condition, Config, Group, OsName, OsType};
use dotget::errors::NoAurHelper;
use dotget::filter::{group_applies, select_groups, SystemInfo};
use dotget::package_managers::pacman::{
    aur_helper_candidates, aur_install_command, record_installed, repo_install_command,
    select_aur_helper, Pacman,
    PacmanOptions, PacmanPackage,
};
use dotget::package_managers::{
    check_supported, reconcile, PackageManager, PackageManagerConfig, PackageManagerName,
    PackageManagers, Reconcile,
};

fn strings(xs: &[&str]) -> Vec<String> {
    xs.iter().map(|x| x.to_string()).collect()
}

fn package(name: &str, aur: bool) -> PacmanPackage {
    PacmanPackage {
        name: name.to_string(),
        version: "1.0.0-1".to_string(),
        aur,
    }
}

fn options(repo: Option<&[&str]>, aur: Option<&[&str]>) -> PacmanOptions {
    PacmanOptions {
        repo: repo.map(strings),
        pacman_args: None,
        aur: aur.map(strings),
        aur_helper_args: None,
        force_aur_helper: None,
    }
}

fn linux_host(distro: &str) -> SystemInfo {
    SystemInfo {
        os: OsName::Linux,
        distro: distro.to_string(),
        version: None,
        distro_like: vec![],
    }
}

fn no_labels() -> GlobalArgs {
    GlobalArgs {
        file: "dotget.yaml".to_string(),
        labels: vec![],
    }
}

fn arch_config() -> Config {
    let condition = Condition {
        label: None,
        default: None,
        os: Some(vec![OsType::Linux {
            distro: Some(strings(&["arch"])),
            distro_like: None,
        }]),
        architecture: None,
        hostname_pattern: None,
    };
    Config {
        conditions: vec![("linux-arch".to_string(), condition)],
        groups: vec![Group {
            name: Some("editors".to_string()),
            conditions: strings(&["linux-arch"]),
            packages: vec![PackageManagerConfig::Pacman(options(Some(&["git", "neovim"]), None))],
        }],
    }
}

#[test]
fn filter_missing_respects_provenance() {
    let installed = vec![package("git", false), package("yay", true), package("paru", false)];
    let desired = options(Some(&["git", "yay", "vim"]), Some(&["yay", "paru", "spotify"]));
    let (missing, count) = Pacman {}.filter_missing(&installed, &desired);
    assert_eq!(missing.repo, Some(strings(&["yay", "vim"])));
    assert_eq!(missing.aur, Some(strings(&["paru", "spotify"])));
    assert_eq!(count, 4);
}

#[test]
fn filter_missing_keeps_other_options() {
    let desired = PacmanOptions {
        repo: None,
        pacman_args: Some(strings(&["--noconfirm"])),
        aur: Some(strings(&["spotify"])),
        aur_helper_args: Some(strings(&["--batchinstall"])),
        force_aur_helper: Some("yay".to_string()),
    };
    let (missing, count) = Pacman {}.filter_missing(&vec![], &desired);
    assert_eq!(missing.repo, None);
    assert_eq!(missing.pacman_args, Some(strings(&["--noconfirm"])));
    assert_eq!(missing.aur, Some(strings(&["spotify"])));
    assert_eq!(missing.aur_helper_args, Some(strings(&["--batchinstall"])));
    assert_eq!(missing.force_aur_helper, Some("yay".to_string()));
    assert_eq!(count, 1);
}

#[test]
fn filter_missing_is_idempotent() {
    let installed = vec![package("git", false), package("yay", true)];
    let desired = options(Some(&["git", "vim", "yay"]), Some(&["yay", "paru"]));
    let (once, count_once) = Pacman {}.filter_missing(&installed, &desired);
    let (twice, count_twice) = Pacman {}.filter_missing(&installed, &once);
    assert_eq!(once.repo, twice.repo);
    assert_eq!(once.aur, twice.aur);
    assert_eq!(count_once, count_twice);
    assert_eq!(count_twice, 3);
}

#[test]
fn satisfied_configuration_installs_nothing() {
    let installed = vec![package("git", false), package("yay", true)];
    let desired = options(Some(&["git"]), Some(&["yay"]));
    let (_, count) = Pacman {}.filter_missing(&installed, &desired);
    assert_eq!(count, 0);
    assert!(matches!(reconcile(&Pacman {}, &installed, &desired), Reconcile::NothingMissing));
    let empty = options(None, Some(&[]));
    assert!(matches!(reconcile(&Pacman {}, &installed, &empty), Reconcile::NothingMissing));
}

#[test]
fn arch_group_installs_only_what_is_missing() {
    let system = linux_host("arch");
    let mut selected = select_groups(arch_config(), &system, &no_labels());
    assert_eq!(selected.len(), 1);
    let group = selected.remove(0);
    assert_eq!(group.display_name(), "editors");
    let installed = vec![package("git", false)];
    let batch = match &group.packages[0] {
        PackageManagerConfig::Pacman(o) => o,
    };
    let (missing, count) = Pacman {}.filter_missing(&installed, batch);
    assert_eq!(missing.repo, Some(strings(&["neovim"])));
    assert_eq!(count, 1);
    assert!(check_supported(&Pacman {}, system.os).is_ok());
    match reconcile(&Pacman {}, &installed, batch) {
        Reconcile::Install { missing, count } => {
            assert_eq!(count, 1);
            assert_eq!(
                repo_install_command(&missing),
                Some(strings(&["sudo", "pacman", "-S", "--needed", "neovim"]))
            );
            assert_eq!(aur_install_command(&missing, &"paru".to_string()), None);
        }
        Reconcile::NothingMissing => panic!("neovim is missing"),
    }
}

#[test]
fn fedora_host_excludes_arch_group() {
    let selected = select_groups(arch_config(), &linux_host("fedora"), &no_labels());
    assert!(selected.is_empty());
}

#[test]
fn unknown_condition_names_do_not_restrict() {
    let config = arch_config();
    let group = Group {
        name: None,
        conditions: strings(&["nowhere-declared"]),
        packages: vec![],
    };
    assert!(group_applies(&config.conditions, &group, &linux_host("fedora"), &no_labels()));
    assert!(!group_applies(&config.conditions, &config.groups[0], &linux_host("fedora"), &no_labels()));
    assert_eq!(group.display_name(), "untitled");
}

#[test]
fn selection_keeps_declaration_order() {
    let mut config = arch_config();
    config.groups.push(Group {
        name: Some("always".to_string()),
        conditions: vec![],
        packages: vec![],
    });
    config.groups.insert(
        0,
        Group {
            name: Some("first".to_string()),
            conditions: vec![],
            packages: vec![],
        },
    );
    let names: Vec<String> = select_groups(config, &linux_host("arch"), &no_labels())
        .iter()
        .map(|g| g.display_name())
        .collect();
    assert_eq!(names, strings(&["first", "editors", "always"]));
}

#[test]
fn pacman_supports_linux_only() {
    assert!(check_supported(&Pacman {}, OsName::Linux).is_ok());
    let err = check_supported(&Pacman {}, OsName::MacOS).unwrap_err();
    assert_eq!(err.manager, "pacman");
    assert!(check_supported(&Pacman {}, OsName::Windows).is_err());
    assert_eq!(Pacman {}.name(), "pacman");
    let managers = PackageManagers::new();
    assert_eq!(managers.pacman, Pacman::new());
    let batch = PackageManagerConfig::Pacman(options(None, None));
    assert_eq!(batch.manager(), PackageManagerName::Pacman);
}

#[test]
fn install_commands_carry_extra_arguments() {
    let o = PacmanOptions {
        repo: Some(strings(&["git"])),
        pacman_args: Some(strings(&["--noconfirm"])),
        aur: Some(strings(&["spotify", "slack-desktop"])),
        aur_helper_args: Some(strings(&["--batchinstall"])),
        force_aur_helper: None,
    };
    assert_eq!(
        repo_install_command(&o),
        Some(strings(&["sudo", "pacman", "-S", "--needed", "--noconfirm", "git"]))
    );
    assert_eq!(
        aur_install_command(&o, &"yay".to_string()),
        Some(strings(&["yay", "-S", "--needed", "--batchinstall", "spotify", "slack-desktop"]))
    );
    assert_eq!(repo_install_command(&options(Some(&[]), None)), None);
    assert_eq!(repo_install_command(&options(None, None)), None);
}

#[test]
fn aur_helper_selection() {
    let candidates = aur_helper_candidates();
    assert_eq!(candidates, strings(&["paru", "yay", "pikaur", "aura", "trizen"]));
    assert_eq!(select_aur_helper(&Some("trizen".to_string()), &vec![true; 5]), Ok("trizen".to_string()));
    assert_eq!(select_aur_helper(&None, &vec![false, true, true, false, false]), Ok("yay".to_string()));
    assert_eq!(select_aur_helper(&None, &vec![true, true, false, false, false]), Ok("paru".to_string()));
    assert_eq!(select_aur_helper(&None, &vec![false; 5]), Err(NoAurHelper));
    assert_eq!(select_aur_helper(&None, &vec![]), Err(NoAurHelper));
}

#[test]
fn installed_records_mark_foreign_packages() {
    let local = vec![
        ("git".to_string(), "2.45.0-1".to_string()),
        ("yay".to_string(), "12.3.5-1".to_string()),
    ];
    let records = record_installed(&local, &strings(&["yay"]));
    assert_eq!(records.len(), 2);
    assert_eq!(records[0].name, "git");
    assert_eq!(records[0].version, "2.45.0-1");
    assert!(!records[0].aur);
    assert_eq!(records[1].name, "yay");
    assert!(records[1].aur);
    let desired = options(Some(&["git", "yay"]), Some(&["git", "yay"]));
    let (missing, count) = Pacman {}.filter_missing(&records, &desired);
    assert_eq!(missing.repo, Some(strings(&["yay"])));
    assert_eq!(missing.aur, Some(strings(&["git"])));
    assert_eq!(count, 2);
}
