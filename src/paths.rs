use vstd::prelude::*;
use crate::workflow::{steps, Step, Workflow, BACKUP_PATH_COUNT};

verus! {

/// The server directory used where none is configured.
pub const DEFAULT_SERVER_LOCATION: &'static str = "atm10";

/// The directory of staged mods used where none is configured.
pub const DEFAULT_EXTRA_MODS_DIR: &'static str = "extra_mods";

/// The mods directory, inside the server directory.
pub const MODS_DIR: &'static str = "mods";

/// The manifest of installed mods, inside the server directory.
pub const MODS_LIST_FILE: &'static str = "mods.list";

/// The configuration file that holds the modpack version, inside the server directory.
pub const VERSION_CONFIG_FILE: &'static str = "config/bcc-common.toml";

/// The server properties file, inside the server directory.
pub const SERVER_PROPERTIES_FILE: &'static str = "server.properties";

/// The script that starts the server, inside the server directory.
pub const START_SCRIPT: &'static str = "startserver.sh";

/// The paths of the backup manifest, in order: single files, then whole
/// directories.
pub open spec fn backup_entry_text(i: int) -> Seq<char> {
    if i == 0 {
        "eula.txt"@
    } else if i == 1 {
        "ops.json"@
    } else if i == 2 {
        "server.properties"@
    } else if i == 3 {
        "config"@
    } else {
        "world"@
    }
}

/// The backup-manifest path of index `i`.
pub fn backup_entry(i: usize) -> (r: &'static str)
    requires
        i < BACKUP_PATH_COUNT,
    ensures
        r@ == backup_entry_text(i as int),
{
    if i == 0 {
        "eula.txt"
    } else if i == 1 {
        "ops.json"
    } else if i == 2 {
        "server.properties"
    } else if i == 3 {
        "config"
    } else {
        "world"
    }
}

/// The backup directory that belongs to a server directory.
pub open spec fn backup_root_of(server: Seq<char>) -> Seq<char> {
    server + "_backup"@
}

/// Names the backup directory of a server directory.
pub fn backup_root(server: &str) -> (r: String)
    ensures
        r@ == backup_root_of(server@),
{
    let mut r = String::from_str(server);
    r.append("_backup");
    r
}

/// `name` inside directory `dir`; inside the current directory where
/// `dir` is empty.
pub open spec fn joined(dir: Seq<char>, name: Seq<char>) -> Seq<char> {
    if dir.len() == 0 {
        name
    } else if dir.last() == '/' {
        dir + name
    } else {
        dir + seq!['/'] + name
    }
}

/// The path of `name` inside directory `dir`.
pub fn join_path(dir: &str, name: &str) -> (r: String)
    ensures
        r@ == joined(dir@, name@),
{
    let n: usize = dir.unicode_len();
    if n == 0 {
        return String::from_str(name);
    }
    let mut r = String::from_str(dir);
    if dir.get_char(n - 1) != '/' {
        proof {
            reveal_strlit("/");
        }
        r.append("/");
        assert(r@ =~= dir@ + seq!['/']);
    }
    r.append(name);
    r
}

/// Where a copy step copies from and to, for a server directory: a backup
/// copies a manifest path from the server to the backup directory, a
/// restore copies it back.
pub open spec fn copy_endpoints(step: Step, server: Seq<char>) -> Option<(Seq<char>, Seq<char>)> {
    match step {
        Step::BackupPath(i) => if i < BACKUP_PATH_COUNT {
            Some(
                (
                    joined(server, backup_entry_text(i as int)),
                    joined(backup_root_of(server), backup_entry_text(i as int)),
                ),
            )
        } else {
            None
        },
        Step::RestorePath(i) => if i < BACKUP_PATH_COUNT {
            Some(
                (
                    joined(backup_root_of(server), backup_entry_text(i as int)),
                    joined(server, backup_entry_text(i as int)),
                ),
            )
        } else {
            None
        },
        _ => None,
    }
}

/// The source and destination of a copy step; `None` for other steps.
pub fn copy_paths(step: Step, server: &str) -> (r: Option<(String, String)>)
    ensures
        match r {
            Some(p) => copy_endpoints(step, server@) == Some((p.0@, p.1@)),
            None => copy_endpoints(step, server@) is None,
        },
{
    match step {
        Step::BackupPath(i) => {
            if i < BACKUP_PATH_COUNT {
                let entry = backup_entry(i);
                let backup = backup_root(server);
                Some((join_path(server, entry), join_path(backup.as_str(), entry)))
            } else {
                None
            }
        },
        Step::RestorePath(i) => {
            if i < BACKUP_PATH_COUNT {
                let entry = backup_entry(i);
                let backup = backup_root(server);
                Some((join_path(backup.as_str(), entry), join_path(server, entry)))
            } else {
                None
            }
        },
        _ => None,
    }
}

/// Backup and restore go over the same manifest paths, in the same order:
/// the restore step of each path copies back from exactly where the backup
/// step of that path put it.
pub proof fn lemma_restore_mirrors_backup(server: Seq<char>, i: int)
    requires
        0 <= i < BACKUP_PATH_COUNT,
    ensures
        steps(Workflow::Backup)[2 + i] == Step::BackupPath(i as usize),
        steps(Workflow::Restore)[i] == Step::RestorePath(i as usize),
        copy_endpoints(Step::BackupPath(i as usize), server) matches Some(b) && copy_endpoints(
            Step::RestorePath(i as usize),
            server,
        ) == Some((b.1, b.0)),
{
}

} // verus!
