//! Folder and file names of the manager, the configuration file's path, the
//! pruning of disabled plugins and the autosave rule.

use vstd::prelude::*;
use vstd::string::*;
use crate::paths::{join_path, join_of, joined_with_separator, lemma_join_needs_separator, plain_name, verbatim};
use crate::manager::stats::span;

verus! {

/// The folder of plugin libraries, beside the manager's own library.
pub const PLUGINS_DIR_NAME: &'static str = "bunny_plugins";

/// The folder of configuration files, beside the manager's own library.
pub const CONFIG_DIR_NAME: &'static str = "bunny_config";

/// The folder of extra fonts, beside the manager's own library.
pub const FONTS_DIR_NAME: &'static str = "bunny_fonts";

/// The manager's own configuration file, in the configuration folder.
pub const CONFIG_FILE_NAME: &'static str = "bunny_manager.toml";

/// The path of the folder `name` (one of the names above) in `module_dir`.
pub fn module_subdir(module_dir: &str, name: &str) -> (r: String)
    requires
        plain_name(name@),
    ensures
        join_of(module_dir@, name@, r@),
{
    join_path(module_dir, name)
}

pub proof fn lemma_names_plain()
    ensures
        plain_name(PLUGINS_DIR_NAME@),
        plain_name(CONFIG_DIR_NAME@),
        plain_name(FONTS_DIR_NAME@),
        plain_name(CONFIG_FILE_NAME@),
{
    assert(plain_name(PLUGINS_DIR_NAME@)) by {
        reveal_strlit("bunny_plugins");
    }
    assert(plain_name(CONFIG_DIR_NAME@)) by {
        reveal_strlit("bunny_config");
    }
    assert(plain_name(FONTS_DIR_NAME@)) by {
        reveal_strlit("bunny_fonts");
    }
    assert(plain_name(CONFIG_FILE_NAME@)) by {
        reveal_strlit("bunny_manager.toml");
        let s = CONFIG_FILE_NAME@;
        assert(s =~= seq!['b', 'u', 'n', 'n', 'y', '_', 'm', 'a', 'n', 'a', 'g', 'e', 'r', '.', 't', 'o', 'm', 'l']);
    }
}

/// The folder part of a path to the configuration file: all of it but the
/// separator and the file name at its end.
pub open spec fn config_dir_part(path: Seq<char>) -> Seq<char> {
    path.subrange(0, path.len() - 1 - CONFIG_FILE_NAME@.len())
}

/// The path of the manager's configuration file for the manager's folder
/// `module_dir`: the configuration folder joined onto `module_dir`, one
/// separator, and the file name.
pub fn get_config_path(module_dir: &str) -> (r: String)
    ensures
        !verbatim(module_dir@) && module_dir@ != seq!['\\', '\\', '?'] ==> {
            &&& r@.len() > CONFIG_FILE_NAME@.len()
            &&& join_of(module_dir@, CONFIG_DIR_NAME@, config_dir_part(r@))
            &&& joined_with_separator(config_dir_part(r@), CONFIG_FILE_NAME@, r@)
        },
{
    proof {
        lemma_names_plain();
    }
    let dir: String = module_subdir(module_dir, CONFIG_DIR_NAME);
    let r: String = join_path(dir.as_str(), CONFIG_FILE_NAME);
    proof {
        if !verbatim(module_dir@) && module_dir@ != seq!['\\', '\\', '?'] {
            lemma_join_needs_separator(module_dir@, CONFIG_DIR_NAME@, dir@);
            assert(r@.len() == dir@.len() + 1 + CONFIG_FILE_NAME@.len());
            assert(config_dir_part(r@) =~= dir@);
        }
    }
    r
}

/// The folders that must exist in the manager's folder: plugins,
/// configuration and fonts, in that order.
pub fn required_dirs(module_dir: &str) -> (r: Vec<String>)
    ensures
        r@.len() == 3,
        join_of(module_dir@, PLUGINS_DIR_NAME@, r@[0]@),
        join_of(module_dir@, CONFIG_DIR_NAME@, r@[1]@),
        join_of(module_dir@, FONTS_DIR_NAME@, r@[2]@),
{
    proof {
        lemma_names_plain();
    }
    let mut r: Vec<String> = Vec::new();
    r.push(module_subdir(module_dir, PLUGINS_DIR_NAME));
    r.push(module_subdir(module_dir, CONFIG_DIR_NAME));
    r.push(module_subdir(module_dir, FONTS_DIR_NAME));
    r
}

/// Whether `name` is among `names`.
pub open spec fn has_name(names: Seq<String>, name: Seq<char>) -> bool {
    exists|j: int| 0 <= j < names.len() && names[j]@ == name
}

/// The names of `disabled` that are among `present`, in order.
pub open spec fn still_present(disabled: Seq<String>, present: Seq<String>) -> Seq<String>
    decreases disabled.len(),
{
    if disabled.len() == 0 {
        Seq::empty()
    } else {
        let rest = still_present(disabled.drop_last(), present);
        if has_name(present, disabled.last()@) {
            rest.push(disabled.last())
        } else {
            rest
        }
    }
}

fn has_name_exec(names: &Vec<String>, name: &String) -> (r: bool)
    ensures
        r == has_name(names@, name@),
{
    let mut i: usize = 0;
    while i < names.len()
        invariant
            i <= names@.len(),
            forall|j: int| 0 <= j < i ==> names@[j]@ != name@,
        decreases names@.len() - i,
    {
        if names[i] == *name {
            return true;
        }
        i = i + 1;
    }
    false
}

/// The manually disabled plugins whose files are still there. A plugin
/// whose file was deleted is forgotten, so that it loads again if its file
/// comes back.
pub fn retain_present(disabled: &Vec<String>, file_names: &Vec<String>) -> (r: Vec<String>)
    ensures
        r@ == still_present(disabled@, file_names@),
{
    let mut r: Vec<String> = Vec::new();
    let mut i: usize = 0;
    while i < disabled.len()
        invariant
            i <= disabled@.len(),
            r@ == still_present(disabled@.take(i as int), file_names@),
        decreases disabled@.len() - i,
    {
        proof {
            assert(disabled@.take(i + 1).drop_last() =~= disabled@.take(i as int));
        }
        if has_name_exec(file_names, &disabled[i]) {
            r.push(disabled[i].clone());
        }
        i = i + 1;
    }
    assert(disabled@.take(disabled@.len() as int) =~= disabled@);
    r
}

/// Pruning keeps exactly the disabled plugins whose files are there: every
/// name kept is a plugin file's and was disabled, and every disabled name of
/// a plugin file is kept.
pub proof fn lemma_retain_present(disabled: Seq<String>, present: Seq<String>)
    ensures
        forall|i: int| 0 <= i < still_present(disabled, present).len() ==> {
            &&& has_name(present, #[trigger] still_present(disabled, present)[i]@)
            &&& disabled.contains(still_present(disabled, present)[i])
        },
        forall|i: int| 0 <= i < disabled.len() && has_name(present, #[trigger] disabled[i]@) ==>
            still_present(disabled, present).contains(disabled[i]),
    decreases disabled.len(),
{
    if disabled.len() > 0 {
        let init = disabled.drop_last();
        lemma_retain_present(init, present);
        let rest = still_present(init, present);
        let r = still_present(disabled, present);
        assert forall|i: int| 0 <= i < r.len() implies {
            &&& has_name(present, #[trigger] r[i]@)
            &&& disabled.contains(r[i])
        } by {
            if i < rest.len() {
                assert(r[i] == rest[i]);
                assert(has_name(present, rest[i]@));
                let j = choose|j: int| 0 <= j < init.len() && init[j] == rest[i];
                assert(disabled[j] == init[j]);
            } else {
                assert(r[i] == disabled.last());
                assert(disabled[disabled.len() - 1] == disabled.last());
            }
        }
        assert forall|i: int| 0 <= i < disabled.len() && has_name(present, #[trigger] disabled[i]@) implies r.contains(disabled[i]) by {
            if i == disabled.len() - 1 {
                assert(r[rest.len() as int] == disabled.last());
            } else {
                assert(init[i] == disabled[i]);
                assert(rest.contains(init[i]));
                let j = choose|j: int| 0 <= j < rest.len() && rest[j] == init[i];
                if has_name(present, disabled.last()@) {
                    assert(r[j] == rest[j]);
                } else {
                    assert(r == rest);
                }
            }
        }
    }
}

/// Nanoseconds in a second.
pub const NANOS_PER_SEC: u64 = 1_000_000_000;

/// Whether the configuration is due to be saved at `now`: autosave is on
/// (an interval of zero seconds turns it off) and more than the interval
/// has passed since the last save.
pub open spec fn autosave_is_due(interval_seconds: u64, last_save: u64, now: u64) -> bool {
    interval_seconds > 0 && span(now, last_save) > interval_seconds * NANOS_PER_SEC
}

/// Whether the configuration is due to be saved at `now`.
pub fn autosave_due(interval_seconds: u64, last_save: u64, now: u64) -> (r: bool)
    ensures
        r == autosave_is_due(interval_seconds, last_save, now),
{
    let since: u64 = now.saturating_sub(last_save);
    interval_seconds > 0 && (since as u128) > (interval_seconds as u128) * (NANOS_PER_SEC as u128)
}

} // verus!

verus! {

/// An autosave interval of zero seconds turns autosave off: it is never due.
pub proof fn lemma_zero_interval_never_due(last_save: u64, now: u64)
    ensures
        !autosave_is_due(0, last_save, now),
{
}

/// Once due, autosave stays due as time goes on, until the next save.
pub proof fn lemma_due_stays_due(interval_seconds: u64, last_save: u64, now: u64, later: u64)
    requires
        autosave_is_due(interval_seconds, last_save, now),
        now <= later,
    ensures
        autosave_is_due(interval_seconds, last_save, later),
{
}

} // verus!
