//! The housekeeping commands: trimming the repository manager's package
//! cache, removing its lock file, and refreshing its signing keys.

use vstd::prelude::*;
use crate::text::{dec_str, u64_to_string};

verus! {

/// The cache-clean command, keeping the given number of versions of each
/// package.
pub fn on_clear_cache_command(versions: u64) -> (r: Vec<String>)
    ensures
        r.deep_view() == seq!["paccache"@, "-rk"@ + dec_str(versions as int)],
{
    let mut flag: String = String::from_str("-rk");
    let rendered = u64_to_string(versions);
    flag = flag.concat(rendered.as_str());
    let mut cmd: Vec<String> = Vec::new();
    cmd.push(String::from_str("paccache"));
    cmd.push(flag);
    assert(cmd.deep_view() =~= seq!["paccache"@, "-rk"@ + dec_str(versions as int)]);
    cmd
}

/// The command that removes the repository manager's lock file.
pub fn on_remove_lock_command() -> (r: Vec<String>)
    ensures
        r.deep_view() == seq!["rm"@, "-f"@, "/var/lib/pacman/db.lck"@],
{
    let mut cmd: Vec<String> = Vec::new();
    cmd.push(String::from_str("rm"));
    cmd.push(String::from_str("-f"));
    cmd.push(String::from_str("/var/lib/pacman/db.lck"));
    assert(cmd.deep_view() =~= seq!["rm"@, "-f"@, "/var/lib/pacman/db.lck"@]);
    cmd
}

/// The command that refreshes the repository manager's signing keys.
pub fn on_update_keys_command() -> (r: Vec<String>)
    ensures
        r.deep_view() == seq!["pacman-key"@, "--refresh-keys"@],
{
    let mut cmd: Vec<String> = Vec::new();
    cmd.push(String::from_str("pacman-key"));
    cmd.push(String::from_str("--refresh-keys"));
    assert(cmd.deep_view() =~= seq!["pacman-key"@, "--refresh-keys"@]);
    cmd
}

/// The commands a clean request runs: the cache trim when a version count
/// is given, then the lock-file removal when asked for.
pub fn on_clean(clean_cache: Option<u64>, remove_lock: bool) -> (r: Vec<Vec<String>>)
    ensures
        r.deep_view() == ({
            let cache_part = match clean_cache {
                Some(versions) => seq![seq!["paccache"@, "-rk"@ + dec_str(versions as int)]],
                None => Seq::<Seq<Seq<char>>>::empty(),
            };
            let lock_part = if remove_lock {
                seq![seq!["rm"@, "-f"@, "/var/lib/pacman/db.lck"@]]
            } else {
                Seq::<Seq<Seq<char>>>::empty()
            };
            cache_part + lock_part
        }),
{
    let mut r: Vec<Vec<String>> = Vec::new();
    match clean_cache {
        Some(versions) => {
            r.push(on_clear_cache_command(versions));
        },
        None => {},
    }
    if remove_lock {
        r.push(on_remove_lock_command());
    }
    assert(r.deep_view() =~= ({
        let cache_part = match clean_cache {
            Some(versions) => seq![seq!["paccache"@, "-rk"@ + dec_str(versions as int)]],
            None => Seq::<Seq<Seq<char>>>::empty(),
        };
        let lock_part = if remove_lock {
            seq![seq!["rm"@, "-f"@, "/var/lib/pacman/db.lck"@]]
        } else {
            Seq::<Seq<Seq<char>>>::empty()
        };
        cache_part + lock_part
    }));
    r
}

} // verus!
