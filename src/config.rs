//! The plugin's configuration, as far as this library reads it.
use vstd::prelude::*;

verus! {

/// A configuration value under some key: a boolean, or anything else.
#[derive(Clone, Copy, Debug, PartialEq, Eq, Structural)]
pub enum Setting {
    Bool(bool),
    Other,
}

/// One column of the configuration record.
#[derive(Debug)]
pub struct ConfigEntry {
    pub key: String,
    pub value: Setting,
}

/// The configuration value the host hands to the plugin.
#[derive(Debug)]
pub enum PluginConfig {
    /// A record, with its columns in order.
    Record(Vec<ConfigEntry>),
    /// Any value that is not a record.
    Other,
}

/// The setting under `key` among `entries`: the last column of that name,
/// as a nushell record reads it.
pub open spec fn lookup(entries: Seq<ConfigEntry>, key: Seq<char>) -> Option<Setting>
    decreases entries.len(),
{
    if entries.len() == 0 {
        None
    } else if entries.last().key@ == key {
        Some(entries.last().value)
    } else {
        lookup(entries.drop_last(), key)
    }
}

/// The setting under `key`, if the configuration is present and is a record.
pub open spec fn read_spec(config: Option<PluginConfig>, key: Seq<char>) -> Option<Setting> {
    match config {
        Some(PluginConfig::Record(entries)) => lookup(entries@, key),
        _ => None,
    }
}

/// The key of the silent-copy setting.
pub open spec fn silent_copy_key() -> Seq<char> {
    "SILENT_COPY"@
}

/// Whether the configuration asks for a silent copy: only a boolean `true`
/// under `SILENT_COPY` does.
pub open spec fn silent_copy_spec(config: Option<PluginConfig>) -> bool {
    read_spec(config, silent_copy_key()) == Some(Setting::Bool(true))
}

/// Looks `key` up in the configuration, taking the last column of that
/// name. An absent configuration, one that is not a record, or a record
/// without that column gives `None`.
pub fn read(config: &Option<PluginConfig>, key: &str) -> (r: Option<Setting>)
    ensures
        r == read_spec(*config, key@),
{
    match config {
        Some(PluginConfig::Record(entries)) => {
            assert(read_spec(*config, key@) == lookup(entries@, key@));
            let wanted = String::from_str(key);
            let mut i: usize = entries.len();
            assert(entries@.subrange(0, entries.len() as int) =~= entries@);
            while i > 0
                invariant
                    0 <= i <= entries.len(),
                    wanted@ == key@,
                    read_spec(*config, key@) == lookup(entries@, key@),
                    lookup(entries@, key@) == lookup(entries@.subrange(0, i as int), key@),
                decreases i,
            {
                let front = Ghost(entries@.subrange(0, i as int));
                assert(front@.last() == entries@[i - 1]);
                assert(front@.drop_last() =~= entries@.subrange(0, i - 1));
                if entries[i - 1].key == wanted {
                    return Some(entries[i - 1].value);
                }
                i = i - 1;
            }
            assert(entries@.subrange(0, 0) =~= Seq::<ConfigEntry>::empty());
            None
        },
        _ => {
            None
        },
    }
}

/// Whether the configuration asks that the command emit nothing after a copy.
/// Anything but a boolean `true` under `SILENT_COPY` counts as `false`.
pub fn silent_copy(config: &Option<PluginConfig>) -> (r: bool)
    ensures
        r == silent_copy_spec(*config),
{
    match read(config, "SILENT_COPY") {
        Some(Setting::Bool(val)) => val,
        _ => false,
    }
}

} // verus!
