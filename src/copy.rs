//! The copy command: what it copies and what it emits afterwards.
use vstd::prelude::*;
use crate::config::{read_spec, silent_copy, silent_copy_key, silent_copy_spec, PluginConfig, Setting};
use crate::error::CopyError;
use crate::format::{format_json, follows_stages, json_stages_of, string_of, string_text};

verus! {

/// Display forced by a flag of the invocation.
#[derive(Clone, Copy, Debug, PartialEq, Eq, Structural)]
pub enum Forced {
    /// `--no-silent`: emit the input value.
    Show,
    /// `--silent`: emit nothing.
    Hide,
}

/// What the command emits once the text is on the clipboard.
#[derive(Clone, Copy, Debug, PartialEq, Eq, Structural)]
pub enum Output {
    /// The input value, unchanged.
    Original,
    /// The "nothing" value.
    Nothing,
}

/// The display forced by the flags: `--no-silent` wins over `--silent`.
pub open spec fn forced_spec(silent: bool, no_silent: bool) -> Option<Forced> {
    if no_silent {
        Some(Forced::Show)
    } else if silent {
        Some(Forced::Hide)
    } else {
        None
    }
}

/// The output for a forced display and the persisted silent-copy setting;
/// the setting counts only when no flag forces the display.
pub open spec fn output_spec(forced: Option<Forced>, persisted_silent: bool) -> Output {
    match forced {
        Some(Forced::Show) => Output::Original,
        Some(Forced::Hide) => Output::Nothing,
        None => if persisted_silent {
            Output::Nothing
        } else {
            Output::Original
        },
    }
}

/// The output for the two flags and the configuration.
pub open spec fn output_for(silent: bool, no_silent: bool, config: Option<PluginConfig>) -> Output {
    output_spec(forced_spec(silent, no_silent), silent_copy_spec(config))
}

/// The `clipboard copy` command.
pub struct ClipboardCopy;

impl ClipboardCopy {
    pub fn new() -> ClipboardCopy {
        ClipboardCopy {}
    }

    /// The text that an invocation puts on the clipboard for `value`: a
    /// string value as it is, any other value as JSON. Only the two JSON
    /// stages can fail, and their error is passed on unchanged.
    pub fn copy_text(value: &nu_protocol::Value) -> (r: Result<String, CopyError>)
        ensures
            match string_of(*value) {
                Some(s) => r matches Ok(t) && t@ == s,
                None => follows_stages(r, json_stages_of(*value)),
            },
    {
        match string_text(value) {
            Some(text) => Ok(text),
            None => format_json(value),
        }
    }

    /// The display that the flags force, if any.
    pub fn forced_display(silent: bool, no_silent: bool) -> (r: Option<Forced>)
        ensures
            r == forced_spec(silent, no_silent),
    {
        let mut forced: Option<Forced> = None;
        if silent {
            forced = Some(Forced::Hide);
        }
        if no_silent {
            forced = Some(Forced::Show);
        }
        forced
    }

    /// Chooses the output from the forced display and the persisted setting.
    pub fn select_output(forced: Option<Forced>, persisted_silent: bool) -> (r: Output)
        ensures
            r == output_spec(forced, persisted_silent),
    {
        match (forced, persisted_silent) {
            (None, true) | (Some(Forced::Hide), _) => Output::Nothing,
            (None, false) | (Some(Forced::Show), _) => Output::Original,
        }
    }

    /// Ends an invocation once the clipboard write has been tried: a failed
    /// write fails the command, otherwise the flags and the configuration
    /// choose the output.
    pub fn complete(
        written: Result<(), String>,
        silent: bool,
        no_silent: bool,
        config: &Option<PluginConfig>,
    ) -> (r: Result<Output, CopyError>)
        ensures
            match written {
                Ok(_) => r == Ok::<Output, CopyError>(output_for(silent, no_silent, *config)),
                Err(cause) => r == Err::<Output, CopyError>(CopyError::Clipboard(cause)),
            },
    {
        match written {
            Ok(()) => {
                let forced = Self::forced_display(silent, no_silent);
                Ok(Self::select_output(forced, silent_copy(config)))
            },
            Err(cause) => Err(CopyError::Clipboard(cause)),
        }
    }
}

/// `--no-silent` shows the input value, whether or not `--silent` is given
/// too, and whatever the configuration says.
pub proof fn lemma_no_silent_wins(silent: bool, config: Option<PluginConfig>)
    ensures
        forced_spec(silent, true) == Some(Forced::Show),
        output_for(silent, true, config) == Output::Original,
{
}

/// A configuration that is absent, is not a record, or has no
/// `SILENT_COPY` column gives, for any flags, the same output as one whose
/// `SILENT_COPY` is `false`.
pub proof fn lemma_missing_setting_is_false(
    missing: Option<PluginConfig>,
    explicit: Option<PluginConfig>,
    silent: bool,
    no_silent: bool,
)
    requires
        read_spec(missing, silent_copy_key()) is None,
        read_spec(explicit, silent_copy_key()) == Some(Setting::Bool(false)),
    ensures
        silent_copy_spec(missing) == silent_copy_spec(explicit),
        output_for(silent, no_silent, missing) == output_for(silent, no_silent, explicit),
{
}

/// Only the `SILENT_COPY` setting of a configuration counts: two
/// configurations that read the same there give the same output for any
/// flags, whatever their other columns hold.
pub proof fn lemma_only_silent_copy_counts(
    a: Option<PluginConfig>,
    b: Option<PluginConfig>,
    silent: bool,
    no_silent: bool,
)
    requires
        read_spec(a, silent_copy_key()) == read_spec(b, silent_copy_key()),
    ensures
        output_for(silent, no_silent, a) == output_for(silent, no_silent, b),
{
}

/// A `SILENT_COPY` that is not a boolean counts as `false`: for any flags the
/// output is the same as with `SILENT_COPY` set to `false`.
pub proof fn lemma_non_bool_setting_is_false(
    other: Option<PluginConfig>,
    explicit: Option<PluginConfig>,
    silent: bool,
    no_silent: bool,
)
    requires
        read_spec(other, silent_copy_key()) == Some(Setting::Other),
        read_spec(explicit, silent_copy_key()) == Some(Setting::Bool(false)),
    ensures
        silent_copy_spec(other) == silent_copy_spec(explicit),
        output_for(silent, no_silent, other) == output_for(silent, no_silent, explicit),
{
}

} // verus!
