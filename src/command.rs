//! The `/tangent` command: what to do for a given subcommand, feature flags
//! and conversation mode, and how the activation shortcut is shown.

use vstd::prelude::*;

verus! {

/// `/tangent` with no subcommand toggles tangent mode.
#[derive(Clone, Copy, Debug, PartialEq, Eq)]
pub struct TangentArgs {
    pub subcommand: Option<TangentSubcommand>,
}

#[derive(Clone, Copy, Debug, PartialEq, Eq)]
pub enum TangentSubcommand {
    /// Exit tangent mode and keep the last conversation entry (user question + assistant response)
    Tail,
    /// Exit tangent mode and keep a summary of the branch
    Compact,
}

/// What the command does to the conversation.
#[derive(Clone, Copy, Debug, PartialEq, Eq)]
pub enum TangentAction {
    /// Tangent mode is switched off in the settings: nothing changes.
    FeatureDisabled,
    /// Open a branch.
    Enter,
    /// Leave the branch and drop it.
    ExitDiscard,
    /// Leave the branch and keep its last entry.
    ExitTail,
    /// Leave the branch and keep a summary of it.
    ExitCompact,
    /// `tail` outside tangent mode: nothing changes.
    TailOutsideTangent,
    /// `compact` outside tangent mode: nothing changes.
    CompactOutsideTangent,
}

/// The decision for one run of the command.
#[derive(Clone, Copy, Debug, PartialEq, Eq)]
pub struct TangentPlan {
    /// Warn that checkpoints do not combine with tangent mode.
    pub warn_checkpoint: bool,
    pub action: TangentAction,
    /// Whether the next prompt skips listing the tools.
    pub skip_printing_tools: bool,
}

pub open spec fn action_of(
    subcommand: Option<TangentSubcommand>,
    tangent_enabled: bool,
    in_tangent: bool,
) -> TangentAction {
    if !tangent_enabled {
        TangentAction::FeatureDisabled
    } else {
        match subcommand {
            None => if in_tangent {
                TangentAction::ExitDiscard
            } else {
                TangentAction::Enter
            },
            Some(TangentSubcommand::Tail) => if in_tangent {
                TangentAction::ExitTail
            } else {
                TangentAction::TailOutsideTangent
            },
            Some(TangentSubcommand::Compact) => if in_tangent {
                TangentAction::ExitCompact
            } else {
                TangentAction::CompactOutsideTangent
            },
        }
    }
}

/// The plan for a subcommand, given whether tangent mode and checkpoints are
/// enabled and whether the conversation is in tangent mode.
pub open spec fn plan_of(
    subcommand: Option<TangentSubcommand>,
    tangent_enabled: bool,
    checkpoint_enabled: bool,
    in_tangent: bool,
) -> TangentPlan {
    TangentPlan {
        warn_checkpoint: tangent_enabled && checkpoint_enabled,
        action: action_of(subcommand, tangent_enabled, in_tangent),
        skip_printing_tools: !tangent_enabled,
    }
}

impl TangentArgs {
    /// Decides what the command does. Every run with tangent mode enabled
    /// warns when checkpoints are enabled too; a disabled feature changes
    /// nothing and warns of nothing else.
    pub fn plan(&self, tangent_enabled: bool, checkpoint_enabled: bool, in_tangent: bool) -> (r:
        TangentPlan)
        ensures
            r == plan_of(self.subcommand, tangent_enabled, checkpoint_enabled, in_tangent),
    {
        let action = if !tangent_enabled {
            TangentAction::FeatureDisabled
        } else {
            match self.subcommand {
                None => if in_tangent {
                    TangentAction::ExitDiscard
                } else {
                    TangentAction::Enter
                },
                Some(TangentSubcommand::Tail) => if in_tangent {
                    TangentAction::ExitTail
                } else {
                    TangentAction::TailOutsideTangent
                },
                Some(TangentSubcommand::Compact) => if in_tangent {
                    TangentAction::ExitCompact
                } else {
                    TangentAction::CompactOutsideTangent
                },
            }
        };
        TangentPlan {
            warn_checkpoint: tangent_enabled && checkpoint_enabled,
            action,
            skip_printing_tools: !tangent_enabled,
        }
    }
}

/// The key shown when the setting is missing or is not a single character.
pub const DEFAULT_SHORTCUT_KEY: char = 't';

/// The configured shortcut key: the setting when it is exactly one
/// character, the default otherwise.
pub open spec fn shortcut_key_of(setting: Option<Seq<char>>) -> char {
    match setting {
        Some(key) => if key.len() == 1 {
            key[0]
        } else {
            DEFAULT_SHORTCUT_KEY
        },
        None => DEFAULT_SHORTCUT_KEY,
    }
}

/// The lower-case form of a character under Unicode's case mapping (one
/// character may map to several).
pub uninterp spec fn lower_of(c: char) -> Seq<char>;

/// Relies on `char::to_lowercase`: the lower-case mapping of `c`, collected
/// into a string.
#[verifier::external_body]
fn lowercase(c: char) -> (r: String)
    ensures
        r@ == lower_of(c),
{
    c.to_lowercase().collect()
}

pub open spec fn opt_view(setting: Option<&str>) -> Option<Seq<char>> {
    match setting {
        Some(s) => Some(s@),
        None => None,
    }
}

/// Picks the shortcut key from the setting's value.
pub fn shortcut_key(setting: Option<&str>) -> (c: char)
    ensures
        c == shortcut_key_of(opt_view(setting)),
{
    match setting {
        Some(key) => {
            if key.unicode_len() == 1 {
                key.get_char(0)
            } else {
                DEFAULT_SHORTCUT_KEY
            }
        },
        None => DEFAULT_SHORTCUT_KEY,
    }
}

/// How the activation shortcut is shown: `ctrl + ` and the lower-case key.
pub fn shortcut_label(setting: Option<&str>) -> (r: String)
    ensures
        r@ == "ctrl + "@ + lower_of(shortcut_key_of(opt_view(setting))),
{
    let mut r = String::new();
    r.append("ctrl + ");
    let lower = lowercase(shortcut_key(setting));
    r.append(lower.as_str());
    r
}

/// The colour of a piece of status text.
#[derive(Clone, Copy, Debug, PartialEq, Eq)]
pub enum Tone {
    Red,
    Yellow,
    Green,
    DarkGrey,
}

/// A piece of status text in one colour.
#[derive(Clone, Debug, PartialEq, Eq)]
pub struct Segment {
    pub tone: Tone,
    pub text: String,
}

pub open spec fn segments_view(segments: Seq<Segment>) -> Seq<(Tone, Seq<char>)> {
    segments.map_values(|s: Segment| (s.tone, s.text@))
}

/// The warning shown when checkpoints are enabled alongside tangent mode.
pub open spec fn checkpoint_warning_of() -> Seq<(Tone, Seq<char>)> {
    seq![
        (
            Tone::Yellow,
            "⚠️ Checkpoint is disabled while in tangent mode. Please exit tangent mode if you want to use checkpoint.\n"@,
        ),
    ]
}

/// The status text shown after an action; `key` is the shortcut label.
pub open spec fn status_of(action: TangentAction, key: Seq<char>) -> Seq<(Tone, Seq<char>)> {
    match action {
        TangentAction::FeatureDisabled => seq![
            (
                Tone::Red,
                "\nTangent mode is disabled. Enable it with: q settings chat.enableTangentMode true\n"@,
            ),
        ],
        TangentAction::Enter => seq![
            (Tone::DarkGrey, "Created a conversation checkpoint ("@),
            (Tone::Yellow, "↯"@),
            (Tone::DarkGrey, "). Use "@),
            (Tone::Green, key),
            (Tone::DarkGrey, " or "@),
            (Tone::Green, "/tangent"@),
            (Tone::DarkGrey, " to restore the conversation later.\n"@),
            (
                Tone::DarkGrey,
                "Note: this functionality is experimental and may change or be removed in the future.\n"@,
            ),
        ],
        TangentAction::ExitDiscard => seq![
            (Tone::DarkGrey, "Restored conversation from checkpoint ("@),
            (Tone::Yellow, "↯"@),
            (Tone::DarkGrey, "). - Returned to main conversation.\n"@),
        ],
        TangentAction::ExitTail => seq![
            (Tone::DarkGrey, "Restored conversation from checkpoint ("@),
            (Tone::Yellow, "↯"@),
            (Tone::DarkGrey, ") with last conversation entry preserved.\n"@),
        ],
        TangentAction::ExitCompact => seq![
            (Tone::Green, "✔ Tangent conversation compacted and summarized!\n"@),
        ],
        TangentAction::TailOutsideTangent => seq![
            (Tone::Red, "You need to be in tangent mode to use tail.\n"@),
        ],
        TangentAction::CompactOutsideTangent => seq![
            (Tone::Red, "You need to be in tangent mode to use /tangent compact.\n"@),
        ],
    }
}

fn segment(tone: Tone, text: &str) -> (r: Segment)
    ensures
        r.tone == tone,
        r.text@ == text@,
{
    Segment { tone, text: String::from_str(text) }
}

/// The warning that checkpoints are off while tangent mode is on.
pub fn checkpoint_warning() -> (r: Vec<Segment>)
    ensures
        segments_view(r@) == checkpoint_warning_of(),
{
    let r = vec![
        segment(
            Tone::Yellow,
            "⚠️ Checkpoint is disabled while in tangent mode. Please exit tangent mode if you want to use checkpoint.\n",
        ),
    ];
    assert(segments_view(r@) =~= checkpoint_warning_of());
    r
}

/// The status text for an action, with `key_label` as the shortcut shown on
/// entering tangent mode.
pub fn status_message(action: TangentAction, key_label: &str) -> (r: Vec<Segment>)
    ensures
        segments_view(r@) == status_of(action, key_label@),
{
    let r = match action {
        TangentAction::FeatureDisabled => vec![
            segment(
                Tone::Red,
                "\nTangent mode is disabled. Enable it with: q settings chat.enableTangentMode true\n",
            ),
        ],
        TangentAction::Enter => vec![
            segment(Tone::DarkGrey, "Created a conversation checkpoint ("),
            segment(Tone::Yellow, "↯"),
            segment(Tone::DarkGrey, "). Use "),
            segment(Tone::Green, key_label),
            segment(Tone::DarkGrey, " or "),
            segment(Tone::Green, "/tangent"),
            segment(Tone::DarkGrey, " to restore the conversation later.\n"),
            segment(
                Tone::DarkGrey,
                "Note: this functionality is experimental and may change or be removed in the future.\n",
            ),
        ],
        TangentAction::ExitDiscard => vec![
            segment(Tone::DarkGrey, "Restored conversation from checkpoint ("),
            segment(Tone::Yellow, "↯"),
            segment(Tone::DarkGrey, "). - Returned to main conversation.\n"),
        ],
        TangentAction::ExitTail => vec![
            segment(Tone::DarkGrey, "Restored conversation from checkpoint ("),
            segment(Tone::Yellow, "↯"),
            segment(Tone::DarkGrey, ") with last conversation entry preserved.\n"),
        ],
        TangentAction::ExitCompact => vec![
            segment(Tone::Green, "✔ Tangent conversation compacted and summarized!\n"),
        ],
        TangentAction::TailOutsideTangent => vec![
            segment(Tone::Red, "You need to be in tangent mode to use tail.\n"),
        ],
        TangentAction::CompactOutsideTangent => vec![
            segment(Tone::Red, "You need to be in tangent mode to use /tangent compact.\n"),
        ],
    };
    assert(segments_view(r@) =~= status_of(action, key_label@));
    r
}

} // verus!
