//! The window with the game's settings.

use vstd::prelude::*;
use crate::text::{text_of, trim, trimmed};

verus! {

/// What the user has settled on.
#[derive(Debug, PartialEq, Eq)]
pub struct SettingsValues {
    pub game_location: Option<String>,
    pub patch_download_dir: Option<String>,
    pub seed_patches: bool,
}

/// What came of the window this time.
#[derive(Debug, PartialEq, Eq)]
pub enum SettingsOutcome {
    Open,
    Accepted(SettingsValues),
    Cancelled,
}

/// The window's fields.
#[derive(Debug)]
pub struct SettingsModal {
    pub game_location_text: String,
    pub patch_download_dir_text: String,
    pub seed_patches: bool,
    /// Says what an empty storage folder stands for.
    pub storage_hint: String,
    pub open: bool,
}

/// What a field holds: nothing where there is only white space.
pub open spec fn field_value(text: Seq<char>) -> Option<Seq<char>> {
    if trimmed(text).len() == 0 {
        None
    } else {
        Some(trimmed(text))
    }
}

/// See [`field_value`].
fn field(text: &str) -> (r: Option<String>)
    ensures
        text_of(r) == field_value(text@),
{
    let value: &str = trim(text);
    if value.is_empty() {
        None
    } else {
        Some(value.to_owned())
    }
}

/// The text of a field that is filled with a value that there may be.
fn filled(value: Option<&str>) -> (r: String)
    ensures
        r@ == match value {
            Some(text) => text@,
            None => Seq::<char>::empty(),
        },
{
    match value {
        Some(text) => text.to_owned(),
        None => String::new(),
    }
}

impl SettingsModal {
    /// The window with the given settings. `default_dir` is the folder that an empty storage
    /// folder stands for, where it can be told.
    pub fn new(
        game_location: Option<&str>,
        patch_download_dir: Option<&str>,
        seed_patches: bool,
        default_dir: Option<&str>,
    ) -> (r: SettingsModal)
        ensures
            r.game_location_text@ == match game_location {
                Some(text) => text@,
                None => Seq::<char>::empty(),
            },
            r.patch_download_dir_text@ == match patch_download_dir {
                Some(text) => text@,
                None => Seq::<char>::empty(),
            },
            r.seed_patches == seed_patches,
            r.storage_hint@ == match default_dir {
                Some(dir) => "Empty = "@ + dir@ + " (patches/torrent are stored here)."@,
                None => "Empty = your Documents folder (patches/torrent are stored here)."@,
            },
            r.open,
    {
        let storage_hint: String = match default_dir {
            Some(dir) => {
                let mut hint: String = "Empty = ".to_owned();
                hint.append(dir);
                hint.append(" (patches/torrent are stored here).");
                hint
            },
            None => {
                "Empty = your Documents folder (patches/torrent are stored here).".to_owned()
            },
        };
        SettingsModal {
            game_location_text: filled(game_location),
            patch_download_dir_text: filled(patch_download_dir),
            seed_patches,
            storage_hint,
            open: true,
        }
    }

    /// Whether the values are those of the fields.
    pub open spec fn gives(self, values: SettingsValues) -> bool {
        &&& text_of(values.game_location) == field_value(self.game_location_text@)
        &&& text_of(values.patch_download_dir) == field_value(self.patch_download_dir_text@)
        &&& values.seed_patches == self.seed_patches
    }

    /// What the fields hold.
    pub fn values(&self) -> (r: SettingsValues)
        ensures
            self.gives(r),
    {
        SettingsValues {
            game_location: field(self.game_location_text.as_str()),
            patch_download_dir: field(self.patch_download_dir_text.as_str()),
            seed_patches: self.seed_patches,
        }
    }

    /// What comes of the window, which was shown: whether one of its buttons was clicked, and
    /// whether it is still open. Closing it is a cancel, whatever was clicked.
    pub fn shown(&mut self, ok: bool, cancel: bool, window_open: bool) -> (r: SettingsOutcome)
        ensures
            if !window_open || cancel {
                r is Cancelled
            } else if ok {
                r is Accepted && old(self).gives(r->Accepted_0)
            } else {
                r is Open
            },
            final(self).open == (r is Open),
            final(self).game_location_text == old(self).game_location_text,
            final(self).patch_download_dir_text == old(self).patch_download_dir_text,
            final(self).seed_patches == old(self).seed_patches,
            final(self).storage_hint == old(self).storage_hint,
    {
        let outcome: SettingsOutcome = if !window_open || cancel {
            SettingsOutcome::Cancelled
        } else if ok {
            SettingsOutcome::Accepted(self.values())
        } else {
            SettingsOutcome::Open
        };
        self.open = match &outcome {
            SettingsOutcome::Open => true,
            _ => false,
        };
        outcome
    }
}

/// A field holds what was typed but for the white space around it, and nothing where there is only
/// that.
pub proof fn law_what_a_field_holds(lead: Seq<char>, core: Seq<char>, trail: Seq<char>)
    requires
        crate::text::is_blank(lead),
        crate::text::is_tight(core),
        crate::text::is_blank(trail),
    ensures
        core.len() > 0 ==> field_value(lead + core + trail) == Some(core),
        core.len() == 0 ==> field_value(lead + core + trail) is None,
{
    crate::text::law_trimming_takes_off_what_is_around(lead, core, trail);
}

/// Settings that are shown and accepted unchanged are the same settings.
pub proof fn law_settings_are_given_back(
    modal: SettingsModal,
    values: SettingsValues,
    game: Option<Seq<char>>,
    storage: Option<Seq<char>>,
)
    requires
        modal.gives(values),
        game is Some ==> game->0.len() > 0 && crate::text::is_tight(game->0)
            && modal.game_location_text@ == game->0,
        game is None ==> modal.game_location_text@.len() == 0,
        storage is Some ==> storage->0.len() > 0 && crate::text::is_tight(storage->0)
            && modal.patch_download_dir_text@ == storage->0,
        storage is None ==> modal.patch_download_dir_text@.len() == 0,
    ensures
        text_of(values.game_location) == game,
        text_of(values.patch_download_dir) == storage,
        values.seed_patches == modal.seed_patches,
{
    let none = Seq::<char>::empty();
    let a = modal.game_location_text@;
    let b = modal.patch_download_dir_text@;
    assert(none + a + none =~= a);
    assert(none + b + none =~= b);
    law_what_a_field_holds(none, a, none);
    law_what_a_field_holds(none, b, none);
}

} // verus!
