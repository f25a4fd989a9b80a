use lovelock::profiles::{EffectProfile, ProfileBook, DEFAULT_PROFILE_NAME};
use lovelock::settings::TriggerSettingsSet;

/// A trigger's effect is modelled by its strength.
type Settings = TriggerSettingsSet<u8, ()>;

fn defaults() -> Settings {
    TriggerSettingsSet::default_with(10, (), (), ())
}

/// A fresh profile: defaults with a felt death effect.
fn blank() -> Settings {
    let mut s = defaults();
    s.death.enabled = true;
    s.death.actions = 12;
    s
}

struct App {
    book: ProfileBook<Settings>,
    live: Settings,
    resting: u8,
}

impl App {
    fn new() -> Self {
        App {
            book: ProfileBook::single(EffectProfile {
                name: DEFAULT_PROFILE_NAME.to_owned(),
                settings: defaults(),
                resting_strength: 0,
            }),
            live: defaults(),
            resting: 0,
        }
    }
    fn add_blank_profile(&mut self) {
        self.book.add_blank_profile(blank(), &mut self.live, &mut self.resting);
    }
    fn switch_profile(&mut self, index: usize) -> bool {
        self.book.switch_profile(index, &mut self.live, &mut self.resting)
    }
    fn duplicate_profile(&mut self, index: usize) -> bool {
        self.book.duplicate_profile(index, &mut self.live, &mut self.resting)
    }
    fn delete_profile(&mut self, index: usize) -> bool {
        self.book.delete_profile(index, &mut self.live, &mut self.resting)
    }
}

#[test]
fn switching_profiles_swaps_the_live_effects_and_keeps_edits() {
    let mut state = App::new();
    state.live.kill.enabled = true;
    state.resting = 6;

    state.add_blank_profile();
    assert_eq!(state.book.active, 1);
    assert!(!state.live.kill.enabled, "a fresh profile starts from defaults");
    assert!(state.live.death.enabled, "a fresh profile has the death effect on");
    assert!(state.live.death.actions > 0, "a fresh profile's death effect is actually felt");
    assert_eq!(state.resting, 0);

    state.live.death.actions = 15;

    state.switch_profile(0);
    assert_eq!(state.book.active, 0);
    assert!(state.live.kill.enabled, "first profile's effects came back");
    assert_eq!(state.resting, 6);

    state.switch_profile(1);
    assert_eq!(state.live.death.actions, 15, "the edit made while profile 1 was active was retained");
}

#[test]
fn duplicate_copies_effects_and_delete_keeps_selection_and_last_profile() {
    let mut state = App::new();
    state.live.assist.enabled = true;

    state.duplicate_profile(0);
    assert!(state.live.assist.enabled, "the copy started from the source's effects");
    state.live.assist.enabled = false;

    state.add_blank_profile();
    assert_eq!(state.book.active, 2);
    assert_eq!(state.book.profiles.len(), 3);

    state.delete_profile(0);
    assert_eq!(state.book.profiles.len(), 2);
    assert_eq!(state.book.active, 1, "active followed its profile down");

    state.delete_profile(1);
    assert_eq!(state.book.profiles.len(), 1);
    assert_eq!(state.book.active, 0);
    assert!(!state.live.assist.enabled, "the surviving profile is the edited copy, and its effects are live");

    state.delete_profile(0);
    assert_eq!(state.book.profiles.len(), 1);
}

#[test]
fn a_new_profile_drops_straight_into_renaming_itself() {
    let mut state = App::new();
    state.add_blank_profile();
    assert_eq!(state.book.profiles.len(), 2);
    assert_eq!(state.book.active, 1);
    assert_eq!(state.book.renaming, Some(1), "the new chip is being renamed");

    state.book.profiles[1].name = "   ".to_owned();
    state.book.commit_rename(1);
    assert_eq!(state.book.renaming, None);
    assert!(!state.book.profiles[1].name.trim().is_empty());
    assert_ne!(state.book.profiles[0].name, state.book.profiles[1].name);
}

#[test]
fn begin_rename_marks_the_chip_and_ignores_an_out_of_range_index() {
    let mut state = App::new();
    state.add_blank_profile();
    state.book.begin_rename(0);
    assert_eq!(state.book.renaming, Some(0));

    state.switch_profile(0);
    assert_eq!(state.book.renaming, None);

    state.book.begin_rename(99);
    assert_eq!(state.book.renaming, None);
}

#[test]
fn multiple_effect_profiles_round_trip_with_the_active_one() {
    let mut original = App::new();
    original.live.death.actions = 4;
    original.resting = 3;
    original.duplicate_profile(0);
    original.live.death.actions = 17;
    original.live.kill.enabled = true;
    original.resting = 9;
    original.add_blank_profile();
    original.switch_profile(1);

    // Saving stores the live settings into the active profile first.
    let mut saved = original.book.clone();
    let mut live = original.live.clone();
    let mut resting = original.resting;
    saved.switch_profile(0, &mut live, &mut resting);
    saved.switch_profile(1, &mut live, &mut resting);
    let fallback = EffectProfile { name: DEFAULT_PROFILE_NAME.to_owned(), settings: defaults(), resting_strength: 0 };
    let restored = ProfileBook::restored(saved.profiles, saved.active, fallback);

    assert_eq!(restored.profiles.len(), 3);
    assert_eq!(restored.active, 1);
    assert_eq!(restored.profiles[0].name, DEFAULT_PROFILE_NAME);
    assert_eq!(restored.profiles[0].settings.death.actions, 4);
    assert_eq!(restored.profiles[0].resting_strength, 3);
    assert_eq!(restored.profiles[1].settings.death.actions, 17);
    assert!(restored.profiles[1].settings.kill.enabled);
    assert_eq!(restored.profiles[1].resting_strength, 9);
    assert!(!restored.profiles[2].settings.kill.enabled);
}

#[test]
fn a_state_file_without_a_profiles_key_loads_as_one_default_profile() {
    let mut top_level = defaults();
    top_level.kill.enabled = true;
    let fallback = EffectProfile { name: DEFAULT_PROFILE_NAME.to_owned(), settings: top_level, resting_strength: 5 };
    let restored = ProfileBook::restored(Vec::new(), 0, fallback);
    assert_eq!(restored.profiles.len(), 1);
    assert_eq!(restored.profiles[0].name, DEFAULT_PROFILE_NAME);
    assert_eq!(restored.active, 0);
    assert!(restored.profiles[0].settings.kill.enabled);
    assert_eq!(restored.profiles[0].resting_strength, 5);
}

#[test]
fn a_saved_active_profile_index_past_the_end_is_clamped() {
    let mut original = App::new();
    original.add_blank_profile();
    let fallback = EffectProfile { name: DEFAULT_PROFILE_NAME.to_owned(), settings: defaults(), resting_strength: 0 };
    let restored = ProfileBook::restored(original.book.profiles, 99, fallback);
    assert_eq!(restored.active, restored.profiles.len() - 1);
}

#[test]
fn resting_strength_is_clamped_on_restore() {
    let fallback = EffectProfile { name: DEFAULT_PROFILE_NAME.to_owned(), settings: defaults(), resting_strength: 250 };
    let restored = ProfileBook::restored(Vec::new(), 0, fallback);
    assert_eq!(restored.profiles[0].resting_strength, 20);
}

// Further cases of the same rules.

#[test]
fn unique_names_count_up_from_two_past_taken_names() {
    let mut state = App::new();
    assert_eq!(state.book.unique_profile_name("Default"), "Default 2");
    assert_eq!(state.book.unique_profile_name("Fresh"), "Fresh");
    state.add_blank_profile();
    assert_eq!(state.book.profiles[1].name, "New profile");
    state.add_blank_profile();
    assert_eq!(state.book.profiles[2].name, "New profile 2");
    state.duplicate_profile(0);
    assert_eq!(state.book.profiles[3].name, "Default copy");
    state.duplicate_profile(0);
    assert_eq!(state.book.profiles[4].name, "Default copy 2");
    assert!(!state.duplicate_profile(9));
    assert_eq!(state.book.profiles.len(), 5);
}

#[test]
fn a_rename_keeps_the_trimmed_name() {
    let mut state = App::new();
    state.book.profiles[0].name = "  Chill  ".to_owned();
    state.book.commit_rename(0);
    assert_eq!(state.book.profiles[0].name, "Chill");
    assert!(!state.book.is_lone_default());
    state.book.profiles[0].name = DEFAULT_PROFILE_NAME.to_owned();
    assert!(state.book.is_lone_default());
}

#[test]
fn switching_to_the_active_or_a_missing_profile_does_nothing() {
    let mut state = App::new();
    state.live.kill.enabled = true;
    assert!(!state.switch_profile(0));
    assert!(!state.switch_profile(3));
    assert!(state.live.kill.enabled);
    assert!(!state.book.profiles[0].settings.kill.enabled, "nothing was stored either");
}
