//! Effect profiles: named bundles of effect settings, one of them active,
//! and the rules for adding, copying, switching, renaming and deleting them.
use vstd::prelude::*;

use crate::text::{decimal, lemma_decimal_injective, push_decimal, push_str, trim, trimmed};

verus! {

/// The name of the profile every session starts with.
pub const DEFAULT_PROFILE_NAME: &'static str = "Default";
/// The name a new profile is given.
pub const NEW_PROFILE_NAME: &'static str = "New profile";
/// The strongest resting vibration.
pub const MAX_RESTING_STRENGTH: u8 = 20;

/// A named bundle of effect settings and a resting vibration level.
#[derive(Clone, Debug, PartialEq)]
pub struct EffectProfile<T> {
    pub name: String,
    pub settings: T,
    pub resting_strength: u8,
}

pub open spec fn profile_names<T>(ps: Seq<EffectProfile<T>>) -> Seq<Seq<char>> {
    ps.map_values(|p: EffectProfile<T>| p.name@)
}

/// `base`, a space and the number `n`.
pub open spec fn numbered(base: Seq<char>, n: nat) -> Seq<char> {
    base + " "@ + decimal(n)
}

/// `r` is the name a new profile gets for `base`: `base` itself when no
/// profile has that name, otherwise `base n` for the least `n` from 2 on
/// that no profile has.
pub open spec fn is_unique_name(names: Seq<Seq<char>>, base: Seq<char>, r: Seq<char>) -> bool {
    if !names.contains(base) {
        r == base
    } else {
        exists|n: nat|
            n >= 2 && r == numbered(base, n) && !names.contains(r) && forall|m: nat|
                2 <= m < n ==> names.contains(#[trigger] numbered(base, m))
    }
}

proof fn lemma_numbered_injective(base: Seq<char>, a: nat, b: nat)
    requires
        numbered(base, a) == numbered(base, b),
    ensures
        a == b,
{
    reveal_strlit(" ");
    let pa = numbered(base, a);
    let pb = numbered(base, b);
    assert(pa.subrange(base.len() as int + 1, pa.len() as int) =~= decimal(a));
    assert(pb.subrange(base.len() as int + 1, pb.len() as int) =~= decimal(b));
    lemma_decimal_injective(a, b);
}

/// When every `base m` with `2 <= m < n` is taken, there are at least
/// `n - 2` names.
proof fn lemma_taken_bound(names: Seq<Seq<char>>, base: Seq<char>, n: nat)
    requires
        n >= 2,
        forall|m: nat| 2 <= m < n ==> names.contains(#[trigger] numbered(base, m)),
    ensures
        n - 2 <= names.len(),
{
    let x = vstd::set_lib::set_int_range(2, n as int);
    vstd::set_lib::lemma_int_range(2, n as int);
    let f = |m: int| numbered(base, m as nat);
    let y = x.map(f);
    assert(vstd::relations::injective_on(f, x)) by {
        assert forall|a: int, b: int| x.contains(a) && x.contains(b) && #[trigger] f(a) == #[trigger] f(b) implies a
            == b by {
            lemma_numbered_injective(base, a as nat, b as nat);
        }
    }
    vstd::set_lib::lemma_map_size(x, y, f);
    assert(y.subset_of(names.to_set())) by {
        assert forall|e: Seq<char>| y.contains(e) implies names.to_set().contains(e) by {
            let a = choose|a: int| x.contains(a) && f(a) == e;
            assert(names.contains(numbered(base, a as nat)));
        }
    }
    vstd::set_lib::lemma_len_subset(y, names.to_set());
    names.lemma_cardinality_of_set();
}

/// The profiles with one of them active and, while its name is edited, the
/// one being renamed.
#[derive(Clone, Debug)]
pub struct ProfileBook<T> {
    pub profiles: Vec<EffectProfile<T>>,
    pub active: usize,
    pub renaming: Option<usize>,
}

/// `after` is `before` with the settings of profile `i` taken from `live`
/// and its resting level set to `resting`.
pub open spec fn synced<T: Clone>(
    before: Seq<EffectProfile<T>>,
    after: Seq<EffectProfile<T>>,
    i: int,
    live: T,
    resting: u8,
) -> bool {
    &&& after.len() == before.len()
    &&& forall|k: int| 0 <= k < before.len() && k != i ==> after[k] == before[k]
    &&& after[i].name == before[i].name
    &&& cloned(live, after[i].settings)
    &&& after[i].resting_strength == resting
}

/// The live settings were loaded from profile `i`.
pub open spec fn loaded<T: Clone>(ps: Seq<EffectProfile<T>>, i: int, live: T, resting: u8) -> bool {
    cloned(ps[i].settings, live) && resting == ps[i].resting_strength
}

fn name_taken<T>(profiles: &Vec<EffectProfile<T>>, candidate: &String) -> (r: bool)
    ensures
        r == profile_names(profiles@).contains(candidate@),
{
    let ghost names = profile_names(profiles@);
    let mut i: usize = 0;
    while i < profiles.len()
        invariant
            names == profile_names(profiles@),
            i <= profiles@.len(),
            forall|k: int| 0 <= k < i ==> names[k] != candidate@,
        decreases profiles@.len() - i,
    {
        if profiles[i].name.eq(candidate) {
            assert(names[i as int] == candidate@);
            return true;
        }
        i += 1;
    }
    false
}

impl<T: Clone> ProfileBook<T> {
    /// There is a profile, the active one is one of them, and so is the
    /// one being renamed.
    pub open spec fn wf(&self) -> bool {
        &&& self.profiles@.len() >= 1
        &&& self.active < self.profiles@.len()
        &&& (self.renaming matches Some(i) ==> i < self.profiles@.len())
    }

    /// A book of one profile, active.
    pub fn single(profile: EffectProfile<T>) -> (r: Self)
        ensures
            r.wf(),
            r.profiles@ == seq![profile],
            r.active == 0,
            r.renaming is None,
    {
        let mut profiles = Vec::new();
        profiles.push(profile);
        ProfileBook { profiles, active: 0, renaming: None }
    }

    /// The book a saved state restores: its profiles with their resting
    /// levels capped at 20, or `fallback` alone when there are none, and the
    /// saved active index, moved onto the last profile when it is past the
    /// end.
    pub fn restored(saved: Vec<EffectProfile<T>>, active: usize, fallback: EffectProfile<T>) -> (r: Self)
        ensures
            r.wf(),
            r.renaming is None,
            saved@.len() == 0 ==> r.profiles@ == seq![
                EffectProfile {
                    resting_strength: if fallback.resting_strength > MAX_RESTING_STRENGTH {
                        MAX_RESTING_STRENGTH
                    } else {
                        fallback.resting_strength
                    },
                    ..fallback
                },
            ],
            saved@.len() > 0 ==> r.profiles@.len() == saved@.len() && forall|k: int|
                0 <= k < saved@.len() ==> #[trigger] r.profiles@[k] == (EffectProfile {
                    resting_strength: if saved@[k].resting_strength > MAX_RESTING_STRENGTH {
                        MAX_RESTING_STRENGTH
                    } else {
                        saved@[k].resting_strength
                    },
                    ..saved@[k]
                }),
            r.active == if active < r.profiles@.len() {
                active as int
            } else {
                r.profiles@.len() - 1
            },
    {
        let mut source = saved;
        if source.len() == 0 {
            source.push(fallback);
        }
        let ghost src = source@;
        let mut profiles: Vec<EffectProfile<T>> = Vec::new();
        let mut rest = source;
        let mut taken: Vec<EffectProfile<T>> = Vec::new();
        // Profiles are taken from the back and then put back in order.
        while rest.len() > 0
            invariant
                rest@ == src.take(rest@.len() as int),
                rest@.len() <= src.len(),
                taken@.len() == src.len() - rest@.len(),
                forall|k: int|
                    0 <= k < taken@.len() ==> #[trigger] taken@[k] == (EffectProfile {
                        resting_strength: if src[src.len() - 1 - k].resting_strength > MAX_RESTING_STRENGTH {
                            MAX_RESTING_STRENGTH
                        } else {
                            src[src.len() - 1 - k].resting_strength
                        },
                        ..src[src.len() - 1 - k]
                    }),
            decreases rest@.len(),
        {
            let mut p = rest.pop().unwrap();
            if p.resting_strength > MAX_RESTING_STRENGTH {
                p.resting_strength = MAX_RESTING_STRENGTH;
            }
            taken.push(p);
            assert(rest@ =~= src.take(rest@.len() as int));
        }
        while taken.len() > 0
            invariant
                taken@.len() + profiles@.len() == src.len(),
                forall|k: int|
                    0 <= k < taken@.len() ==> #[trigger] taken@[k] == (EffectProfile {
                        resting_strength: if src[src.len() - 1 - k].resting_strength > MAX_RESTING_STRENGTH {
                            MAX_RESTING_STRENGTH
                        } else {
                            src[src.len() - 1 - k].resting_strength
                        },
                        ..src[src.len() - 1 - k]
                    }),
                forall|k: int|
                    0 <= k < profiles@.len() ==> #[trigger] profiles@[k] == (EffectProfile {
                        resting_strength: if src[k].resting_strength > MAX_RESTING_STRENGTH {
                            MAX_RESTING_STRENGTH
                        } else {
                            src[k].resting_strength
                        },
                        ..src[k]
                    }),
            decreases taken@.len(),
        {
            let ghost t = taken@.len();
            let p = taken.pop().unwrap();
            assert(src.len() - 1 - (t - 1) == profiles@.len());
            profiles.push(p);
        }
        let n = profiles.len();
        let chosen = if active < n {
            active
        } else {
            n - 1
        };
        ProfileBook { profiles, active: chosen, renaming: None }
    }

    /// Whether the book is the single profile every session starts with,
    /// which is saved in the shape that predates profiles.
    pub fn is_lone_default(&self) -> (r: bool)
        ensures
            r == (self.profiles@.len() == 1 && self.profiles@[0].name@ == DEFAULT_PROFILE_NAME@),
    {
        if self.profiles.len() != 1 {
            return false;
        }
        let mut d = String::new();
        push_str(&mut d, DEFAULT_PROFILE_NAME);
        self.profiles[0].name.eq(&d)
    }

    /// `base` when no profile has that name, otherwise the first free
    /// `base 2`, `base 3`, ...
    pub fn unique_profile_name(&self, base: &str) -> (r: String)
        requires
            self.profiles@.len() + 2 <= u64::MAX,
        ensures
            is_unique_name(profile_names(self.profiles@), base@, r@),
    {
        let ghost names = profile_names(self.profiles@);
        let mut b = String::new();
        push_str(&mut b, base);
        if !name_taken(&self.profiles, &b) {
            return b;
        }
        let mut n: u64 = 2;
        loop
            invariant
                names == profile_names(self.profiles@),
                names.len() == self.profiles@.len(),
                self.profiles@.len() + 2 <= u64::MAX,
                names.contains(base@),
                2 <= n <= self.profiles@.len() + 2,
                forall|m: nat| 2 <= m < n ==> names.contains(#[trigger] numbered(base@, m)),
            decreases self.profiles@.len() + 2 - n,
        {
            let mut candidate = String::new();
            push_str(&mut candidate, base);
            push_str(&mut candidate, " ");
            push_decimal(&mut candidate, n);
            assert(candidate@ =~= numbered(base@, n as nat));
            if !name_taken(&self.profiles, &candidate) {
                return candidate;
            }
            proof {
                lemma_taken_bound(names, base@, (n + 1) as nat);
            }
            n = n + 1;
        }
    }

    /// Stores the live settings into the active profile.
    fn sync_active(&mut self, live: &T, live_resting: u8)
        requires
            old(self).wf(),
        ensures
            final(self).wf(),
            final(self).active == old(self).active,
            final(self).renaming == old(self).renaming,
            synced(old(self).profiles@, final(self).profiles@, old(self).active as int, *live, live_resting),
    {
        let i = self.active;
        let mut p = self.profiles.remove(i);
        p.settings = live.clone();
        p.resting_strength = live_resting;
        self.profiles.insert(i, p);
    }

    /// Loads the active profile into the live settings and leaves renaming.
    fn load_active(&mut self, live: &mut T, live_resting: &mut u8)
        requires
            old(self).wf(),
        ensures
            final(self).wf(),
            final(self).profiles == old(self).profiles,
            final(self).active == old(self).active,
            final(self).renaming is None,
            loaded(final(self).profiles@, final(self).active as int, *final(live), *final(live_resting)),
    {
        *live = self.profiles[self.active].settings.clone();
        *live_resting = self.profiles[self.active].resting_strength;
        self.renaming = None;
    }

    /// Makes profile `index` the active one: the live settings are stored
    /// into the profile that was active and the new one's are loaded.
    /// Nothing happens for an index past the end or the active one.
    pub fn switch_profile(&mut self, index: usize, live: &mut T, live_resting: &mut u8) -> (switched: bool)
        requires
            old(self).wf(),
        ensures
            final(self).wf(),
            switched == (index < old(self).profiles@.len() && index != old(self).active),
            !switched ==> *final(self) == *old(self) && *final(live) == *old(live) && *final(live_resting)
                == *old(live_resting),
            switched ==> {
                &&& synced(
                    old(self).profiles@,
                    final(self).profiles@,
                    old(self).active as int,
                    *old(live),
                    *old(live_resting),
                )
                &&& final(self).active == index
                &&& final(self).renaming is None
                &&& loaded(final(self).profiles@, index as int, *final(live), *final(live_resting))
            },
    {
        if index >= self.profiles.len() || index == self.active {
            return false;
        }
        self.sync_active(live, *live_resting);
        self.active = index;
        self.load_active(live, live_resting);
        true
    }

    /// Adds `profile` at the end and loads it as the active one.
    fn push_and_load(&mut self, profile: EffectProfile<T>, live: &mut T, live_resting: &mut u8)
        requires
            old(self).wf(),
            old(self).profiles@.len() + 1 <= usize::MAX,
        ensures
            final(self).wf(),
            final(self).profiles@ == old(self).profiles@.push(profile),
            final(self).active == old(self).profiles@.len(),
            final(self).renaming is None,
            loaded(final(self).profiles@, final(self).active as int, *final(live), *final(live_resting)),
    {
        self.profiles.push(profile);
        self.active = self.profiles.len() - 1;
        self.renaming = None;
        self.load_active(live, live_resting);
    }

    /// Stores the live settings, adds `profile` at the end and makes it the
    /// active one.
    pub fn push_and_activate(&mut self, profile: EffectProfile<T>, live: &mut T, live_resting: &mut u8)
        requires
            old(self).wf(),
            old(self).profiles@.len() + 1 <= usize::MAX,
        ensures
            final(self).wf(),
            ({
                let before = old(self).profiles@;
                let after = final(self).profiles@;
                &&& synced(before, after.drop_last(), old(self).active as int, *old(live), *old(live_resting))
                &&& after.last() == profile
                &&& after.len() == before.len() + 1
            }),
            final(self).active == old(self).profiles@.len(),
            final(self).renaming is None,
            loaded(final(self).profiles@, final(self).active as int, *final(live), *final(live_resting)),
    {
        self.sync_active(live, *live_resting);
        let ghost synced_profiles = self.profiles@;
        self.push_and_load(profile, live, live_resting);
        assert(self.profiles@.drop_last() =~= synced_profiles);
    }

    /// Adds a profile with `blank` settings under a fresh name, switches to
    /// it and starts renaming it.
    pub fn add_blank_profile(&mut self, blank: T, live: &mut T, live_resting: &mut u8)
        requires
            old(self).wf(),
            old(self).profiles@.len() + 2 <= u64::MAX,
            old(self).profiles@.len() + 1 <= usize::MAX,
        ensures
            final(self).wf(),
            ({
                let before = old(self).profiles@;
                let after = final(self).profiles@;
                &&& synced(before, after.drop_last(), old(self).active as int, *old(live), *old(live_resting))
                &&& after.len() == before.len() + 1
                &&& is_unique_name(profile_names(before), NEW_PROFILE_NAME@, after.last().name@)
                &&& after.last().settings == blank
                &&& after.last().resting_strength == 0
            }),
            final(self).active == old(self).profiles@.len(),
            final(self).renaming == Some(final(self).active),
            loaded(final(self).profiles@, final(self).active as int, *final(live), *final(live_resting)),
    {
        let name = self.unique_profile_name(NEW_PROFILE_NAME);
        let profile = EffectProfile { name, settings: blank, resting_strength: 0 };
        self.push_and_activate(profile, live, live_resting);
        self.renaming = Some(self.active);
    }

    /// Adds a copy of profile `index`, named after it with " copy", and
    /// switches to it. The live settings are stored first, so copying the
    /// active profile takes in its unsaved edits; an index past the end
    /// changes nothing else.
    pub fn duplicate_profile(&mut self, index: usize, live: &mut T, live_resting: &mut u8) -> (added: bool)
        requires
            old(self).wf(),
            old(self).profiles@.len() + 2 <= u64::MAX,
            old(self).profiles@.len() + 1 <= usize::MAX,
        ensures
            final(self).wf(),
            added == (index < old(self).profiles@.len()),
            !added ==> {
                &&& synced(old(self).profiles@, final(self).profiles@, old(self).active as int, *old(live), *old(live_resting))
                &&& final(self).active == old(self).active
                &&& final(self).renaming == old(self).renaming
                &&& *final(live) == *old(live)
                &&& *final(live_resting) == *old(live_resting)
            },
            added ==> {
                let before = old(self).profiles@;
                let after = final(self).profiles@;
                let mid = after.drop_last();
                &&& synced(before, mid, old(self).active as int, *old(live), *old(live_resting))
                &&& after.len() == before.len() + 1
                &&& is_unique_name(profile_names(mid), mid[index as int].name@ + " copy"@, after.last().name@)
                &&& cloned(mid[index as int].settings, after.last().settings)
                &&& after.last().resting_strength == mid[index as int].resting_strength
                &&& final(self).active == before.len()
                &&& final(self).renaming is None
                &&& loaded(after, final(self).active as int, *final(live), *final(live_resting))
            },
    {
        self.sync_active(live, *live_resting);
        if index >= self.profiles.len() {
            return false;
        }
        let ghost mid = self.profiles@;
        let mut base = String::new();
        push_str(&mut base, self.profiles[index].name.as_str());
        push_str(&mut base, " copy");
        let name = self.unique_profile_name(base.as_str());
        let settings = self.profiles[index].settings.clone();
        let resting_strength = self.profiles[index].resting_strength;
        let profile = EffectProfile { name, settings, resting_strength };
        self.push_and_load(profile, live, live_resting);
        assert(self.profiles@.drop_last() =~= mid);
        true
    }

    /// Removes profile `index` and loads the profile that is then active:
    /// the same one when it survives, shifted down when the removed one
    /// came before it, else the new last one. The last profile is never
    /// removed, and neither is one past the end.
    pub fn delete_profile(&mut self, index: usize, live: &mut T, live_resting: &mut u8) -> (removed: bool)
        requires
            old(self).wf(),
        ensures
            final(self).wf(),
            removed == (old(self).profiles@.len() > 1 && index < old(self).profiles@.len()),
            !removed ==> *final(self) == *old(self) && *final(live) == *old(live) && *final(live_resting)
                == *old(live_resting),
            removed ==> {
                &&& final(self).profiles@ == old(self).profiles@.remove(index as int)
                &&& final(self).active == {
                    let shifted = if old(self).active > index {
                        old(self).active - 1
                    } else {
                        old(self).active as int
                    };
                    if shifted < final(self).profiles@.len() {
                        shifted
                    } else {
                        final(self).profiles@.len() - 1
                    }
                }
                &&& final(self).renaming is None
                &&& loaded(final(self).profiles@, final(self).active as int, *final(live), *final(live_resting))
            },
    {
        if self.profiles.len() <= 1 || index >= self.profiles.len() {
            return false;
        }
        self.profiles.remove(index);
        let mut active = self.active;
        if active > index {
            active = active - 1;
        }
        if active > self.profiles.len() - 1 {
            active = self.profiles.len() - 1;
        }
        self.active = active;
        self.renaming = None;
        self.load_active(live, live_resting);
        true
    }

    /// Starts renaming profile `index`; nothing happens past the end.
    pub fn begin_rename(&mut self, index: usize)
        requires
            old(self).wf(),
        ensures
            final(self).wf(),
            final(self).profiles == old(self).profiles,
            final(self).active == old(self).active,
            final(self).renaming == if index < old(self).profiles@.len() {
                Some(index)
            } else {
                old(self).renaming
            },
    {
        if index < self.profiles.len() {
            self.renaming = Some(index);
        }
    }

    /// Ends renaming: profile `index` keeps its name trimmed, or gets a
    /// fresh name when it was left blank.
    pub fn commit_rename(&mut self, index: usize)
        requires
            old(self).wf(),
            old(self).profiles@.len() + 2 <= u64::MAX,
        ensures
            final(self).wf(),
            final(self).active == old(self).active,
            final(self).renaming is None,
            final(self).profiles@.len() == old(self).profiles@.len(),
            index >= old(self).profiles@.len() ==> final(self).profiles == old(self).profiles,
            index < old(self).profiles@.len() ==> {
                let before = old(self).profiles@;
                let after = final(self).profiles@;
                &&& forall|k: int| 0 <= k < before.len() && k != index ==> after[k] == before[k]
                &&& after[index as int].settings == before[index as int].settings
                &&& after[index as int].resting_strength == before[index as int].resting_strength
                &&& if trim(before[index as int].name@).len() > 0 {
                    after[index as int].name@ == trim(before[index as int].name@)
                } else {
                    is_unique_name(profile_names(before), NEW_PROFILE_NAME@, after[index as int].name@)
                }
            },
    {
        if index < self.profiles.len() {
            let t = trimmed(self.profiles[index].name.as_str());
            let name = if t.as_str().is_empty() {
                self.unique_profile_name(NEW_PROFILE_NAME)
            } else {
                t
            };
            let mut p = self.profiles.remove(index);
            p.name = name;
            self.profiles.insert(index, p);
        }
        self.renaming = None;
    }
}

} // verus!
