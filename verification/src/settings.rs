//! Every trigger's settings: whether it is on, the effect it plays, the
//! ability filter of the ability triggers, the intensity curves of the
//! amount triggers, and the overlap-priority order.
use vstd::prelude::*;

use crate::triggers::{
    default_order, normalized_priority_order, normalize_priority_order, priority_order_default,
    priority_rank, spec_rank, AbilityFilter, TriggerKind,
};

verus! {

/// One trigger: whether it is enabled and the effect `A` it plays.
#[derive(Clone, Debug, PartialEq)]
pub struct TriggerSettings<A> {
    pub enabled: bool,
    pub actions: A,
}

#[derive(Clone, Debug, PartialEq)]
pub struct AbilityTriggerSettings<A> {
    pub trigger: TriggerSettings<A>,
    pub ability_filter: AbilityFilter,
}

/// The settings of every trigger. `A` is the effect a trigger plays and `C`
/// the intensity curve an amount trigger maps its windowed total through.
#[derive(Clone, Debug, PartialEq)]
pub struct TriggerSettingsSet<A, C> {
    pub death: TriggerSettings<A>,
    pub kill: TriggerSettings<A>,
    pub assist: TriggerSettings<A>,
    pub ability_use: AbilityTriggerSettings<A>,
    pub ability_cooldown_ready: AbilityTriggerSettings<A>,
    pub damage_taken: TriggerSettings<A>,
    pub healing_received: TriggerSettings<A>,
    pub ally_healed: TriggerSettings<A>,
    pub ally_shielded: TriggerSettings<A>,
    pub damage_given: TriggerSettings<A>,
    pub soul_deny: TriggerSettings<A>,
    pub soul_secure: TriggerSettings<A>,
    pub parry_success: TriggerSettings<A>,
    pub parry_fail: TriggerSettings<A>,
    pub objective_guardian: TriggerSettings<A>,
    pub objective_walker: TriggerSettings<A>,
    pub objective_base_guardian: TriggerSettings<A>,
    pub objective_shrine: TriggerSettings<A>,
    pub objective_patron_weakened: TriggerSettings<A>,
    pub game_won: TriggerSettings<A>,
    pub damage_taken_intensity: TriggerSettings<A>,
    pub damage_taken_curve: C,
    pub healing_received_curve: C,
    pub damage_given_curve: C,
    /// Highest-priority trigger kind first.
    pub priority_order: Vec<TriggerKind>,
    /// The death effect holds the toy until the respawn instead of running
    /// for its configured duration.
    pub death_hold_until_respawn: bool,
    /// Ability and support triggers are ignored between death and respawn.
    pub suppress_triggers_while_dead: bool,
}

impl<A, C> TriggerSettingsSet<A, C> {
    /// The settings of the trigger `kind`.
    pub open spec fn settings(&self, kind: TriggerKind) -> TriggerSettings<A> {
        match kind {
            TriggerKind::Death => self.death,
            TriggerKind::Kill => self.kill,
            TriggerKind::Assist => self.assist,
            TriggerKind::AbilityUse => self.ability_use.trigger,
            TriggerKind::AbilityCooldownReady => self.ability_cooldown_ready.trigger,
            TriggerKind::DamageTaken => self.damage_taken,
            TriggerKind::HealingReceived => self.healing_received,
            TriggerKind::AllyHealed => self.ally_healed,
            TriggerKind::AllyShielded => self.ally_shielded,
            TriggerKind::DamageGiven => self.damage_given,
            TriggerKind::SoulDeny => self.soul_deny,
            TriggerKind::SoulSecure => self.soul_secure,
            TriggerKind::ParrySuccess => self.parry_success,
            TriggerKind::ParryFail => self.parry_fail,
            TriggerKind::ObjectiveGuardian => self.objective_guardian,
            TriggerKind::ObjectiveWalker => self.objective_walker,
            TriggerKind::ObjectiveBaseGuardian => self.objective_base_guardian,
            TriggerKind::ObjectiveShrine => self.objective_shrine,
            TriggerKind::ObjectivePatronWeakened => self.objective_patron_weakened,
            TriggerKind::GameWon => self.game_won,
            TriggerKind::DamageTakenIntensity => self.damage_taken_intensity,
        }
    }

    /// The same settings with the effect of `kind` replaced by `a`.
    pub open spec fn with_actions(self, kind: TriggerKind, a: A) -> Self {
        match kind {
            TriggerKind::Death => TriggerSettingsSet { death: TriggerSettings { actions: a, ..self.death }, ..self },
            TriggerKind::Kill => TriggerSettingsSet { kill: TriggerSettings { actions: a, ..self.kill }, ..self },
            TriggerKind::Assist => TriggerSettingsSet { assist: TriggerSettings { actions: a, ..self.assist }, ..self },
            TriggerKind::AbilityUse => TriggerSettingsSet { ability_use: AbilityTriggerSettings { trigger: TriggerSettings { actions: a, ..self.ability_use.trigger }, ..self.ability_use }, ..self },
            TriggerKind::AbilityCooldownReady => TriggerSettingsSet { ability_cooldown_ready: AbilityTriggerSettings { trigger: TriggerSettings { actions: a, ..self.ability_cooldown_ready.trigger }, ..self.ability_cooldown_ready }, ..self },
            TriggerKind::DamageTaken => TriggerSettingsSet { damage_taken: TriggerSettings { actions: a, ..self.damage_taken }, ..self },
            TriggerKind::HealingReceived => TriggerSettingsSet { healing_received: TriggerSettings { actions: a, ..self.healing_received }, ..self },
            TriggerKind::AllyHealed => TriggerSettingsSet { ally_healed: TriggerSettings { actions: a, ..self.ally_healed }, ..self },
            TriggerKind::AllyShielded => TriggerSettingsSet { ally_shielded: TriggerSettings { actions: a, ..self.ally_shielded }, ..self },
            TriggerKind::DamageGiven => TriggerSettingsSet { damage_given: TriggerSettings { actions: a, ..self.damage_given }, ..self },
            TriggerKind::SoulDeny => TriggerSettingsSet { soul_deny: TriggerSettings { actions: a, ..self.soul_deny }, ..self },
            TriggerKind::SoulSecure => TriggerSettingsSet { soul_secure: TriggerSettings { actions: a, ..self.soul_secure }, ..self },
            TriggerKind::ParrySuccess => TriggerSettingsSet { parry_success: TriggerSettings { actions: a, ..self.parry_success }, ..self },
            TriggerKind::ParryFail => TriggerSettingsSet { parry_fail: TriggerSettings { actions: a, ..self.parry_fail }, ..self },
            TriggerKind::ObjectiveGuardian => TriggerSettingsSet { objective_guardian: TriggerSettings { actions: a, ..self.objective_guardian }, ..self },
            TriggerKind::ObjectiveWalker => TriggerSettingsSet { objective_walker: TriggerSettings { actions: a, ..self.objective_walker }, ..self },
            TriggerKind::ObjectiveBaseGuardian => TriggerSettingsSet { objective_base_guardian: TriggerSettings { actions: a, ..self.objective_base_guardian }, ..self },
            TriggerKind::ObjectiveShrine => TriggerSettingsSet { objective_shrine: TriggerSettings { actions: a, ..self.objective_shrine }, ..self },
            TriggerKind::ObjectivePatronWeakened => TriggerSettingsSet { objective_patron_weakened: TriggerSettings { actions: a, ..self.objective_patron_weakened }, ..self },
            TriggerKind::GameWon => TriggerSettingsSet { game_won: TriggerSettings { actions: a, ..self.game_won }, ..self },
            TriggerKind::DamageTakenIntensity => TriggerSettingsSet { damage_taken_intensity: TriggerSettings { actions: a, ..self.damage_taken_intensity }, ..self },
        }
    }

    /// The ability filter of an ability trigger; other kinds have none.
    pub open spec fn spec_ability_filter(&self, kind: TriggerKind) -> Option<AbilityFilter> {
        match kind {
            TriggerKind::AbilityUse => Some(self.ability_use.ability_filter),
            TriggerKind::AbilityCooldownReady => Some(self.ability_cooldown_ready.ability_filter),
            _ => None,
        }
    }

    /// The intensity curve of an amount trigger; other kinds have none.
    pub open spec fn spec_amount_curve(&self, kind: TriggerKind) -> Option<C> {
        match kind {
            TriggerKind::DamageTaken => Some(self.damage_taken_curve),
            TriggerKind::HealingReceived => Some(self.healing_received_curve),
            TriggerKind::DamageGiven => Some(self.damage_given_curve),
            _ => None,
        }
    }

    pub fn get(&self, kind: TriggerKind) -> (r: &TriggerSettings<A>)
        ensures
            *r == self.settings(kind),
    {
        match kind {
            TriggerKind::Death => &self.death,
            TriggerKind::Kill => &self.kill,
            TriggerKind::Assist => &self.assist,
            TriggerKind::AbilityUse => &self.ability_use.trigger,
            TriggerKind::AbilityCooldownReady => &self.ability_cooldown_ready.trigger,
            TriggerKind::DamageTaken => &self.damage_taken,
            TriggerKind::HealingReceived => &self.healing_received,
            TriggerKind::AllyHealed => &self.ally_healed,
            TriggerKind::AllyShielded => &self.ally_shielded,
            TriggerKind::DamageGiven => &self.damage_given,
            TriggerKind::SoulDeny => &self.soul_deny,
            TriggerKind::SoulSecure => &self.soul_secure,
            TriggerKind::ParrySuccess => &self.parry_success,
            TriggerKind::ParryFail => &self.parry_fail,
            TriggerKind::ObjectiveGuardian => &self.objective_guardian,
            TriggerKind::ObjectiveWalker => &self.objective_walker,
            TriggerKind::ObjectiveBaseGuardian => &self.objective_base_guardian,
            TriggerKind::ObjectiveShrine => &self.objective_shrine,
            TriggerKind::ObjectivePatronWeakened => &self.objective_patron_weakened,
            TriggerKind::GameWon => &self.game_won,
            TriggerKind::DamageTakenIntensity => &self.damage_taken_intensity,
        }
    }

    pub fn ability_filter(&self, kind: TriggerKind) -> (r: Option<&AbilityFilter>)
        ensures
            r is Some == self.spec_ability_filter(kind) is Some,
            r matches Some(f) ==> self.spec_ability_filter(kind) == Some(*f),
    {
        match kind {
            TriggerKind::AbilityUse => Some(&self.ability_use.ability_filter),
            TriggerKind::AbilityCooldownReady => Some(&self.ability_cooldown_ready.ability_filter),
            _ => None,
        }
    }

    pub fn amount_curve(&self, kind: TriggerKind) -> (r: Option<&C>)
        ensures
            r is Some == self.spec_amount_curve(kind) is Some,
            r matches Some(c) ==> self.spec_amount_curve(kind) == Some(*c),
    {
        match kind {
            TriggerKind::DamageTaken => Some(&self.damage_taken_curve),
            TriggerKind::HealingReceived => Some(&self.healing_received_curve),
            TriggerKind::DamageGiven => Some(&self.damage_given_curve),
            _ => None,
        }
    }

    /// Position of `kind` in the overlap-priority order; lower is higher
    /// priority, and a kind missing from the order sorts last.
    pub fn priority_rank(&self, kind: TriggerKind) -> (r: usize)
        ensures
            r == spec_rank(self.priority_order@, kind),
    {
        priority_rank(&self.priority_order, kind)
    }

    /// Drops duplicates and retired kinds from the priority order and
    /// appends every live kind it lacks.
    pub fn normalize_priority_order(&mut self)
        ensures
            final(self).priority_order@ == normalized_priority_order(old(self).priority_order@),
            *final(self) == (TriggerSettingsSet { priority_order: final(self).priority_order, ..*old(self) }),
    {
        self.priority_order = normalize_priority_order(&self.priority_order);
    }

    fn set_actions(&mut self, kind: TriggerKind, a: A)
        ensures
            *final(self) == old(self).with_actions(kind, a),
    {
        match kind {
            TriggerKind::Death => self.death.actions = a,
            TriggerKind::Kill => self.kill.actions = a,
            TriggerKind::Assist => self.assist.actions = a,
            TriggerKind::AbilityUse => self.ability_use.trigger.actions = a,
            TriggerKind::AbilityCooldownReady => self.ability_cooldown_ready.trigger.actions = a,
            TriggerKind::DamageTaken => self.damage_taken.actions = a,
            TriggerKind::HealingReceived => self.healing_received.actions = a,
            TriggerKind::AllyHealed => self.ally_healed.actions = a,
            TriggerKind::AllyShielded => self.ally_shielded.actions = a,
            TriggerKind::DamageGiven => self.damage_given.actions = a,
            TriggerKind::SoulDeny => self.soul_deny.actions = a,
            TriggerKind::SoulSecure => self.soul_secure.actions = a,
            TriggerKind::ParrySuccess => self.parry_success.actions = a,
            TriggerKind::ParryFail => self.parry_fail.actions = a,
            TriggerKind::ObjectiveGuardian => self.objective_guardian.actions = a,
            TriggerKind::ObjectiveWalker => self.objective_walker.actions = a,
            TriggerKind::ObjectiveBaseGuardian => self.objective_base_guardian.actions = a,
            TriggerKind::ObjectiveShrine => self.objective_shrine.actions = a,
            TriggerKind::ObjectivePatronWeakened => self.objective_patron_weakened.actions = a,
            TriggerKind::GameWon => self.game_won.actions = a,
            TriggerKind::DamageTakenIntensity => self.damage_taken_intensity.actions = a,
        }
    }
}

impl<A: Clone, C> TriggerSettingsSet<A, C> {
    /// Copies the effect of `source` onto `destination`, leaving its enable
    /// flag (and its ability filter) as they were. Copying a trigger onto
    /// itself does nothing and reports `false`.
    pub fn copy_action_settings(&mut self, source: TriggerKind, destination: TriggerKind) -> (r: bool)
        ensures
            r == (source != destination),
            !r ==> *final(self) == *old(self),
            r ==> cloned::<A>(old(self).settings(source).actions, final(self).settings(destination).actions),
            r ==> *final(self) == old(self).with_actions(destination, final(self).settings(destination).actions),
    {
        if source == destination {
            return false;
        }
        let copied = self.get(source).actions.clone();
        self.set_actions(destination, copied);
        proof {
            assert(old(self).with_actions(destination, copied).settings(destination).actions == copied);
        }
        true
    }

    /// The settings a fresh profile starts from: only the death trigger is
    /// enabled, every trigger plays a copy of `actions`, ability filters
    /// accept every slot, the priority order is the default, and both
    /// death-related options are on.
    pub fn default_with(actions: A, damage_taken_curve: C, healing_received_curve: C, damage_given_curve: C) -> (r: Self)
        ensures
            forall|k: TriggerKind| #[trigger] r.settings(k).enabled == (k == TriggerKind::Death),
            forall|k: TriggerKind| cloned::<A>(actions, #[trigger] r.settings(k).actions),
            r.ability_use.ability_filter is All,
            r.ability_cooldown_ready.ability_filter is All,
            r.priority_order@ == default_order(),
            r.death_hold_until_respawn,
            r.suppress_triggers_while_dead,
            r.damage_taken_curve == damage_taken_curve,
            r.healing_received_curve == healing_received_curve,
            r.damage_given_curve == damage_given_curve,
    {
        let death = TriggerSettings { enabled: true, actions: actions.clone() };
        let kill = TriggerSettings { enabled: false, actions: actions.clone() };
        let assist = TriggerSettings { enabled: false, actions: actions.clone() };
        let ability_use = AbilityTriggerSettings { trigger: TriggerSettings { enabled: false, actions: actions.clone() }, ability_filter: AbilityFilter::All };
        let ability_cooldown_ready = AbilityTriggerSettings { trigger: TriggerSettings { enabled: false, actions: actions.clone() }, ability_filter: AbilityFilter::All };
        let damage_taken = TriggerSettings { enabled: false, actions: actions.clone() };
        let healing_received = TriggerSettings { enabled: false, actions: actions.clone() };
        let ally_healed = TriggerSettings { enabled: false, actions: actions.clone() };
        let ally_shielded = TriggerSettings { enabled: false, actions: actions.clone() };
        let damage_given = TriggerSettings { enabled: false, actions: actions.clone() };
        let soul_deny = TriggerSettings { enabled: false, actions: actions.clone() };
        let soul_secure = TriggerSettings { enabled: false, actions: actions.clone() };
        let parry_success = TriggerSettings { enabled: false, actions: actions.clone() };
        let parry_fail = TriggerSettings { enabled: false, actions: actions.clone() };
        let objective_guardian = TriggerSettings { enabled: false, actions: actions.clone() };
        let objective_walker = TriggerSettings { enabled: false, actions: actions.clone() };
        let objective_base_guardian = TriggerSettings { enabled: false, actions: actions.clone() };
        let objective_shrine = TriggerSettings { enabled: false, actions: actions.clone() };
        let objective_patron_weakened = TriggerSettings { enabled: false, actions: actions.clone() };
        let game_won = TriggerSettings { enabled: false, actions: actions.clone() };
        let damage_taken_intensity = TriggerSettings { enabled: false, actions: actions.clone() };
        TriggerSettingsSet {
            death,
            kill,
            assist,
            ability_use,
            ability_cooldown_ready,
            damage_taken,
            healing_received,
            ally_healed,
            ally_shielded,
            damage_given,
            soul_deny,
            soul_secure,
            parry_success,
            parry_fail,
            objective_guardian,
            objective_walker,
            objective_base_guardian,
            objective_shrine,
            objective_patron_weakened,
            game_won,
            damage_taken_intensity,
            damage_taken_curve,
            healing_received_curve,
            damage_given_curve,
            priority_order: priority_order_default(),
            death_hold_until_respawn: true,
            suppress_triggers_while_dead: true,
        }
    }
}

} // verus!
