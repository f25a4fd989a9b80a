//! The kinds of trigger the companion reacts to, their overlap-priority
//! order, and the ability filter of the ability triggers.
use vstd::prelude::*;

verus! {

broadcast use vstd::std_specs::btree::group_btree_axioms;

#[derive(Clone, Copy, Debug, PartialEq, Eq, Structural)]
pub enum TriggerKind {
    Death,
    Kill,
    Assist,
    AbilityUse,
    AbilityCooldownReady,
    DamageTaken,
    HealingReceived,
    AllyHealed,
    AllyShielded,
    DamageGiven,
    SoulDeny,
    SoulSecure,
    ParrySuccess,
    ParryFail,
    ObjectiveGuardian,
    ObjectiveWalker,
    ObjectiveBaseGuardian,
    ObjectiveShrine,
    ObjectivePatronWeakened,
    GameWon,
    DamageTakenIntensity,
}

/// Trigger kinds from highest to lowest default priority. A kind missing
/// here is retired: it is pruned from every saved priority order.
pub open spec fn default_order() -> Seq<TriggerKind> {
    seq![
        TriggerKind::Death,
        TriggerKind::Kill,
        TriggerKind::Assist,
        TriggerKind::AbilityUse,
        TriggerKind::AbilityCooldownReady,
        TriggerKind::DamageTaken,
        TriggerKind::HealingReceived,
        TriggerKind::AllyHealed,
        TriggerKind::DamageGiven,
        TriggerKind::ObjectiveGuardian,
        TriggerKind::ObjectiveWalker,
        TriggerKind::ObjectiveBaseGuardian,
        TriggerKind::ObjectiveShrine,
        TriggerKind::ObjectivePatronWeakened,
        TriggerKind::GameWon,
    ]
}

/// The kinds the user interface offers (those of the default order).
pub open spec fn is_live(k: TriggerKind) -> bool {
    !(k == TriggerKind::AllyShielded || k == TriggerKind::SoulDeny || k == TriggerKind::SoulSecure
        || k == TriggerKind::ParrySuccess || k == TriggerKind::ParryFail
        || k == TriggerKind::DamageTakenIntensity)
}

pub proof fn lemma_default_order_is_live()
    ensures
        forall|k: TriggerKind| is_live(k) <==> default_order().contains(k),
        no_duplicates(default_order()),
        default_order().len() == 15,
{
    assert forall|k: TriggerKind| is_live(k) implies default_order().contains(k) by {
        match k {
            TriggerKind::Death => assert(default_order()[0] == k),
            TriggerKind::Kill => assert(default_order()[1] == k),
            TriggerKind::Assist => assert(default_order()[2] == k),
            TriggerKind::AbilityUse => assert(default_order()[3] == k),
            TriggerKind::AbilityCooldownReady => assert(default_order()[4] == k),
            TriggerKind::DamageTaken => assert(default_order()[5] == k),
            TriggerKind::HealingReceived => assert(default_order()[6] == k),
            TriggerKind::AllyHealed => assert(default_order()[7] == k),
            TriggerKind::DamageGiven => assert(default_order()[8] == k),
            TriggerKind::ObjectiveGuardian => assert(default_order()[9] == k),
            TriggerKind::ObjectiveWalker => assert(default_order()[10] == k),
            TriggerKind::ObjectiveBaseGuardian => assert(default_order()[11] == k),
            TriggerKind::ObjectiveShrine => assert(default_order()[12] == k),
            TriggerKind::ObjectivePatronWeakened => assert(default_order()[13] == k),
            TriggerKind::GameWon => assert(default_order()[14] == k),
            _ => {},
        }
    }
    assert forall|k: TriggerKind| default_order().contains(k) implies is_live(k) by {
        let i = choose|i: int| 0 <= i < default_order().len() && default_order()[i] == k;
    }
}

/// No element of `s` occurs twice.
pub open spec fn no_duplicates(s: Seq<TriggerKind>) -> bool {
    forall|i: int, j: int| 0 <= i < s.len() && 0 <= j < s.len() && i != j ==> s[i] != s[j]
}

/// The first occurrence of every element of `s` that `keep` accepts, in
/// order of appearance.
pub open spec fn first_occurrences(s: Seq<TriggerKind>, drop_retired: bool) -> Seq<TriggerKind>
    decreases s.len(),
{
    if s.len() == 0 {
        Seq::empty()
    } else {
        let kept = first_occurrences(s.drop_last(), drop_retired);
        let k = s.last();
        if (!drop_retired || is_live(k)) && !kept.contains(k) {
            kept.push(k)
        } else {
            kept
        }
    }
}

/// `acc` followed by every element of `d` that is not already there, in the
/// order of `d`.
pub open spec fn append_missing(acc: Seq<TriggerKind>, d: Seq<TriggerKind>) -> Seq<TriggerKind>
    decreases d.len(),
{
    if d.len() == 0 {
        acc
    } else {
        let a = append_missing(acc, d.drop_last());
        if a.contains(d.last()) {
            a
        } else {
            a.push(d.last())
        }
    }
}

/// An order with duplicates (and, when asked, retired kinds) dropped, and
/// every kind of `defaults` it lacks appended in the order of `defaults`.
pub open spec fn normalized_order(s: Seq<TriggerKind>, defaults: Seq<TriggerKind>, drop_retired: bool) -> Seq<
    TriggerKind,
> {
    append_missing(first_occurrences(s, drop_retired), defaults)
}

/// The live overlap-priority order the user interface ranks by.
pub open spec fn normalized_priority_order(s: Seq<TriggerKind>) -> Seq<TriggerKind> {
    normalized_order(s, default_order(), true)
}

proof fn lemma_first_occurrences(s: Seq<TriggerKind>, drop_retired: bool)
    ensures
        no_duplicates(first_occurrences(s, drop_retired)),
        forall|k: TriggerKind| #[trigger]
            first_occurrences(s, drop_retired).contains(k) <==> (s.contains(k) && (!drop_retired
                || is_live(k))),
    decreases s.len(),
{
    if s.len() > 0 {
        let p = s.drop_last();
        lemma_first_occurrences(p, drop_retired);
        let kept = first_occurrences(p, drop_retired);
        let k = s.last();
        assert forall|x: TriggerKind| #[trigger] s.contains(x) <==> (p.contains(x) || x == k) by {
            if s.contains(x) {
                let i = choose|i: int| 0 <= i < s.len() && s[i] == x;
                if i < s.len() - 1 {
                    assert(p[i] == x);
                }
            }
            if p.contains(x) {
                let i = choose|i: int| 0 <= i < p.len() && p[i] == x;
                assert(s[i] == x);
            }
            if x == k {
                assert(s[s.len() - 1] == x);
            }
        }
        if (!drop_retired || is_live(k)) && !kept.contains(k) {
            let r = kept.push(k);
            assert forall|x: TriggerKind| #[trigger] r.contains(x) <==> (kept.contains(x) || x == k) by {
                if r.contains(x) {
                    let i = choose|i: int| 0 <= i < r.len() && r[i] == x;
                    if i < kept.len() {
                        assert(kept[i] == x);
                    }
                }
                if kept.contains(x) {
                    let i = choose|i: int| 0 <= i < kept.len() && kept[i] == x;
                    assert(r[i] == x);
                }
                if x == k {
                    assert(r[r.len() - 1] == x);
                }
            }
            assert forall|i: int, j: int| 0 <= i < r.len() && 0 <= j < r.len() && i != j implies r[i] != r[j] by {
                if i < kept.len() && j < kept.len() {
                } else if i == kept.len() {
                    assert(kept[j] == r[j]);
                } else {
                    assert(kept[i] == r[i]);
                }
            }
        }
    }
}

proof fn lemma_append_missing(acc: Seq<TriggerKind>, d: Seq<TriggerKind>)
    requires
        no_duplicates(acc),
    ensures
        no_duplicates(append_missing(acc, d)),
        forall|k: TriggerKind| #[trigger]
            append_missing(acc, d).contains(k) <==> (acc.contains(k) || d.contains(k)),
        (forall|k: TriggerKind| d.contains(k) ==> acc.contains(k)) ==> append_missing(acc, d) == acc,
    decreases d.len(),
{
    if d.len() > 0 {
        let p = d.drop_last();
        lemma_append_missing(acc, p);
        let a = append_missing(acc, p);
        let k = d.last();
        assert forall|x: TriggerKind| #[trigger] d.contains(x) <==> (p.contains(x) || x == k) by {
            if d.contains(x) {
                let i = choose|i: int| 0 <= i < d.len() && d[i] == x;
                if i < d.len() - 1 {
                    assert(p[i] == x);
                }
            }
            if p.contains(x) {
                let i = choose|i: int| 0 <= i < p.len() && p[i] == x;
                assert(d[i] == x);
            }
            if x == k {
                assert(d[d.len() - 1] == x);
            }
        }
        if (forall|x: TriggerKind| d.contains(x) ==> acc.contains(x)) {
            assert forall|x: TriggerKind| p.contains(x) implies acc.contains(x) by {
                assert(d.contains(x));
            }
            assert(d.contains(k));
        }
        if !a.contains(k) {
            let r = a.push(k);
            assert forall|x: TriggerKind| #[trigger] r.contains(x) <==> (a.contains(x) || x == k) by {
                if r.contains(x) {
                    let i = choose|i: int| 0 <= i < r.len() && r[i] == x;
                    if i < a.len() {
                        assert(a[i] == x);
                    }
                }
                if a.contains(x) {
                    let i = choose|i: int| 0 <= i < a.len() && a[i] == x;
                    assert(r[i] == x);
                }
                if x == k {
                    assert(r[r.len() - 1] == x);
                }
            }
            assert forall|i: int, j: int| 0 <= i < r.len() && 0 <= j < r.len() && i != j implies r[i] != r[j] by {
                if i < a.len() && j < a.len() {
                } else if i == a.len() {
                    assert(a[j] == r[j]);
                } else {
                    assert(a[i] == r[i]);
                }
            }
        }
    }
}

proof fn lemma_first_occurrences_fixed(t: Seq<TriggerKind>, drop_retired: bool)
    requires
        no_duplicates(t),
        drop_retired ==> forall|i: int| 0 <= i < t.len() ==> is_live(#[trigger] t[i]),
    ensures
        first_occurrences(t, drop_retired) == t,
    decreases t.len(),
{
    if t.len() > 0 {
        let p = t.drop_last();
        assert forall|i: int, j: int| 0 <= i < p.len() && 0 <= j < p.len() && i != j implies p[i] != p[j] by {
            assert(p[i] == t[i] && p[j] == t[j]);
        }
        if drop_retired {
            assert forall|i: int| 0 <= i < p.len() implies is_live(#[trigger] p[i]) by {
                assert(p[i] == t[i]);
            }
        }
        lemma_first_occurrences_fixed(p, drop_retired);
        lemma_first_occurrences(p, drop_retired);
        assert(!p.contains(t.last())) by {
            if p.contains(t.last()) {
                let i = choose|i: int| 0 <= i < p.len() && p[i] == t.last();
                assert(t[i] == t[t.len() - 1]);
            }
        }
        assert(drop_retired ==> is_live(t[t.len() - 1]));
        assert(p.push(t.last()) =~= t);
    }
}

impl TriggerKind {
    pub fn label(self) -> (r: &'static str)
        ensures
            r@ == kind_label(self),
    {
        match self {
            TriggerKind::Death => "death",
            TriggerKind::Kill => "kill",
            TriggerKind::Assist => "assist",
            TriggerKind::AbilityUse => "ability use",
            TriggerKind::AbilityCooldownReady => "ability cooldown ready",
            TriggerKind::DamageTaken => "damage taken",
            TriggerKind::HealingReceived => "healing received",
            TriggerKind::AllyHealed => "ally healed",
            TriggerKind::AllyShielded => "ally shielded",
            TriggerKind::DamageGiven => "damage given",
            TriggerKind::SoulDeny => "soul deny",
            TriggerKind::SoulSecure => "soul secure",
            TriggerKind::ParrySuccess => "parry success",
            TriggerKind::ParryFail => "got parried",
            TriggerKind::ObjectiveGuardian => "guardian destroyed",
            TriggerKind::ObjectiveWalker => "walker destroyed",
            TriggerKind::ObjectiveBaseGuardian => "base guardian destroyed",
            TriggerKind::ObjectiveShrine => "shrine destroyed",
            TriggerKind::ObjectivePatronWeakened => "patron weakened",
            TriggerKind::GameWon => "game won",
            TriggerKind::DamageTakenIntensity => "damage intensity",
        }
    }

    /// Whether this trigger's strength comes from an intensity curve instead
    /// of a fixed or random vibrate setting.
    pub fn is_intensity_curve(self) -> (r: bool)
        ensures
            r == (self == TriggerKind::DamageTaken || self == TriggerKind::HealingReceived || self
                == TriggerKind::DamageGiven),
    {
        match self {
            TriggerKind::DamageTaken | TriggerKind::HealingReceived | TriggerKind::DamageGiven => true,
            _ => false,
        }
    }

    /// The noun for an intensity curve's windowed amount.
    pub fn intensity_noun(self) -> (r: &'static str)
        ensures
            self == TriggerKind::HealingReceived ==> r@ == "healing"@,
            self == TriggerKind::DamageGiven ==> r@ == "damage dealt"@,
            self != TriggerKind::HealingReceived && self != TriggerKind::DamageGiven ==> r@ == "damage"@,
    {
        match self {
            TriggerKind::HealingReceived => "healing",
            TriggerKind::DamageGiven => "damage dealt",
            _ => "damage",
        }
    }

    /// The kinds a dead player's spectated teammates can set off, which are
    /// ignored while a death effect waits for the respawn.
    pub fn suppressed_while_dead(self) -> (r: bool)
        ensures
            r == spec_suppressed_while_dead(self),
    {
        match self {
            TriggerKind::AbilityUse | TriggerKind::AbilityCooldownReady | TriggerKind::Assist
            | TriggerKind::AllyHealed | TriggerKind::AllyShielded | TriggerKind::SoulDeny
            | TriggerKind::SoulSecure | TriggerKind::ParrySuccess | TriggerKind::ParryFail
            | TriggerKind::DamageTakenIntensity => true,
            _ => false,
        }
    }
}

pub open spec fn spec_suppressed_while_dead(k: TriggerKind) -> bool {
    k == TriggerKind::AbilityUse || k == TriggerKind::AbilityCooldownReady || k == TriggerKind::Assist
        || k == TriggerKind::AllyHealed || k == TriggerKind::AllyShielded || k == TriggerKind::SoulDeny
        || k == TriggerKind::SoulSecure || k == TriggerKind::ParrySuccess || k == TriggerKind::ParryFail
        || k == TriggerKind::DamageTakenIntensity
}

pub open spec fn kind_label(k: TriggerKind) -> Seq<char> {
    match k {
        TriggerKind::Death => "death"@,
        TriggerKind::Kill => "kill"@,
        TriggerKind::Assist => "assist"@,
        TriggerKind::AbilityUse => "ability use"@,
        TriggerKind::AbilityCooldownReady => "ability cooldown ready"@,
        TriggerKind::DamageTaken => "damage taken"@,
        TriggerKind::HealingReceived => "healing received"@,
        TriggerKind::AllyHealed => "ally healed"@,
        TriggerKind::AllyShielded => "ally shielded"@,
        TriggerKind::DamageGiven => "damage given"@,
        TriggerKind::SoulDeny => "soul deny"@,
        TriggerKind::SoulSecure => "soul secure"@,
        TriggerKind::ParrySuccess => "parry success"@,
        TriggerKind::ParryFail => "got parried"@,
        TriggerKind::ObjectiveGuardian => "guardian destroyed"@,
        TriggerKind::ObjectiveWalker => "walker destroyed"@,
        TriggerKind::ObjectiveBaseGuardian => "base guardian destroyed"@,
        TriggerKind::ObjectiveShrine => "shrine destroyed"@,
        TriggerKind::ObjectivePatronWeakened => "patron weakened"@,
        TriggerKind::GameWon => "game won"@,
        TriggerKind::DamageTakenIntensity => "damage intensity"@,
    }
}

/// The trigger whose settings are offered as the copy source when editing
/// `destination`: the death trigger, or for the death trigger itself the
/// ability-use trigger.
pub fn first_copy_source(destination: TriggerKind) -> (r: TriggerKind)
    ensures
        destination == TriggerKind::Death ==> r == TriggerKind::AbilityUse,
        destination != TriggerKind::Death ==> r == TriggerKind::Death,
        r != destination,
{
    match destination {
        TriggerKind::Death => TriggerKind::AbilityUse,
        _ => TriggerKind::Death,
    }
}

/// The default overlap-priority order, highest priority first.
pub fn priority_order_default() -> (r: Vec<TriggerKind>)
    ensures
        r@ == default_order(),
{
    let r = vec![
        TriggerKind::Death,
        TriggerKind::Kill,
        TriggerKind::Assist,
        TriggerKind::AbilityUse,
        TriggerKind::AbilityCooldownReady,
        TriggerKind::DamageTaken,
        TriggerKind::HealingReceived,
        TriggerKind::AllyHealed,
        TriggerKind::DamageGiven,
        TriggerKind::ObjectiveGuardian,
        TriggerKind::ObjectiveWalker,
        TriggerKind::ObjectiveBaseGuardian,
        TriggerKind::ObjectiveShrine,
        TriggerKind::ObjectivePatronWeakened,
        TriggerKind::GameWon,
    ];
    assert(r@ =~= default_order());
    r
}

pub fn is_live_kind(k: TriggerKind) -> (r: bool)
    ensures
        r == is_live(k),
{
    !matches!(k, TriggerKind::AllyShielded | TriggerKind::SoulDeny | TriggerKind::SoulSecure
        | TriggerKind::ParrySuccess | TriggerKind::ParryFail | TriggerKind::DamageTakenIntensity)
}

pub fn contains_kind(s: &Vec<TriggerKind>, k: TriggerKind) -> (r: bool)
    ensures
        r == s@.contains(k),
{
    let mut i: usize = 0;
    while i < s.len()
        invariant
            i <= s@.len(),
            forall|j: int| 0 <= j < i ==> s@[j] != k,
        decreases s@.len() - i,
    {
        if s[i] == k {
            return true;
        }
        i += 1;
    }
    false
}

/// Position of `kind` in `order`: lower is higher priority; a kind the order
/// lacks sorts last (`usize::MAX`).
pub fn priority_rank(order: &Vec<TriggerKind>, kind: TriggerKind) -> (r: usize)
    ensures
        r == spec_rank(order@, kind),
{
    let mut i: usize = 0;
    while i < order.len()
        invariant
            i <= order@.len(),
            forall|j: int| 0 <= j < i ==> order@[j] != kind,
        decreases order@.len() - i,
    {
        if order[i] == kind {
            proof {
                lemma_rank_is_first(order@, kind, i as int);
            }
            return i;
        }
        i += 1;
    }
    proof {
        lemma_rank_absent(order@, kind);
    }
    usize::MAX
}

/// The index of the first occurrence of `k` in `s`, or `usize::MAX`.
pub open spec fn spec_rank(s: Seq<TriggerKind>, k: TriggerKind) -> usize
    decreases s.len(),
{
    if s.len() == 0 {
        usize::MAX
    } else if s[0] == k {
        0
    } else {
        let r = spec_rank(s.drop_first(), k);
        if r == usize::MAX || r + 1 >= usize::MAX {
            usize::MAX
        } else {
            (r + 1) as usize
        }
    }
}

proof fn lemma_rank_is_first(s: Seq<TriggerKind>, k: TriggerKind, i: int)
    requires
        0 <= i < s.len(),
        s.len() <= usize::MAX,
        s[i] == k,
        forall|j: int| 0 <= j < i ==> s[j] != k,
    ensures
        spec_rank(s, k) == i,
    decreases i,
{
    if i > 0 {
        lemma_rank_is_first(s.drop_first(), k, i - 1);
    }
}

proof fn lemma_rank_absent(s: Seq<TriggerKind>, k: TriggerKind)
    requires
        forall|j: int| 0 <= j < s.len() ==> s[j] != k,
    ensures
        spec_rank(s, k) == usize::MAX,
    decreases s.len(),
{
    if s.len() > 0 {
        lemma_rank_absent(s.drop_first(), k);
    }
}

/// Drops duplicates (and, when `drop_retired` is set, retired kinds) from
/// `order`, then appends every kind of `defaults` it lacks.
pub fn normalize_order(order: &Vec<TriggerKind>, defaults: &Vec<TriggerKind>, drop_retired: bool) -> (r: Vec<
    TriggerKind,
>)
    ensures
        r@ == normalized_order(order@, defaults@, drop_retired),
{
    let mut ordered: Vec<TriggerKind> = Vec::new();
    let mut i: usize = 0;
    while i < order.len()
        invariant
            i <= order@.len(),
            ordered@ == first_occurrences(order@.take(i as int), drop_retired),
        decreases order@.len() - i,
    {
        let k = order[i];
        assert(order@.take(i + 1).drop_last() =~= order@.take(i as int));
        assert(order@.take(i + 1).last() == k);
        if (!drop_retired || is_live_kind(k)) && !contains_kind(&ordered, k) {
            ordered.push(k);
        }
        i += 1;
    }
    assert(order@.take(order@.len() as int) =~= order@);
    let ghost kept = ordered@;
    let mut j: usize = 0;
    while j < defaults.len()
        invariant
            j <= defaults@.len(),
            ordered@ == append_missing(kept, defaults@.take(j as int)),
        decreases defaults@.len() - j,
    {
        let k = defaults[j];
        assert(defaults@.take(j + 1).drop_last() =~= defaults@.take(j as int));
        assert(defaults@.take(j + 1).last() == k);
        if !contains_kind(&ordered, k) {
            ordered.push(k);
        }
        j += 1;
    }
    assert(defaults@.take(defaults@.len() as int) =~= defaults@);
    ordered
}

/// Normalizes a live overlap-priority order: duplicates and retired kinds
/// are dropped, then every live kind it lacks is appended in default order.
pub fn normalize_priority_order(order: &Vec<TriggerKind>) -> (r: Vec<TriggerKind>)
    ensures
        r@ == normalized_priority_order(order@),
{
    let defaults = priority_order_default();
    normalize_order(order, &defaults, true)
}

/// A normalized priority order ranks every live kind exactly once: it holds
/// no duplicate, and a kind occurs in it exactly when the kind is live.
pub proof fn lemma_normalized_order_ranks_every_live_kind(s: Seq<TriggerKind>)
    ensures
        no_duplicates(normalized_priority_order(s)),
        forall|k: TriggerKind| #[trigger] normalized_priority_order(s).contains(k) <==> is_live(k),
        normalized_priority_order(s).len() == default_order().len(),
{
    lemma_first_occurrences(s, true);
    lemma_default_order_is_live();
    let kept = first_occurrences(s, true);
    lemma_append_missing(kept, default_order());
    let r = normalized_priority_order(s);
    // r is a duplicate-free sequence whose elements are exactly the default kinds
    lemma_same_elements_same_len(r, default_order());
}

/// Two duplicate-free orders over the same kinds have the same length.
proof fn lemma_same_elements_same_len(a: Seq<TriggerKind>, b: Seq<TriggerKind>)
    requires
        no_duplicates(a),
        no_duplicates(b),
        forall|k: TriggerKind| a.contains(k) <==> b.contains(k),
    ensures
        a.len() == b.len(),
{
    lemma_no_dup_set_len(a);
    lemma_no_dup_set_len(b);
    assert(a.to_set() =~= b.to_set()) by {
        assert forall|k: TriggerKind| a.to_set().contains(k) <==> b.to_set().contains(k) by {
            assert(a.to_set().contains(k) <==> a.contains(k));
            assert(b.to_set().contains(k) <==> b.contains(k));
        }
    }
}

proof fn lemma_no_dup_set_len(a: Seq<TriggerKind>)
    requires
        no_duplicates(a),
    ensures
        a.to_set().len() == a.len(),
{
    assert(a.no_duplicates()) by {
        assert forall|i: int, j: int| 0 <= i < a.len() && 0 <= j < a.len() && i != j implies a[i] != a[j] by {}
    }
    a.unique_seq_to_set();
}

/// Normalizing is idempotent: a normalized order is left as it is.
pub proof fn lemma_normalize_priority_order_idempotent(s: Seq<TriggerKind>)
    ensures
        normalized_priority_order(normalized_priority_order(s)) == normalized_priority_order(s),
{
    let t = normalized_priority_order(s);
    lemma_normalized_order_ranks_every_live_kind(s);
    lemma_default_order_is_live();
    assert forall|i: int| 0 <= i < t.len() implies is_live(#[trigger] t[i]) by {
        assert(t.contains(t[i]));
    }
    lemma_first_occurrences_fixed(t, true);
    lemma_append_missing(t, default_order());
}

/// An order that already ranks every live kind exactly once (the default
/// order among them) is kept as it is.
pub proof fn lemma_complete_order_is_kept(t: Seq<TriggerKind>)
    requires
        no_duplicates(t),
        forall|k: TriggerKind| #[trigger] t.contains(k) <==> is_live(k),
    ensures
        normalized_priority_order(t) == t,
{
    lemma_default_order_is_live();
    assert forall|i: int| 0 <= i < t.len() implies is_live(#[trigger] t[i]) by {
        assert(t.contains(t[i]));
    }
    lemma_first_occurrences_fixed(t, true);
    lemma_append_missing(t, default_order());
}

/// The ability slots an ability trigger reacts to.
#[derive(Clone, Debug, PartialEq, Eq)]
pub enum AbilityFilter {
    All,
    Selected(std::collections::BTreeSet<u32>),
}

impl Default for AbilityFilter {
    fn default() -> (r: Self)
        ensures
            r is All,
    {
        AbilityFilter::All
    }
}

impl AbilityFilter {
    pub fn accepts(&self, ability_slot: u32) -> (r: bool)
        ensures
            r == match self {
                AbilityFilter::All => true,
                AbilityFilter::Selected(slots) => slots@.contains(ability_slot),
            },
    {
        match self {
            AbilityFilter::All => true,
            AbilityFilter::Selected(slots) => slots.contains(&ability_slot),
        }
    }
}

} // verus!
