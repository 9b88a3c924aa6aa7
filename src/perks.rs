//! Perks: the catalog, their effects, score-threshold eligibility and the
//! selection input handling.
use vstd::prelude::*;

verus! {

/// A discrete effect the player can pick.
#[derive(Clone, Copy, Debug, PartialEq, Eq, Structural)]
pub enum Perk {
    /// Steps come a quarter sooner.
    NeedForSpeed,
    /// Food scores twice as much.
    HungryWorm,
}

/// One of the two options offered by the selection screen.
#[derive(Clone, Copy, Debug, PartialEq, Eq, Structural)]
pub enum PowerupSlot {
    First,
    Second,
}

/// Inputs received while the selection is open and not yet handled.
#[derive(Clone, Copy, Debug, PartialEq, Eq, Structural)]
pub struct SelectionKeys {
    /// Move the cursor to the first option.
    pub left: bool,
    /// Move the cursor to the second option.
    pub right: bool,
    /// Commit the highlighted option.
    pub confirm: bool,
    /// Commit the first option at once.
    pub cancel: bool,
}

pub open spec fn no_keys() -> SelectionKeys {
    SelectionKeys { left: false, right: false, confirm: false, cancel: false }
}

impl SelectionKeys {
    /// No pending input.
    pub fn none() -> (r: SelectionKeys)
        ensures
            r == no_keys(),
    {
        SelectionKeys { left: false, right: false, confirm: false, cancel: false }
    }
}

/// The two perks every selection offers, first and second.
pub open spec fn default_powerups() -> (Perk, Perk) {
    (Perk::NeedForSpeed, Perk::HungryWorm)
}

/// The perk offered in `slot`.
pub open spec fn perk_in_slot(slot: PowerupSlot) -> Perk {
    match slot {
        PowerupSlot::First => default_powerups().0,
        PowerupSlot::Second => default_powerups().1,
    }
}

/// The two perks every selection offers.
pub fn get_default_powerups() -> (r: (Perk, Perk))
    ensures
        r == default_powerups(),
{
    (Perk::NeedForSpeed, Perk::HungryWorm)
}

/// The step interval made a quarter shorter (rounding the cut down).
pub open spec fn sped_up(move_interval: u64) -> u64 {
    (move_interval - move_interval / 4) as u64
}

/// The food value doubled, held at `u32::MAX`.
pub open spec fn doubled(food_score_value: u32) -> u32 {
    if 2 * food_score_value > u32::MAX {
        u32::MAX
    } else {
        (2 * food_score_value) as u32
    }
}

/// Step interval and food value after `perk` takes effect.
pub open spec fn perk_effect(perk: Perk, move_interval: u64, food_score_value: u32) -> (u64, u32) {
    match perk {
        Perk::NeedForSpeed => (sped_up(move_interval), food_score_value),
        Perk::HungryWorm => (move_interval, doubled(food_score_value)),
    }
}

/// Applies `powerup`: the step interval shrinks by a quarter, or the food
/// value doubles.
pub fn apply_powerup_effect(powerup: &Perk, move_interval: &mut u64, food_score_value: &mut u32)
    ensures
        (*final(move_interval), *final(food_score_value)) == perk_effect(
            *powerup,
            *old(move_interval),
            *old(food_score_value),
        ),
{
    match powerup {
        Perk::NeedForSpeed => {
            *move_interval = *move_interval - *move_interval / 4;
        },
        Perk::HungryWorm => {
            if *food_score_value > u32::MAX / 2 {
                *food_score_value = u32::MAX;
            } else {
                *food_score_value = *food_score_value * 2;
            }
        },
    }
}

/// Outcome of handling the pending selection input: the remaining input, the
/// cursor, the chosen perk, eligibility, whether the selection stays open,
/// and whether a perk was committed.
pub struct SelectionOutcome {
    pub keys: SelectionKeys,
    pub highlighted: Option<PowerupSlot>,
    pub selected: Option<Perk>,
    pub eligibility: bool,
    pub in_selection: bool,
    pub committed: bool,
}

/// Cursor moves are absolute: left highlights the first option, right the
/// second (right wins when both are pending). A confirm with an option
/// highlighted commits it; otherwise a cancel commits the first option. A
/// commit clears eligibility, closes the selection, resets the cursor and
/// drops all pending input.
pub open spec fn selection_outcome(
    keys: SelectionKeys,
    highlighted: Option<PowerupSlot>,
    selected: Option<Perk>,
    eligibility: bool,
    in_selection: bool,
) -> SelectionOutcome {
    let h1 = if keys.left {
        Some(PowerupSlot::First)
    } else {
        highlighted
    };
    let h2 = if keys.right {
        Some(PowerupSlot::Second)
    } else {
        h1
    };
    if keys.confirm && h2.is_some() {
        SelectionOutcome {
            keys: no_keys(),
            highlighted: None,
            selected: Some(perk_in_slot(h2.unwrap())),
            eligibility: false,
            in_selection: false,
            committed: true,
        }
    } else if keys.cancel {
        SelectionOutcome {
            keys: no_keys(),
            highlighted: None,
            selected: Some(default_powerups().0),
            eligibility: false,
            in_selection: false,
            committed: true,
        }
    } else {
        SelectionOutcome {
            keys: SelectionKeys { left: false, right: false, ..keys },
            highlighted: h2,
            selected,
            eligibility,
            in_selection,
            committed: false,
        }
    }
}

/// Handles the pending selection input; returns whether a perk was committed.
pub fn handle_powerup_selection(
    powerup_selection_keys: &mut SelectionKeys,
    highlighted_powerup: &mut Option<PowerupSlot>,
    selected_powerup: &mut Option<Perk>,
    powerup_eligibility: &mut bool,
    in_powerup_selection: &mut bool,
) -> (r: bool)
    ensures
        ({
            let o = selection_outcome(
                *old(powerup_selection_keys),
                *old(highlighted_powerup),
                *old(selected_powerup),
                *old(powerup_eligibility),
                *old(in_powerup_selection),
            );
            &&& *final(powerup_selection_keys) == o.keys
            &&& *final(highlighted_powerup) == o.highlighted
            &&& *final(selected_powerup) == o.selected
            &&& *final(powerup_eligibility) == o.eligibility
            &&& *final(in_powerup_selection) == o.in_selection
            &&& r == o.committed
        }),
{
    let (powerup1, powerup2) = get_default_powerups();
    if powerup_selection_keys.left {
        *highlighted_powerup = Some(PowerupSlot::First);
        powerup_selection_keys.left = false;
    }
    if powerup_selection_keys.right {
        *highlighted_powerup = Some(PowerupSlot::Second);
        powerup_selection_keys.right = false;
    }
    if powerup_selection_keys.confirm {
        if let Some(slot) = *highlighted_powerup {
            let chosen = match slot {
                PowerupSlot::First => powerup1,
                PowerupSlot::Second => powerup2,
            };
            *selected_powerup = Some(chosen);
            *powerup_eligibility = false;
            *in_powerup_selection = false;
            *highlighted_powerup = None;
            *powerup_selection_keys = SelectionKeys::none();
            return true;
        }
    }
    if powerup_selection_keys.cancel {
        *selected_powerup = Some(powerup1);
        *powerup_eligibility = false;
        *in_powerup_selection = false;
        *highlighted_powerup = None;
        *powerup_selection_keys = SelectionKeys::none();
        return true;
    }
    false
}

/// Score thresholds that each grant one perk offer, in increasing order.
pub open spec fn threshold_table() -> Seq<u32> {
    seq![500u32, 1000u32, 2000u32, 4000u32]
}

/// The score thresholds that each grant one perk offer.
pub fn perk_thresholds() -> (r: Vec<u32>)
    ensures
        r@ == threshold_table(),
{
    let r = vec![500u32, 1000u32, 2000u32, 4000u32];
    assert(r@ =~= threshold_table());
    r
}

/// The first threshold from position `i` on that `score` has reached and
/// that is not yet granted.
pub open spec fn first_new_threshold_from(score: u32, granted: Seq<u32>, i: nat) -> Option<u32>
    decreases threshold_table().len() - i,
{
    if i >= threshold_table().len() {
        None
    } else if threshold_table()[i as int] <= score && !granted.contains(
        threshold_table()[i as int],
    ) {
        Some(threshold_table()[i as int])
    } else {
        first_new_threshold_from(score, granted, i + 1)
    }
}

/// The lowest threshold that `score` has reached and that is not yet granted.
pub open spec fn first_new_threshold(score: u32, granted: Seq<u32>) -> Option<u32> {
    first_new_threshold_from(score, granted, 0)
}

/// Whether `v` occurs in `items`.
fn contains_value(items: &Vec<u32>, v: u32) -> (r: bool)
    ensures
        r == items@.contains(v),
{
    let mut i: usize = 0;
    while i < items.len()
        invariant
            0 <= i <= items@.len(),
            forall|j: int| 0 <= j < i ==> items@[j] != v,
        decreases items@.len() - i,
    {
        if items[i] == v {
            return true;
        }
        i = i + 1;
    }
    false
}

/// Grants the lowest threshold that `score` has reached and that was not yet
/// granted, if any: records it and sets eligibility. A threshold already
/// granted never triggers again.
pub fn check_perk_eligibility(score: u32, granted: &mut Vec<u32>, powerup_eligibility: &mut bool)
    ensures
        match first_new_threshold(score, old(granted)@) {
            Some(t) => final(granted)@ == old(granted)@.push(t) && *final(powerup_eligibility),
            None => final(granted)@ == old(granted)@ && *final(powerup_eligibility)
                == *old(powerup_eligibility),
        },
{
    let table = perk_thresholds();
    let mut i: usize = 0;
    while i < table.len()
        invariant
            table@ == threshold_table(),
            0 <= i <= table@.len(),
            granted@ == old(granted)@,
            *powerup_eligibility == *old(powerup_eligibility),
            first_new_threshold(score, granted@) == first_new_threshold_from(
                score,
                granted@,
                i as nat,
            ),
        decreases table@.len() - i,
    {
        let t = table[i];
        if t <= score && !contains_value(granted, t) {
            granted.push(t);
            *powerup_eligibility = true;
            return;
        }
        i = i + 1;
    }
}

} // verus!
