//! One upgrade part and what it does to cost, power and weight.

use crate::quantity::Quantity;
use vstd::prelude::*;

verus! {

/// A part fitted to a motorcycle. Once it is on a record it is not changed.
#[derive(Debug, PartialEq)]
pub struct Upgrade {
    /// Name by which the part is found again on a record.
    pub name: String,
    pub manufacturer: String,
    /// Tuning stage; plays no part in any calculation.
    pub stage: u8,
    /// Price of the part; adds to the record's total cost.
    pub cost: Quantity,
    /// Horsepower that the part adds.
    pub hp_gain: Quantity,
    /// Kilograms that the part takes off; negative where it adds weight.
    pub weight_reduction: Quantity,
    /// Hours needed to fit the part; plays no part in any calculation.
    pub installation_time: Quantity,
}

/// What an upgrade holds, as plain values.
pub ghost struct UpgradeView {
    pub name: Seq<char>,
    pub manufacturer: Seq<char>,
    pub stage: u8,
    pub cost: Quantity,
    pub hp_gain: Quantity,
    pub weight_reduction: Quantity,
    pub installation_time: Quantity,
}

impl View for Upgrade {
    type V = UpgradeView;

    open spec fn view(&self) -> UpgradeView {
        UpgradeView {
            name: self.name@,
            manufacturer: self.manufacturer@,
            stage: self.stage,
            cost: self.cost,
            hp_gain: self.hp_gain,
            weight_reduction: self.weight_reduction,
            installation_time: self.installation_time,
        }
    }
}

/// The views of the upgrades, in order.
pub open spec fn views_of(upgrades: Seq<Upgrade>) -> Seq<UpgradeView> {
    upgrades.map_values(|u: Upgrade| u@)
}

/// The views of a list with one more upgrade behind are the views of the
/// list with the view of that upgrade behind.
pub proof fn lemma_views_of_push(upgrades: Seq<Upgrade>, upgrade: Upgrade)
    ensures
        views_of(upgrades.push(upgrade)) == views_of(upgrades).push(upgrade@),
{
}

/// The views of a list without its upgrade at `i` are the views of the list
/// without the view at `i`.
pub proof fn lemma_views_of_remove(upgrades: Seq<Upgrade>, i: int)
    requires
        0 <= i < upgrades.len(),
    ensures
        views_of(upgrades.remove(i)) == views_of(upgrades).remove(i),
{
}

impl Clone for Upgrade {
    fn clone(&self) -> (copy: Self)
        ensures
            copy@ == self@,
    {
        Upgrade {
            name: self.name.clone(),
            manufacturer: self.manufacturer.clone(),
            stage: self.stage,
            cost: self.cost,
            hp_gain: self.hp_gain,
            weight_reduction: self.weight_reduction,
            installation_time: self.installation_time,
        }
    }
}

} // verus!
