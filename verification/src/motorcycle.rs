//! The tuning record of one motorcycle.
//!
//! A record holds the base machine and the upgrades fitted to it, in the order
//! in which they were fitted, and two values derived from them: what the
//! upgrades cost together, and the performance index. Both are computed anew
//! from the whole list whenever the list changes.

use crate::error::UpgradeError;
use crate::quantity::{Quantity, HUNDRED_BITS, NEGATIVE_ZERO_BITS};
use crate::upgrade::{lemma_views_of_push, lemma_views_of_remove, views_of, Upgrade, UpgradeView};
use vstd::prelude::*;

verus! {

/// The most upgrades that one record holds.
pub const MAX_UPGRADES: usize = 10;

/// Sum of `values`, taken from the left and starting at negative zero.
pub open spec fn sum_of(values: Seq<Quantity>) -> Quantity
    decreases values.len(),
{
    if values.len() == 0 {
        Quantity::negative_zero()
    } else {
        sum_of(values.drop_last()).plus(values.last())
    }
}

/// The prices of the upgrades, in order.
pub open spec fn costs(upgrades: Seq<UpgradeView>) -> Seq<Quantity> {
    upgrades.map_values(|u: UpgradeView| u.cost)
}

/// The power gains of the upgrades, in order.
pub open spec fn hp_gains(upgrades: Seq<UpgradeView>) -> Seq<Quantity> {
    upgrades.map_values(|u: UpgradeView| u.hp_gain)
}

/// The weight reductions of the upgrades, in order.
pub open spec fn weight_reductions(upgrades: Seq<UpgradeView>) -> Seq<Quantity> {
    upgrades.map_values(|u: UpgradeView| u.weight_reduction)
}

/// The names of the upgrades, in order.
pub open spec fn names(upgrades: Seq<UpgradeView>) -> Seq<Seq<char>> {
    upgrades.map_values(|u: UpgradeView| u.name)
}

/// Index of the first upgrade named `name`, if any upgrade has that name.
pub open spec fn first_named(upgrades: Seq<UpgradeView>, name: Seq<char>) -> Option<int> {
    names(upgrades).index_of_first(name)
}

/// What the upgrades cost together.
pub open spec fn total_cost_of(upgrades: Seq<UpgradeView>) -> Quantity {
    sum_of(costs(upgrades))
}

/// Power of the machine with its upgrades: the base power, as a
/// single-precision value, plus the sum of the gains.
pub open spec fn total_hp_of(base_hp: u32, upgrades: Seq<UpgradeView>) -> Quantity {
    Quantity::of_integer(base_hp).plus(sum_of(hp_gains(upgrades)))
}

/// Weight of the machine with its upgrades: the base weight less the sum of
/// the reductions.
pub open spec fn final_weight_of(weight_kg: Quantity, upgrades: Seq<UpgradeView>) -> Quantity {
    weight_kg.minus(sum_of(weight_reductions(upgrades)))
}

/// Power divided by weight, times one hundred. Nothing is clamped: where the
/// weight comes out as zero or below, the index is whatever the division gives.
pub open spec fn performance_index_of(
    base_hp: u32,
    weight_kg: Quantity,
    upgrades: Seq<UpgradeView>,
) -> Quantity {
    total_hp_of(base_hp, upgrades).over(final_weight_of(weight_kg, upgrades)).times(
        Quantity::hundred(),
    )
}

/// A request to change a record.
pub ghost enum Change {
    /// Fit this upgrade.
    Add(UpgradeView),
    /// Take off the first upgrade of this name.
    Remove(Seq<char>),
}

/// What a record holds, as plain values.
pub ghost struct MotorcycleView {
    pub model: Seq<char>,
    pub base_hp: u32,
    pub weight_kg: Quantity,
    pub upgrades: Seq<UpgradeView>,
    pub total_cost: Quantity,
    pub performance_index: Quantity,
}

impl MotorcycleView {
    /// The derived values are those of the upgrades now on the record, and
    /// the record holds no more upgrades than it may.
    pub open spec fn consistent(self) -> bool {
        &&& self.upgrades.len() <= MAX_UPGRADES
        &&& self.total_cost == total_cost_of(self.upgrades)
        &&& self.performance_index == performance_index_of(
            self.base_hp,
            self.weight_kg,
            self.upgrades,
        )
    }

    /// The record after a request to fit `upgrade`: with the upgrade behind
    /// the others where there is room, unchanged where there is none.
    pub open spec fn after_add_upgrade(self, upgrade: UpgradeView) -> MotorcycleView {
        if self.upgrades.len() < MAX_UPGRADES {
            self.with_upgrades(self.upgrades.push(upgrade))
        } else {
            self
        }
    }

    /// The record after a request to take off the upgrade named `name`:
    /// without the first upgrade of that name, unchanged where none has it.
    pub open spec fn after_remove_upgrade(self, name: Seq<char>) -> MotorcycleView {
        match first_named(self.upgrades, name) {
            Some(i) => self.with_upgrades(self.upgrades.remove(i)),
            None => self,
        }
    }

    /// The record after the requests `changes`, made one after the other.
    pub open spec fn after_changes(self, changes: Seq<Change>) -> MotorcycleView
        decreases changes.len(),
    {
        if changes.len() == 0 {
            self
        } else {
            let before = self.after_changes(changes.drop_last());
            match changes.last() {
                Change::Add(upgrade) => before.after_add_upgrade(upgrade),
                Change::Remove(name) => before.after_remove_upgrade(name),
            }
        }
    }

    /// The same machine with other upgrades, and the derived values that go
    /// with them.
    pub open spec fn with_upgrades(self, upgrades: Seq<UpgradeView>) -> MotorcycleView {
        MotorcycleView {
            model: self.model,
            base_hp: self.base_hp,
            weight_kg: self.weight_kg,
            upgrades,
            total_cost: total_cost_of(upgrades),
            performance_index: performance_index_of(self.base_hp, self.weight_kg, upgrades),
        }
    }
}

/// One motorcycle: its base machine, its upgrades and the derived values.
#[derive(Debug, PartialEq)]
pub struct Motorcycle {
    model: String,
    base_hp: u32,
    weight_kg: Quantity,
    upgrades: Vec<Upgrade>,
    total_cost: Quantity,
    performance_index: Quantity,
}

impl View for Motorcycle {
    type V = MotorcycleView;

    closed spec fn view(&self) -> MotorcycleView {
        MotorcycleView {
            model: self.model@,
            base_hp: self.base_hp,
            weight_kg: self.weight_kg,
            upgrades: views_of(self.upgrades@),
            total_cost: self.total_cost,
            performance_index: self.performance_index,
        }
    }
}

/// `first_named` gives the least index at which the name stands, and `None`
/// exactly when it stands nowhere.
pub proof fn lemma_first_named(upgrades: Seq<UpgradeView>, name: Seq<char>)
    ensures
        match first_named(upgrades, name) {
            Some(i) => {
                &&& 0 <= i < upgrades.len()
                &&& upgrades[i].name == name
                &&& forall|j: int| 0 <= j < i ==> upgrades[j].name != name
            },
            None => forall|j: int| 0 <= j < upgrades.len() ==> upgrades[j].name != name,
        },
{
    let all = names(upgrades);
    all.index_of_first_ensures(name);
    assert forall|j: int| 0 <= j < upgrades.len() implies all[j] == #[trigger] upgrades[j].name by {}
}

/// On a consistent record the total cost is the sum of the costs of the
/// upgrades on it.
pub proof fn lemma_total_cost_is_sum_of_costs(record: MotorcycleView)
    requires
        record.consistent(),
    ensures
        record.total_cost == sum_of(record.upgrades.map_values(|u: UpgradeView| u.cost)),
{
}

/// On a consistent record the performance index is the base power plus the
/// gains of the upgrades, divided by the base weight less their reductions,
/// times one hundred.
pub proof fn lemma_performance_index_is_power_to_weight(record: MotorcycleView)
    requires
        record.consistent(),
    ensures
        record.performance_index == Quantity::of_integer(record.base_hp).plus(
            sum_of(record.upgrades.map_values(|u: UpgradeView| u.hp_gain)),
        ).over(
            record.weight_kg.minus(
                sum_of(record.upgrades.map_values(|u: UpgradeView| u.weight_reduction)),
            ),
        ).times(Quantity::hundred()),
{
}

/// A consistent record stays consistent whatever is asked of it, and in
/// whatever order: after every request its total cost is the sum of the costs
/// of the upgrades then on it, its performance index is that of the machine
/// with those upgrades, and it holds no more upgrades than it may. The
/// machine itself never changes.
pub proof fn lemma_consistent_after_changes(start: MotorcycleView, changes: Seq<Change>)
    requires
        start.consistent(),
    ensures
        start.after_changes(changes).consistent(),
        start.after_changes(changes).model == start.model,
        start.after_changes(changes).base_hp == start.base_hp,
        start.after_changes(changes).weight_kg == start.weight_kg,
    decreases changes.len(),
{
    if changes.len() > 0 {
        lemma_consistent_after_changes(start, changes.drop_last());
        if let Change::Remove(name) = changes.last() {
            lemma_first_named(start.after_changes(changes.drop_last()).upgrades, name);
        }
    }
}

/// The derived values depend on the upgrades only through three sums: two
/// consistent records of machines with the same power and weight, whose
/// upgrades sum to the same cost, the same gain and the same reduction, have
/// the same total cost and the same performance index. This holds of two
/// orders of the same upgrades wherever the sums come out the same in both;
/// sums that round on the way need not.
pub proof fn lemma_derived_values_follow_sums(one: MotorcycleView, other: MotorcycleView)
    requires
        one.consistent(),
        other.consistent(),
        one.base_hp == other.base_hp,
        one.weight_kg == other.weight_kg,
        sum_of(costs(one.upgrades)) == sum_of(costs(other.upgrades)),
        sum_of(hp_gains(one.upgrades)) == sum_of(hp_gains(other.upgrades)),
        sum_of(weight_reductions(one.upgrades)) == sum_of(weight_reductions(other.upgrades)),
    ensures
        one.total_cost == other.total_cost,
        one.performance_index == other.performance_index,
{
}

/// Taking one more value into a sum adds that value to it.
proof fn lemma_sum_step(values: Seq<Quantity>, i: int)
    requires
        0 <= i < values.len(),
    ensures
        sum_of(values.take(i + 1)) == sum_of(values.take(i)).plus(values[i]),
{
    assert(values.take(i + 1).drop_last() =~= values.take(i));
}

impl Clone for Motorcycle {
    fn clone(&self) -> (copy: Self)
        ensures
            copy@ == self@,
    {
        let mut upgrades: Vec<Upgrade> = Vec::new();
        let n = self.upgrades.len();
        let mut i: usize = 0;
        while i < n
            invariant
                n == self.upgrades@.len(),
                i <= n,
                views_of(upgrades@) == self@.upgrades.take(i as int),
            decreases n - i,
        {
            let copy = self.upgrades[i].clone();
            proof {
                lemma_views_of_push(upgrades@, copy);
            }
            upgrades.push(copy);
            i += 1;
        }
        assert(self@.upgrades.take(n as int) =~= self@.upgrades);
        Motorcycle {
            model: self.model.clone(),
            base_hp: self.base_hp,
            weight_kg: self.weight_kg,
            upgrades,
            total_cost: self.total_cost,
            performance_index: self.performance_index,
        }
    }
}

impl Motorcycle {
    /// A record of the given machine with no upgrades on it.
    pub fn new(model: String, base_hp: u32, weight_kg: Quantity) -> (m: Motorcycle)
        ensures
            m@.model == model@,
            m@.base_hp == base_hp,
            m@.weight_kg == weight_kg,
            m@.upgrades == Seq::<UpgradeView>::empty(),
            m@.consistent(),
    {
        let mut m = Motorcycle {
            model,
            base_hp,
            weight_kg,
            upgrades: Vec::new(),
            total_cost: Quantity { bits: NEGATIVE_ZERO_BITS },
            performance_index: Quantity { bits: NEGATIVE_ZERO_BITS },
        };
        m.calculate_performance();
        m
    }

    /// Computes the derived values anew from the upgrades now on the record.
    fn calculate_performance(&mut self)
        ensures
            final(self)@ == old(self)@.with_upgrades(old(self)@.upgrades),
    {
        let mut hp_sum = Quantity { bits: NEGATIVE_ZERO_BITS };
        let mut reduction_sum = Quantity { bits: NEGATIVE_ZERO_BITS };
        let mut cost_sum = Quantity { bits: NEGATIVE_ZERO_BITS };
        let n = self.upgrades.len();
        let mut i: usize = 0;
        while i < n
            invariant
                n == self.upgrades@.len(),
                i <= n,
                hp_sum == sum_of(hp_gains(self@.upgrades).take(i as int)),
                reduction_sum == sum_of(weight_reductions(self@.upgrades).take(i as int)),
                cost_sum == sum_of(costs(self@.upgrades).take(i as int)),
            decreases n - i,
        {
            proof {
                lemma_sum_step(hp_gains(self@.upgrades), i as int);
                lemma_sum_step(weight_reductions(self@.upgrades), i as int);
                lemma_sum_step(costs(self@.upgrades), i as int);
            }
            hp_sum = hp_sum.sum(self.upgrades[i].hp_gain);
            reduction_sum = reduction_sum.sum(self.upgrades[i].weight_reduction);
            cost_sum = cost_sum.sum(self.upgrades[i].cost);
            i += 1;
        }
        proof {
            let ups = self@.upgrades;
            assert(hp_gains(ups).take(n as int) =~= hp_gains(ups));
            assert(weight_reductions(ups).take(n as int) =~= weight_reductions(ups));
            assert(costs(ups).take(n as int) =~= costs(ups));
        }
        let total_hp = Quantity::from_integer(self.base_hp).sum(hp_sum);
        let final_weight = self.weight_kg.difference(reduction_sum);
        self.performance_index = total_hp.quotient(final_weight).product(
            Quantity { bits: HUNDRED_BITS },
        );
        self.total_cost = cost_sum;
    }

    /// Fits `upgrade` behind those already on the record and computes the
    /// derived values anew. A record that is full refuses it and stays as it
    /// was.
    pub fn add_upgrade(&mut self, upgrade: Upgrade) -> (r: Result<(), UpgradeError>)
        ensures
            old(self)@.upgrades.len() >= MAX_UPGRADES ==> {
                &&& r == Err::<(), UpgradeError>(UpgradeError::CapacityExceeded)
                &&& *final(self) == *old(self)
            },
            old(self)@.upgrades.len() < MAX_UPGRADES ==> {
                &&& r == Ok::<(), UpgradeError>(())
                &&& final(self)@ == old(self)@.with_upgrades(old(self)@.upgrades.push(upgrade@))
                &&& final(self)@.consistent()
            },
            final(self)@ == old(self)@.after_add_upgrade(upgrade@),
            old(self)@.consistent() ==> final(self)@.consistent(),
    {
        if self.upgrades.len() >= MAX_UPGRADES {
            return Err(UpgradeError::CapacityExceeded);
        }
        proof {
            lemma_views_of_push(self.upgrades@, upgrade);
        }
        self.upgrades.push(upgrade);
        self.calculate_performance();
        Ok(())
    }

    /// Takes off the first upgrade named `upgrade_name` and computes the
    /// derived values anew. A record with no upgrade of that name stays as it
    /// was.
    pub fn remove_upgrade(&mut self, upgrade_name: &str) -> (r: Result<(), UpgradeError>)
        ensures
            match first_named(old(self)@.upgrades, upgrade_name@) {
                Some(i) => {
                    &&& r == Ok::<(), UpgradeError>(())
                    &&& 0 <= i < old(self)@.upgrades.len()
                    &&& final(self)@ == old(self)@.with_upgrades(old(self)@.upgrades.remove(i))
                },
                None => {
                    &&& r == Err::<(), UpgradeError>(UpgradeError::NotFound)
                    &&& *final(self) == *old(self)
                },
            },
            final(self)@ == old(self)@.after_remove_upgrade(upgrade_name@),
            old(self)@.consistent() ==> final(self)@.consistent(),
    {
        let wanted = upgrade_name.to_owned();
        let n = self.upgrades.len();
        let mut i: usize = 0;
        while i < n
            invariant
                n == self.upgrades@.len(),
                i <= n,
                *self == *old(self),
                wanted@ == upgrade_name@,
                forall|j: int| 0 <= j < i ==> self@.upgrades[j].name != upgrade_name@,
            decreases n - i,
        {
            assert(self@.upgrades[i as int] == self.upgrades@[i as int]@);
            if self.upgrades[i].name == wanted {
                proof {
                    lemma_first_named(self@.upgrades, upgrade_name@);
                }
                proof {
                    lemma_views_of_remove(self.upgrades@, i as int);
                }
                self.upgrades.remove(i);
                self.calculate_performance();
                return Ok(());
            }
            i += 1;
        }
        proof {
            lemma_first_named(self@.upgrades, upgrade_name@);
        }
        Err(UpgradeError::NotFound)
    }

    /// The display name of the machine.
    pub fn model(&self) -> (model: &String)
        ensures
            model@ == self@.model,
    {
        &self.model
    }

    /// The power of the machine without upgrades.
    pub fn base_hp(&self) -> (hp: u32)
        ensures
            hp == self@.base_hp,
    {
        self.base_hp
    }

    /// The weight of the machine without upgrades.
    pub fn weight_kg(&self) -> (weight: Quantity)
        ensures
            weight == self@.weight_kg,
    {
        self.weight_kg
    }

    /// The upgrades on the record, in the order in which they were fitted.
    pub fn upgrades(&self) -> (upgrades: &Vec<Upgrade>)
        ensures
            views_of(upgrades@) == self@.upgrades,
    {
        &self.upgrades
    }

    /// What the upgrades on the record cost together.
    pub fn total_cost(&self) -> (cost: Quantity)
        ensures
            cost == self@.total_cost,
            self@.consistent() ==> cost == total_cost_of(self@.upgrades),
    {
        self.total_cost
    }

    /// The performance index of the machine with its upgrades.
    pub fn performance_index(&self) -> (index: Quantity)
        ensures
            index == self@.performance_index,
            self@.consistent() ==> index == performance_index_of(
                self@.base_hp,
                self@.weight_kg,
                self@.upgrades,
            ),
    {
        self.performance_index
    }
}

} // verus!
