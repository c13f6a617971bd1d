//! The menu: a fixed set of dishes, each with a fixed price.

use vstd::prelude::*;

verus! {

/// A dish on the menu.
#[derive(Debug, Copy, Clone, PartialEq, Eq, Hash, Structural)]
pub enum Dish {
    ThaiChicken,
    Tofu,
    FriedRice,
}

/// Surcharge added for every item of a takeaway order.
pub const TAKEAWAY_FEE: u32 = 1;

/// Number of dishes on the menu.
pub const MENU_SIZE: usize = 3;

/// No dish costs more than this.
pub const HIGHEST_PRICE: u32 = 20;

impl Dish {
    /// The price of one portion, as a mathematical integer.
    pub open spec fn spec_price(self) -> nat {
        match self {
            Dish::ThaiChicken => 20,
            Dish::Tofu => 15,
            Dish::FriedRice => 12,
        }
    }

    /// The whole menu, in the order in which the dishes are declared.
    pub open spec fn menu() -> Seq<Dish> {
        seq![Dish::ThaiChicken, Dish::Tofu, Dish::FriedRice]
    }

    /// The place of this dish on the menu.
    pub open spec fn spec_index(self) -> nat {
        match self {
            Dish::ThaiChicken => 0,
            Dish::Tofu => 1,
            Dish::FriedRice => 2,
        }
    }

    /// The price of one portion.
    pub fn price(&self) -> (price: u32)
        ensures
            price == self.spec_price(),
            price <= HIGHEST_PRICE,
    {
        match self {
            Dish::ThaiChicken => 20,
            Dish::Tofu => 15,
            Dish::FriedRice => 12,
        }
    }

    /// The place of this dish on the menu, counted from zero.
    pub fn index(&self) -> (index: usize)
        ensures
            index == self.spec_index(),
            index < MENU_SIZE,
    {
        match self {
            Dish::ThaiChicken => 0,
            Dish::Tofu => 1,
            Dish::FriedRice => 2,
        }
    }

    /// All dishes, each exactly once, in menu order.
    pub fn all() -> (dishes: [Dish; MENU_SIZE])
        ensures
            dishes@ == Self::menu(),
    {
        [Dish::ThaiChicken, Dish::Tofu, Dish::FriedRice]
    }
}

/// Every dish stands on the menu exactly once, at its own index, and none
/// costs more than the highest price.
pub proof fn lemma_menu_lists_every_dish_once()
    ensures
        Dish::menu().len() == MENU_SIZE,
        forall|d: Dish| #[trigger] Dish::menu()[d.spec_index() as int] == d,
        forall|i: int| 0 <= i < MENU_SIZE ==> (#[trigger] Dish::menu()[i]).spec_index() == i,
        forall|d: Dish| 0 < #[trigger] d.spec_price() <= HIGHEST_PRICE,
{
}

/// The sum of `f` over `dishes`, taken from the first to the last.
pub open spec fn sum_over(dishes: Seq<Dish>, f: spec_fn(Dish) -> nat) -> nat
    decreases dishes.len(),
{
    if dishes.len() == 0 {
        0
    } else {
        sum_over(dishes.drop_last(), f) + f(dishes.last())
    }
}

/// The sum over the first `n` dishes is the sum over one dish fewer plus
/// what the `n`-th contributes, and never exceeds the sum over all of them.
pub proof fn lemma_sum_over_prefix(dishes: Seq<Dish>, f: spec_fn(Dish) -> nat, n: int)
    requires
        0 <= n <= dishes.len(),
    ensures
        n > 0 ==> sum_over(dishes.take(n), f) == sum_over(dishes.take(n - 1), f) + f(dishes[n - 1]),
        sum_over(dishes.take(n), f) <= sum_over(dishes, f),
        n == dishes.len() ==> sum_over(dishes.take(n), f) == sum_over(dishes, f),
        n == 0 ==> sum_over(dishes.take(n), f) == 0,
    decreases dishes.len() - n,
{
    if n > 0 {
        assert(dishes.take(n).drop_last() =~= dishes.take(n - 1));
    }
    if n == dishes.len() {
        assert(dishes.take(n) =~= dishes);
    } else {
        lemma_sum_over_prefix(dishes, f, n + 1);
        assert(dishes.take(n + 1).drop_last() =~= dishes.take(n));
    }
}

/// Over the whole menu the sum has one term for each dish.
pub proof fn lemma_sum_over_menu(f: spec_fn(Dish) -> nat)
    ensures
        sum_over(Dish::menu(), f) == f(Dish::ThaiChicken) + f(Dish::Tofu) + f(Dish::FriedRice),
{
    let menu = Dish::menu();
    lemma_sum_over_prefix(menu, f, 0);
    lemma_sum_over_prefix(menu, f, 1);
    lemma_sum_over_prefix(menu, f, 2);
    lemma_sum_over_prefix(menu, f, 3);
}

} // verus!
