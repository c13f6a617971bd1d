//! Orders: how many portions of each dish, and whether to take them away.

use vstd::prelude::*;
use crate::menu::{
    lemma_sum_over_menu, lemma_sum_over_prefix, sum_over, Dish, HIGHEST_PRICE, MENU_SIZE,
    TAKEAWAY_FEE,
};
use crate::text::{decimal, number_text, truth, truth_text};

verus! {

/// What an order is: a quantity for every dish, and the takeaway flag.
pub struct OrderView {
    pub counts: Map<Dish, nat>,
    pub takeaway: bool,
}

impl OrderView {
    /// The order with no portions, not for takeaway.
    pub open spec fn empty() -> OrderView {
        OrderView { counts: Map::total(|d: Dish| 0nat), takeaway: false }
    }

    /// This order with one more portion of `dish`.
    pub open spec fn add(self, dish: Dish) -> OrderView {
        OrderView {
            counts: self.counts.insert(dish, self.counts[dish] + 1),
            takeaway: self.takeaway,
        }
    }

    /// This order with `n` more portions of `dish`, added one at a time.
    pub open spec fn add_many(self, dish: Dish, n: nat) -> OrderView
        decreases n,
    {
        if n == 0 {
            self
        } else {
            self.add_many(dish, (n - 1) as nat).add(dish)
        }
    }

    /// This order, marked for takeaway.
    pub open spec fn with_takeaway(self) -> OrderView {
        OrderView { counts: self.counts, takeaway: true }
    }

    /// This order, served in the restaurant.
    pub open spec fn without_takeaway(self) -> OrderView {
        OrderView { counts: self.counts, takeaway: false }
    }

    /// The quantity of each dish, as a function.
    pub open spec fn quantity(self) -> spec_fn(Dish) -> nat {
        |d: Dish| self.counts[d]
    }

    /// What each dish contributes to the bill: its price times its quantity.
    pub open spec fn charge(self) -> spec_fn(Dish) -> nat {
        |d: Dish| d.spec_price() * self.counts[d]
    }

    /// The number of portions, over all dishes.
    pub open spec fn items(self) -> nat {
        sum_over(Dish::menu(), self.quantity())
    }

    /// The price of the dishes alone, over all dishes.
    pub open spec fn dishes_price(self) -> nat {
        sum_over(Dish::menu(), self.charge())
    }

    /// The takeaway fee for every item, if the order is for takeaway.
    pub open spec fn surcharge(self) -> nat {
        if self.takeaway {
            self.items() * TAKEAWAY_FEE as nat
        } else {
            0
        }
    }

    /// What the customer pays.
    pub open spec fn total(self) -> nat {
        self.dishes_price() + self.surcharge()
    }

    /// The order written out on one line: the quantity of each dish in menu
    /// order, then the takeaway flag.
    pub open spec fn text(self) -> Seq<char> {
        "chicken: "@ + decimal(self.counts[Dish::ThaiChicken]) + ", tofu: "@ + decimal(
            self.counts[Dish::Tofu],
        ) + ", rice: "@ + decimal(self.counts[Dish::FriedRice]) + ", takeway: "@ + truth(
            self.takeaway,
        )
    }
}

/// The most that one dish can contribute to a bill: the highest price for
/// the largest quantity that an order can hold.
const HIGHEST_CHARGE: u64 = 85_899_345_900;

/// An order being put together or kept as a favorite.
#[derive(Debug, Clone, Copy, PartialEq, Eq)]
pub struct Order {
    counts: [u32; MENU_SIZE],
    takeaway: bool,
}

impl View for Order {
    type V = OrderView;

    closed spec fn view(&self) -> OrderView {
        OrderView {
            counts: Map::total(|d: Dish| self.counts[d.spec_index() as int] as nat),
            takeaway: self.takeaway,
        }
    }
}

impl Order {
    /// A fresh order: nothing of any dish, not for takeaway.
    pub fn new() -> (order: Order)
        ensures
            order@ == OrderView::empty(),
            forall|d: Dish| #[trigger] order@.counts[d] == 0,
            order@.items() == 0,
            !order@.takeaway,
    {
        let order = Order { counts: [0; MENU_SIZE], takeaway: false };
        assert(order@.counts =~= OrderView::empty().counts);
        proof {
            lemma_empty_order_holds_nothing();
        }
        order
    }

    /// Adds one portion of `dish`.
    pub fn add_dish(&mut self, dish: Dish)
        requires
            old(self)@.counts[dish] < u32::MAX,
        ensures
            final(self)@ == old(self)@.add(dish),
    {
        let i = dish.index();
        self.counts[i] = self.counts[i] + 1;
        assert(self@.counts =~= old(self)@.add(dish).counts);
    }

    /// Marks the order for takeaway.
    pub fn set_takeaway(&mut self)
        ensures
            final(self)@ == old(self)@.with_takeaway(),
    {
        self.takeaway = true;
        assert(self@.counts =~= old(self)@.counts);
    }

    /// The quantity ordered of `dish`.
    pub fn dish_count(&self, dish: Dish) -> (count: u32)
        ensures
            count == self@.counts[dish],
    {
        self.counts[dish.index()]
    }

    /// Whether the order is for takeaway.
    pub fn is_takeaway(&self) -> (takeaway: bool)
        ensures
            takeaway == self@.takeaway,
    {
        self.takeaway
    }

    /// The number of portions in the order.
    pub fn items_count(&self) -> (count: u32)
        requires
            self@.items() <= u32::MAX,
        ensures
            count == self@.items(),
    {
        let dishes = Dish::all();
        let mut count: u32 = 0;
        let mut i: usize = 0;
        while i < MENU_SIZE
            invariant
                i <= MENU_SIZE,
                dishes@ == Dish::menu(),
                count == sum_over(Dish::menu().take(i as int), self@.quantity()),
                self@.items() <= u32::MAX,
            decreases MENU_SIZE - i,
        {
            proof {
                lemma_sum_over_prefix(Dish::menu(), self@.quantity(), i as int + 1);
            }
            count = count + self.dish_count(dishes[i]);
            i = i + 1;
        }
        proof {
            lemma_sum_over_prefix(Dish::menu(), self@.quantity(), MENU_SIZE as int);
        }
        count
    }

    /// Whether the order holds no portion at all.
    pub fn is_empty(&self) -> (empty: bool)
        ensures
            empty == (self@.items() == 0),
    {
        self.wide_items_count() == 0
    }

    /// What the customer pays: every portion at its price, and the takeaway
    /// fee for every item of a takeaway order.
    pub fn total(&self) -> (total: u32)
        requires
            self@.total() <= u32::MAX,
        ensures
            total == self@.total(),
    {
        let dishes = Dish::all();
        let mut sum: u32 = 0;
        let mut i: usize = 0;
        while i < MENU_SIZE
            invariant
                i <= MENU_SIZE,
                dishes@ == Dish::menu(),
                sum == sum_over(Dish::menu().take(i as int), self@.charge()),
                self@.dishes_price() <= u32::MAX,
            decreases MENU_SIZE - i,
        {
            proof {
                lemma_sum_over_prefix(Dish::menu(), self@.charge(), i as int + 1);
            }
            sum = sum + dishes[i].price() * self.dish_count(dishes[i]);
            i = i + 1;
        }
        proof {
            lemma_sum_over_prefix(Dish::menu(), self@.charge(), MENU_SIZE as int);
        }
        if self.is_takeaway() {
            sum + self.items_count() * TAKEAWAY_FEE
        } else {
            sum
        }
    }

    /// The order written out on one line: the quantity of each dish in menu
    /// order, then the takeaway flag.
    pub fn to_text(&self) -> (text: String)
        ensures
            text@ == self@.text(),
    {
        let mut text = String::from_str("chicken: ");
        text.append(number_text(self.dish_count(Dish::ThaiChicken)).as_str());
        text.append(", tofu: ");
        text.append(number_text(self.dish_count(Dish::Tofu)).as_str());
        text.append(", rice: ");
        text.append(number_text(self.dish_count(Dish::FriedRice)).as_str());
        text.append(", takeway: ");
        text.append(truth_text(self.is_takeaway()));
        text
    }

    /// The number of portions, in an integer wide enough for any order.
    fn wide_items_count(&self) -> (count: u64)
        ensures
            count == self@.items(),
            count <= MENU_SIZE * u32::MAX,
    {
        let dishes = Dish::all();
        let mut count: u64 = 0;
        let mut i: usize = 0;
        while i < MENU_SIZE
            invariant
                i <= MENU_SIZE,
                dishes@ == Dish::menu(),
                count == sum_over(Dish::menu().take(i as int), self@.quantity()),
                count <= i * u32::MAX,
            decreases MENU_SIZE - i,
        {
            proof {
                lemma_sum_over_prefix(Dish::menu(), self@.quantity(), i as int + 1);
            }
            count = count + self.dish_count(dishes[i]) as u64;
            i = i + 1;
        }
        proof {
            lemma_sum_over_prefix(Dish::menu(), self@.quantity(), MENU_SIZE as int);
        }
        count
    }

    /// The price of the dishes alone, in an integer wide enough for any
    /// order.
    fn wide_dishes_price(&self) -> (price: u64)
        ensures
            price == self@.dishes_price(),
            price <= MENU_SIZE * HIGHEST_CHARGE,
    {
        let dishes = Dish::all();
        let mut price: u64 = 0;
        let mut i: usize = 0;
        while i < MENU_SIZE
            invariant
                i <= MENU_SIZE,
                dishes@ == Dish::menu(),
                price == sum_over(Dish::menu().take(i as int), self@.charge()),
                price <= i * HIGHEST_CHARGE,
            decreases MENU_SIZE - i,
        {
            proof {
                lemma_sum_over_prefix(Dish::menu(), self@.charge(), i as int + 1);
            }
            let unit = dishes[i].price() as u64;
            let count = self.dish_count(dishes[i]) as u64;
            assert(unit * count <= HIGHEST_CHARGE) by (nonlinear_arith)
                requires
                    unit <= HIGHEST_PRICE,
                    count <= u32::MAX,
                    HIGHEST_CHARGE == HIGHEST_PRICE * u32::MAX,
            ;
            price = price + unit * count;
            i = i + 1;
        }
        proof {
            lemma_sum_over_prefix(Dish::menu(), self@.charge(), MENU_SIZE as int);
        }
        price
    }

    /// The number of portions where it fits the machine integer, and `None`
    /// where it does not.
    pub fn checked_items_count(&self) -> (count: Option<u32>)
        ensures
            match count {
                Some(n) => n == self@.items(),
                None => self@.items() > u32::MAX,
            },
    {
        let count = self.wide_items_count();
        if count <= u32::MAX as u64 {
            Some(count as u32)
        } else {
            None
        }
    }

    /// The total where it fits the machine integer, and `None` where it
    /// does not.
    pub fn checked_total(&self) -> (total: Option<u32>)
        ensures
            match total {
                Some(t) => t == self@.total(),
                None => self@.total() > u32::MAX,
            },
    {
        let dishes = self.wide_dishes_price();
        let total = if self.is_takeaway() {
            let items = self.wide_items_count();
            assert(items * TAKEAWAY_FEE as u64 == self@.surcharge()) by (nonlinear_arith)
                requires
                    items == self@.items(),
                    self@.surcharge() == self@.items() * TAKEAWAY_FEE as nat,
            ;
            assert(items * TAKEAWAY_FEE as u64 <= MENU_SIZE * u32::MAX) by (nonlinear_arith)
                requires
                    items <= MENU_SIZE * u32::MAX,
                    TAKEAWAY_FEE as u64 == 1,
            ;
            dishes + items * TAKEAWAY_FEE as u64
        } else {
            dishes
        };
        if total <= u32::MAX as u64 {
            Some(total as u32)
        } else {
            None
        }
    }
}

/// Every order has a quantity for every dish on the menu.
pub proof fn lemma_every_dish_has_a_quantity(order: Order)
    ensures
        forall|d: Dish| #[trigger] order@.counts.dom().contains(d),
{
}

/// Marking an order for takeaway a second time changes nothing, and the
/// quantities stay what they were the first time too.
pub proof fn lemma_takeaway_is_set_once(order: OrderView)
    ensures
        order.with_takeaway().takeaway,
        order.with_takeaway().counts == order.counts,
        order.with_takeaway().with_takeaway() == order.with_takeaway(),
{
}

/// A fresh order holds nothing: every dish has quantity zero, and so has the
/// order as a whole.
pub proof fn lemma_empty_order_holds_nothing()
    ensures
        forall|d: Dish| #[trigger] OrderView::empty().counts[d] == 0,
        OrderView::empty().items() == 0,
        OrderView::empty().total() == 0,
        !OrderView::empty().takeaway,
{
    lemma_sum_over_menu(OrderView::empty().quantity());
    lemma_sum_over_menu(OrderView::empty().charge());
}

/// Adding a dish `n` times raises its quantity by `n` and the number of items
/// by `n`, and leaves the other dishes and the takeaway flag as they were.
pub proof fn lemma_add_dish_repeatedly(order: OrderView, dish: Dish, n: nat)
    ensures
        order.add_many(dish, n).counts[dish] == order.counts[dish] + n,
        order.add_many(dish, n).items() == order.items() + n,
        forall|other: Dish|
            other != dish ==> #[trigger] order.add_many(dish, n).counts[other]
                == order.counts[other],
        order.add_many(dish, n).takeaway == order.takeaway,
    decreases n,
{
    lemma_sum_over_menu(order.quantity());
    lemma_sum_over_menu(order.add_many(dish, n).quantity());
    if n > 0 {
        let before = order.add_many(dish, (n - 1) as nat);
        lemma_add_dish_repeatedly(order, dish, (n - 1) as nat);
        lemma_sum_over_menu(before.quantity());
    }
}

/// An order that is not for takeaway costs the sum, over all dishes, of the
/// price of the dish times its quantity.
pub proof fn lemma_total_in_house(order: OrderView)
    requires
        !order.takeaway,
    ensures
        order.total() == sum_over(Dish::menu(), order.charge()),
        order.total() == Dish::ThaiChicken.spec_price() * order.counts[Dish::ThaiChicken]
            + Dish::Tofu.spec_price() * order.counts[Dish::Tofu] + Dish::FriedRice.spec_price()
            * order.counts[Dish::FriedRice],
{
    lemma_sum_over_menu(order.charge());
}

/// A takeaway order costs what the same order costs in the restaurant, plus
/// the takeaway fee for every item.
pub proof fn lemma_total_takeaway(order: OrderView)
    requires
        order.takeaway,
    ensures
        order.total() == order.without_takeaway().total() + order.items() * TAKEAWAY_FEE,
{
    assert(order.without_takeaway().charge() == order.charge());
}

/// No order costs less than one unit for each of its items.
pub proof fn lemma_total_covers_items(order: OrderView)
    ensures
        order.items() <= order.total(),
{
    lemma_sum_over_menu(order.quantity());
    lemma_sum_over_menu(order.charge());
}

} // verus!
