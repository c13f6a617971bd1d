use van_binh::menu::HIGHEST_PRICE;
use van_binh::{Dish, Order, MENU_SIZE, TAKEAWAY_FEE};

fn order_of(chicken: u32, tofu: u32, rice: u32) -> Order {
    let mut order = Order::new();
    for _ in 0..chicken {
        order.add_dish(Dish::ThaiChicken);
    }
    for _ in 0..tofu {
        order.add_dish(Dish::Tofu);
    }
    for _ in 0..rice {
        order.add_dish(Dish::FriedRice);
    }
    order
}

#[test]
fn prices_are_fixed() {
    assert_eq!(Dish::ThaiChicken.price(), 20);
    assert_eq!(Dish::Tofu.price(), 15);
    assert_eq!(Dish::FriedRice.price(), 12);
    assert_eq!(TAKEAWAY_FEE, 1);
    assert_eq!(HIGHEST_PRICE, 20);
    for dish in Dish::all() {
        assert!(dish.price() <= HIGHEST_PRICE);
    }
}

#[test]
fn menu_lists_every_dish_once_in_order() {
    assert_eq!(Dish::all(), [Dish::ThaiChicken, Dish::Tofu, Dish::FriedRice]);
    assert_eq!(Dish::all().len(), MENU_SIZE);
    for (place, dish) in Dish::all().iter().enumerate() {
        assert_eq!(dish.index(), place);
    }
}

#[test]
fn new_order_is_empty() {
    let order = Order::new();
    for dish in Dish::all() {
        assert_eq!(order.dish_count(dish), 0);
    }
    assert_eq!(order.items_count(), 0);
    assert_eq!(order.total(), 0);
    assert!(order.is_empty());
    assert!(!order.is_takeaway());
}

#[test]
fn add_dish_raises_one_count_by_one() {
    let mut order = Order::new();
    order.add_dish(Dish::Tofu);
    assert_eq!(order.dish_count(Dish::Tofu), 1);
    assert_eq!(order.dish_count(Dish::ThaiChicken), 0);
    assert_eq!(order.dish_count(Dish::FriedRice), 0);
    assert_eq!(order.items_count(), 1);
    assert!(!order.is_empty());
}

#[test]
fn add_dish_n_times_adds_n() {
    for dish in Dish::all() {
        let mut order = order_of(2, 3, 4);
        let before = order;
        for n in 1..=7u32 {
            order.add_dish(dish);
            assert_eq!(order.dish_count(dish), before.dish_count(dish) + n);
            assert_eq!(order.items_count(), before.items_count() + n);
            for other in Dish::all() {
                if other != dish {
                    assert_eq!(order.dish_count(other), before.dish_count(other));
                }
            }
            assert_eq!(order.is_takeaway(), before.is_takeaway());
        }
    }
}

#[test]
fn total_in_house_is_price_times_quantity() {
    let order = order_of(2, 1, 3);
    assert_eq!(order.items_count(), 6);
    assert_eq!(order.total(), 2 * 20 + 15 + 3 * 12);
    assert_eq!(order.total(), 91);
    assert_eq!(order_of(1, 0, 0).total(), 20);
    assert_eq!(order_of(0, 1, 0).total(), 15);
    assert_eq!(order_of(0, 0, 1).total(), 12);
}

#[test]
fn total_takeaway_adds_the_fee_per_item() {
    let in_house = order_of(2, 1, 3);
    let mut takeaway = in_house;
    takeaway.set_takeaway();
    assert!(takeaway.is_takeaway());
    assert_eq!(takeaway.total(), in_house.total() + in_house.items_count() * TAKEAWAY_FEE);
    assert_eq!(takeaway.total(), 97);
}

#[test]
fn two_chicken_one_rice_takeaway_costs_55() {
    let mut order = Order::new();
    order.add_dish(Dish::ThaiChicken);
    order.add_dish(Dish::FriedRice);
    order.add_dish(Dish::ThaiChicken);
    order.set_takeaway();
    assert_eq!(order.dish_count(Dish::ThaiChicken), 2);
    assert_eq!(order.dish_count(Dish::Tofu), 0);
    assert_eq!(order.dish_count(Dish::FriedRice), 1);
    assert_eq!(order.items_count(), 3);
    assert_eq!(order.total(), 55);
    assert_eq!(order.checked_total(), Some(55));
}

#[test]
fn set_takeaway_is_idempotent_and_keeps_the_dishes() {
    let mut order = order_of(1, 1, 0);
    order.set_takeaway();
    let once = order;
    order.set_takeaway();
    assert_eq!(order, once);
    assert!(order.is_takeaway());
    assert_eq!(order.dish_count(Dish::ThaiChicken), 1);
    assert_eq!(order.dish_count(Dish::Tofu), 1);
    assert_eq!(order.dish_count(Dish::FriedRice), 0);
}

#[test]
fn empty_takeaway_order_costs_nothing() {
    let mut order = Order::new();
    order.set_takeaway();
    assert_eq!(order.total(), 0);
    assert!(order.is_empty());
}

#[test]
fn a_copy_of_an_order_is_independent() {
    let mut order = order_of(1, 0, 0);
    let saved = order.clone();
    order.add_dish(Dish::Tofu);
    order.set_takeaway();
    assert_eq!(saved.dish_count(Dish::Tofu), 0);
    assert!(!saved.is_takeaway());
    assert_eq!(saved.total(), 20);
    assert_eq!(order.total(), 37);
}

#[test]
fn order_is_written_in_menu_order() {
    let mut order = order_of(2, 0, 1);
    assert_eq!(order.to_text(), "chicken: 2, tofu: 0, rice: 1, takeway: false");
    order.set_takeaway();
    assert_eq!(order.to_text(), "chicken: 2, tofu: 0, rice: 1, takeway: true");
    assert_eq!(Order::new().to_text(), "chicken: 0, tofu: 0, rice: 0, takeway: false");
    assert_eq!(order_of(12, 105, 30).to_text(), "chicken: 12, tofu: 105, rice: 30, takeway: false");
}

#[test]
fn checked_items_count_agrees_with_items_count() {
    assert_eq!(Order::new().checked_items_count(), Some(0));
    let mut order = order_of(3, 4, 5);
    assert_eq!(order.checked_items_count(), Some(12));
    order.set_takeaway();
    assert_eq!(order.checked_items_count(), Some(order.items_count()));
}

#[test]
fn checked_total_agrees_with_total() {
    let mut order = order_of(3, 4, 5);
    assert_eq!(order.checked_total(), Some(order.total()));
    assert_eq!(order.checked_total(), Some(180));
    order.set_takeaway();
    assert_eq!(order.checked_total(), Some(192));
    assert_eq!(Order::new().checked_total(), Some(0));
}

#[test]
fn checked_total_is_none_past_the_largest_integer() {
    // 20 * 214_748_364 = 4_294_967_280 still fits; one more portion does not.
    let mut order = order_of(214_748_364, 0, 0);
    assert_eq!(order.checked_total(), Some(4_294_967_280));
    assert_eq!(order.total(), 4_294_967_280);
    order.add_dish(Dish::ThaiChicken);
    assert_eq!(order.checked_total(), None);
    assert_eq!(order.dish_count(Dish::ThaiChicken), 214_748_365);
    assert_eq!(order.items_count(), 214_748_365);
}
