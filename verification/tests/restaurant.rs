use van_binh::{Customer, Dish, Order, VanBinh};

fn order_of(chicken: u32, tofu: u32, rice: u32, takeaway: bool) -> Order {
    let mut order = Order::new();
    for _ in 0..chicken {
        order.add_dish(Dish::ThaiChicken);
    }
    for _ in 0..tofu {
        order.add_dish(Dish::Tofu);
    }
    for _ in 0..rice {
        order.add_dish(Dish::FriedRice);
    }
    if takeaway {
        order.set_takeaway();
    }
    order
}

#[test]
fn customer_keeps_name_and_order() {
    let order = order_of(1, 2, 3, true);
    let customer = Customer::new(String::from("Alice"), order);
    assert_eq!(customer.name, "Alice");
    assert_eq!(customer.favorite_order, order);
}

#[test]
fn new_restaurant_has_served_nobody() {
    let restaurant = VanBinh::new();
    assert_eq!(restaurant.get_orders_count(), 0);
    assert!(restaurant.get_saved_customer("Alice").is_none());
    assert!(restaurant.get_saved_customer("").is_none());
}

#[test]
fn saved_customer_is_found_with_the_same_order() {
    let mut restaurant = VanBinh::new();
    let order = order_of(2, 0, 1, true);
    restaurant.add_customer(String::from("Alice"), order.clone());
    let found = restaurant.get_saved_customer("Alice").unwrap();
    assert_eq!(found.name, "Alice");
    for dish in Dish::all() {
        assert_eq!(found.favorite_order.dish_count(dish), order.dish_count(dish));
    }
    assert_eq!(found.favorite_order.is_takeaway(), order.is_takeaway());
    assert_eq!(found.favorite_order.total(), 55);
}

#[test]
fn unknown_name_is_absent() {
    let mut restaurant = VanBinh::new();
    restaurant.add_customer(String::from("Alice"), order_of(1, 0, 0, false));
    assert!(restaurant.get_saved_customer("Bob").is_none());
}

#[test]
fn names_match_exactly() {
    let mut restaurant = VanBinh::new();
    restaurant.add_customer(String::from("Alice"), order_of(1, 0, 0, false));
    assert!(restaurant.get_saved_customer("alice").is_none());
    assert!(restaurant.get_saved_customer("Alice ").is_none());
    assert!(restaurant.get_saved_customer("Alic").is_none());
    assert!(restaurant.get_saved_customer("Alicee").is_none());
    assert!(restaurant.get_saved_customer("Alice").is_some());
}

#[test]
fn a_second_customer_of_the_same_name_stays_behind_the_first() {
    let mut restaurant = VanBinh::new();
    let first = order_of(1, 0, 0, false);
    let second = order_of(0, 2, 0, true);
    restaurant.add_customer(String::from("Alice"), first);
    restaurant.add_customer(String::from("Alice"), second);
    let found = restaurant.get_saved_customer("Alice").unwrap();
    assert_eq!(found.favorite_order, first);
    assert_ne!(found.favorite_order, second);
}

#[test]
fn customers_are_found_among_others() {
    let mut restaurant = VanBinh::new();
    restaurant.add_customer(String::from("Alice"), order_of(1, 0, 0, false));
    restaurant.add_customer(String::from("Bob"), order_of(0, 1, 0, false));
    restaurant.add_customer(String::from("Carol"), order_of(0, 0, 1, true));
    assert_eq!(restaurant.get_saved_customer("Alice").unwrap().favorite_order.total(), 20);
    assert_eq!(restaurant.get_saved_customer("Bob").unwrap().favorite_order.total(), 15);
    assert_eq!(restaurant.get_saved_customer("Carol").unwrap().favorite_order.total(), 13);
    assert!(restaurant.get_saved_customer("Dave").is_none());
}

#[test]
fn saved_order_is_a_snapshot() {
    let mut restaurant = VanBinh::new();
    let mut order = order_of(1, 0, 0, false);
    restaurant.add_customer(String::from("Alice"), order.clone());
    order.add_dish(Dish::Tofu);
    order.set_takeaway();
    let found = restaurant.get_saved_customer("Alice").unwrap();
    assert_eq!(found.favorite_order.items_count(), 1);
    assert!(!found.favorite_order.is_takeaway());
}

#[test]
fn orders_are_counted_one_by_one() {
    let mut restaurant = VanBinh::new();
    restaurant.increase_orders_count();
    assert_eq!(restaurant.get_orders_count(), 1);
    restaurant.increase_orders_count();
    restaurant.increase_orders_count();
    assert_eq!(restaurant.get_orders_count(), 3);
}

#[test]
fn saving_a_customer_counts_no_order() {
    let mut restaurant = VanBinh::new();
    restaurant.increase_orders_count();
    restaurant.add_customer(String::from("Alice"), Order::new());
    assert_eq!(restaurant.get_orders_count(), 1);
}
