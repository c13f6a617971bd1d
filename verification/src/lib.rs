//! An ordering kiosk for a small restaurant: a fixed menu, orders with an
//! optional takeaway surcharge, the customers with their favorite orders,
//! and the dialogue that ties them together.

pub mod kiosk;
pub mod menu;
pub mod order;
pub mod restaurant;
pub mod text;

pub use kiosk::{Kiosk, Reply, Stage};
pub use menu::{Dish, MENU_SIZE, TAKEAWAY_FEE};
pub use order::Order;
pub use restaurant::{Customer, VanBinh};
