//! The restaurant's memory: the customers who saved a favorite order, and
//! the number of orders served so far.

use vstd::prelude::*;
use crate::order::{Order, OrderView};

verus! {

/// What a customer is: a name and the order saved under it.
pub struct CustomerView {
    pub name: Seq<char>,
    pub favorite_order: OrderView,
}

/// A customer who saved a favorite order.
#[derive(Debug, PartialEq, Eq)]
pub struct Customer {
    pub name: String,
    pub favorite_order: Order,
}

impl View for Customer {
    type V = CustomerView;

    open spec fn view(&self) -> CustomerView {
        CustomerView { name: self.name@, favorite_order: self.favorite_order@ }
    }
}

impl Customer {
    /// A customer called `name` whose usual order is `favorite_order`.
    pub fn new(name: String, favorite_order: Order) -> (customer: Customer)
        ensures
            customer@ == (CustomerView { name: name@, favorite_order: favorite_order@ }),
    {
        Customer { name, favorite_order }
    }
}

/// What the restaurant remembers: the customers in the order in which they
/// were saved, and how many orders were served.
pub struct VanBinhView {
    pub orders_count: nat,
    pub customers: Seq<CustomerView>,
}

impl VanBinhView {
    /// The restaurant before its first customer.
    pub open spec fn empty() -> VanBinhView {
        VanBinhView { orders_count: 0, customers: Seq::empty() }
    }

    /// Whether the customer at `i` is the first one saved under `name`.
    pub open spec fn is_first_named(self, name: Seq<char>, i: int) -> bool {
        &&& 0 <= i < self.customers.len()
        &&& self.customers[i].name == name
        &&& forall|j: int| 0 <= j < i ==> (#[trigger] self.customers[j]).name != name
    }

    /// Whether some customer was saved under `name`.
    pub open spec fn knows(self, name: Seq<char>) -> bool {
        exists|i: int| 0 <= i < self.customers.len() && (#[trigger] self.customers[i]).name == name
    }

    /// The first customer saved under `name`, if there is one.
    pub open spec fn saved(self, name: Seq<char>) -> Option<CustomerView> {
        if exists|i: int| self.is_first_named(name, i) {
            Some(self.customers[choose|i: int| self.is_first_named(name, i)])
        } else {
            None
        }
    }

    /// The restaurant after `name` saved `favorite_order`: one more customer,
    /// behind all the others.
    pub open spec fn with_customer(
        self,
        name: Seq<char>,
        favorite_order: OrderView,
    ) -> VanBinhView {
        VanBinhView {
            orders_count: self.orders_count,
            customers: self.customers.push(CustomerView { name, favorite_order }),
        }
    }

    /// The restaurant after one more order was served.
    pub open spec fn with_order_served(self) -> VanBinhView {
        VanBinhView { orders_count: self.orders_count + 1, customers: self.customers }
    }
}

/// The restaurant: its saved customers and its count of orders.
pub struct VanBinh {
    orders_count: u32,
    customers: Vec<Customer>,
}

impl View for VanBinh {
    type V = VanBinhView;

    closed spec fn view(&self) -> VanBinhView {
        VanBinhView {
            orders_count: self.orders_count as nat,
            customers: Seq::new(self.customers@.len(), |i: int| self.customers@[i]@),
        }
    }
}

impl VanBinh {
    /// A restaurant that has served no order and knows no customer.
    pub fn new() -> (restaurant: VanBinh)
        ensures
            restaurant@ == VanBinhView::empty(),
    {
        let restaurant = VanBinh { orders_count: 0, customers: Vec::new() };
        assert(restaurant@.customers =~= Seq::empty());
        restaurant
    }

    /// Saves `favorite_order` under `name`, behind all customers saved
    /// before, whether or not one of them has the same name.
    pub fn add_customer(&mut self, name: String, favorite_order: Order)
        ensures
            final(self)@ == old(self)@.with_customer(name@, favorite_order@),
    {
        self.customers.push(Customer::new(name, favorite_order));
        assert(self@.customers =~= old(self)@.with_customer(name@, favorite_order@).customers);
    }

    /// The first customer saved under exactly `name`, if there is one.
    pub fn get_saved_customer(&self, name: &str) -> (found: Option<&Customer>)
        ensures
            match found {
                Some(customer) => self@.saved(name@) == Some(customer@),
                None => self@.saved(name@) is None,
            },
    {
        let wanted = name.to_owned();
        let mut i: usize = 0;
        while i < self.customers.len()
            invariant
                i <= self.customers.len(),
                wanted@ == name@,
                forall|j: int| 0 <= j < i ==> (#[trigger] self@.customers[j]).name != name@,
            decreases self.customers.len() - i,
        {
            if self.customers[i].name == wanted {
                proof {
                    assert(self@.is_first_named(name@, i as int));
                    lemma_first_named_is_unique(self@, name@, i as int);
                }
                return Some(&self.customers[i]);
            }
            i = i + 1;
        }
        proof {
            lemma_unknown_name_is_not_saved(self@, name@);
        }
        None
    }

    /// Counts one more order as served.
    pub fn increase_orders_count(&mut self)
        requires
            old(self)@.orders_count < u32::MAX,
        ensures
            final(self)@ == old(self)@.with_order_served(),
    {
        self.orders_count = self.orders_count + 1;
        assert(self@.customers =~= old(self)@.customers);
    }

    /// The number of orders served so far.
    pub fn get_orders_count(&self) -> (count: u32)
        ensures
            count == self@.orders_count,
    {
        self.orders_count
    }
}

/// Where the first customer saved under `name` stands, `saved` finds that
/// customer and no other.
pub proof fn lemma_first_named_is_unique(restaurant: VanBinhView, name: Seq<char>, i: int)
    requires
        restaurant.is_first_named(name, i),
    ensures
        restaurant.saved(name) == Some(restaurant.customers[i]),
{
    let chosen = choose|k: int| restaurant.is_first_named(name, k);
    assert(restaurant.is_first_named(name, chosen));
    if chosen < i {
        assert(restaurant.customers[chosen].name != name);
    } else if i < chosen {
        assert(restaurant.customers[i].name != name);
    }
}

/// A name is found exactly when some customer was saved under it.
pub proof fn lemma_saved_iff_known(restaurant: VanBinhView, name: Seq<char>)
    ensures
        restaurant.saved(name) is Some <==> restaurant.knows(name),
        restaurant.saved(name) matches Some(customer) ==> customer.name == name,
{
    if restaurant.knows(name) {
        let i = choose|i: int|
            0 <= i < restaurant.customers.len() && (#[trigger] restaurant.customers[i]).name
                == name;
        lemma_known_name_has_a_first(restaurant, name, i);
    }
    if restaurant.saved(name) is Some {
        let i = choose|i: int| restaurant.is_first_named(name, i);
        assert(restaurant.customers[i].name == name);
    }
}

/// Before the first customer with a given name there is none with that name.
proof fn lemma_known_name_has_a_first(restaurant: VanBinhView, name: Seq<char>, i: int)
    requires
        0 <= i < restaurant.customers.len(),
        restaurant.customers[i].name == name,
    ensures
        exists|k: int| restaurant.is_first_named(name, k),
    decreases i,
{
    if exists|j: int| 0 <= j < i && (#[trigger] restaurant.customers[j]).name == name {
        let j = choose|j: int| 0 <= j < i && (#[trigger] restaurant.customers[j]).name == name;
        lemma_known_name_has_a_first(restaurant, name, j);
    } else {
        assert(restaurant.is_first_named(name, i));
    }
}

/// A name under which nobody was saved is not found.
pub proof fn lemma_unknown_name_is_not_saved(restaurant: VanBinhView, name: Seq<char>)
    requires
        !restaurant.knows(name),
    ensures
        restaurant.saved(name) is None,
{
    lemma_saved_iff_known(restaurant, name);
}

/// A customer who has just been saved is found under the very same name,
/// with the order that was saved: its quantities and its takeaway flag. The
/// one case left out is a name that already stands for another order, since
/// the search stops at the first customer of that name.
pub proof fn lemma_saved_customer_is_found(
    restaurant: VanBinhView,
    name: Seq<char>,
    favorite_order: OrderView,
)
    requires
        restaurant.saved(name) matches Some(earlier) ==> earlier.favorite_order == favorite_order,
    ensures
        restaurant.with_customer(name, favorite_order).saved(name) == Some(
            CustomerView { name, favorite_order },
        ),
{
    let after = restaurant.with_customer(name, favorite_order);
    lemma_saved_iff_known(restaurant, name);
    if restaurant.knows(name) {
        lemma_saving_keeps_earlier_customers(restaurant, name, favorite_order, name);
    } else {
        let at = restaurant.customers.len() as int;
        assert forall|j: int| 0 <= j < at implies (#[trigger] after.customers[j]).name != name by {
            assert(after.customers[j] == restaurant.customers[j]);
        }
        assert(after.is_first_named(name, at));
        lemma_first_named_is_unique(after, name, at);
    }
}

/// Saving a customer changes nothing for those who were saved before, nor
/// for any other name: only a name that was unknown is now found.
pub proof fn lemma_saving_keeps_earlier_customers(
    restaurant: VanBinhView,
    name: Seq<char>,
    favorite_order: OrderView,
    other: Seq<char>,
)
    requires
        restaurant.knows(other) || other != name,
    ensures
        restaurant.with_customer(name, favorite_order).saved(other) == restaurant.saved(other),
{
    let after = restaurant.with_customer(name, favorite_order);
    lemma_saved_iff_known(restaurant, other);
    lemma_saved_iff_known(after, other);
    if restaurant.knows(other) {
        let i = choose|i: int| restaurant.is_first_named(other, i);
        assert forall|j: int| 0 <= j < i implies (#[trigger] after.customers[j]).name != other by {
            assert(after.customers[j] == restaurant.customers[j]);
        }
        assert(after.customers[i] == restaurant.customers[i]);
        assert(after.is_first_named(other, i));
        lemma_first_named_is_unique(after, other, i);
        lemma_first_named_is_unique(restaurant, other, i);
    } else {
        assert forall|j: int| 0 <= j < after.customers.len() implies (#[trigger] after.customers[j]).name
            != other by {
            if j < restaurant.customers.len() {
                assert(after.customers[j] == restaurant.customers[j]);
            }
        }
    }
}

/// A restaurant that has saved nobody finds nobody.
pub proof fn lemma_new_restaurant_knows_nobody(name: Seq<char>)
    ensures
        VanBinhView::empty().saved(name) is None,
{
    lemma_saved_iff_known(VanBinhView::empty(), name);
}

} // verus!
