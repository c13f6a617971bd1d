//! The dialogue at the kiosk: one line in, the kiosk's replies out.
//!
//! The kiosk asks for a name, offers a returning customer the usual order,
//! takes a new order dish by dish, asks about takeaway and about saving, and
//! reports what was ordered. It never reads or prints by itself: the caller
//! shows `prompt`, hands the answer to `feed` or `step`, and shows the replies.

use vstd::prelude::*;
use crate::menu::Dish;
use crate::order::{lemma_total_covers_items, Order, OrderView};
use crate::restaurant::{VanBinh, VanBinhView};
use crate::text::{contains, decimal, has_infix, number_text, same_text, trim, trimmed};

verus! {

/// What a reply is.
pub enum ReplyView {
    AskName,
    AskSameAsUsual,
    AskDish,
    AskTakeaway,
    AskSave,
    WelcomeBack(Seq<char>),
    Welcome(Seq<char>),
    UnknownDish(Seq<char>),
    EmptyOrder,
    OrderNumber(nat),
    Receipt { order: OrderView, total: nat },
    Bye,
}

impl ReplyView {
    /// The line that the customer reads.
    pub open spec fn text(self) -> Seq<char> {
        match self {
            ReplyView::AskName => "Hi! Welcome to Van Binh! What's your name?"@,
            ReplyView::AskSameAsUsual => "Same as usual? (y/n)"@,
            ReplyView::AskDish => "Enter dish name or empty line to finish:"@,
            ReplyView::AskTakeaway => "Takeaway? (y/n)"@,
            ReplyView::AskSave => "Would you like to save this order? (y/n)"@,
            ReplyView::WelcomeBack(name) => "Welcome back, "@ + name + "!"@,
            ReplyView::Welcome(name) => "Welcome, "@ + name + "!"@,
            ReplyView::UnknownDish(line) => "Unknown dish name: "@ + line,
            ReplyView::EmptyOrder => "Your order is empty!"@,
            ReplyView::OrderNumber(number) => "This is order no. "@ + decimal(number),
            ReplyView::Receipt { order, total } => "There you go: "@ + order.text()
                + ", it's going to be "@ + decimal(total) + " z??"@,
            ReplyView::Bye => "Bye!"@,
        }
    }
}

/// One thing that the kiosk says: a question that it waits to have
/// answered, or a message.
#[derive(Debug, PartialEq, Eq)]
pub enum Reply {
    /// The question for the customer's name.
    AskName,
    /// The question whether a returning customer wants the saved order.
    AskSameAsUsual,
    /// The question for the next dish.
    AskDish,
    /// The question whether the order is for takeaway.
    AskTakeaway,
    /// The question whether to save the order as the customer's favorite.
    AskSave,
    /// The greeting for a customer who is known, by the name saved.
    WelcomeBack(String),
    /// The greeting for a customer who is new, by the name entered.
    Welcome(String),
    /// The warning that a line names no dish, with the line.
    UnknownDish(String),
    /// The message that nothing was ordered.
    EmptyOrder,
    /// The number of the order among those served.
    OrderNumber(u32),
    /// What was ordered and what it costs.
    Receipt { order: Order, total: u32 },
    /// The farewell.
    Bye,
}

impl View for Reply {
    type V = ReplyView;

    open spec fn view(&self) -> ReplyView {
        match *self {
            Reply::AskName => ReplyView::AskName,
            Reply::AskSameAsUsual => ReplyView::AskSameAsUsual,
            Reply::AskDish => ReplyView::AskDish,
            Reply::AskTakeaway => ReplyView::AskTakeaway,
            Reply::AskSave => ReplyView::AskSave,
            Reply::WelcomeBack(name) => ReplyView::WelcomeBack(name@),
            Reply::Welcome(name) => ReplyView::Welcome(name@),
            Reply::UnknownDish(line) => ReplyView::UnknownDish(line@),
            Reply::EmptyOrder => ReplyView::EmptyOrder,
            Reply::OrderNumber(number) => ReplyView::OrderNumber(number as nat),
            Reply::Receipt { order, total } => ReplyView::Receipt {
                order: order@,
                total: total as nat,
            },
            Reply::Bye => ReplyView::Bye,
        }
    }
}

impl Reply {
    /// The line that the customer reads.
    pub fn to_text(&self) -> (text: String)
        ensures
            text@ == self@.text(),
    {
        match self {
            Reply::AskName => String::from_str("Hi! Welcome to Van Binh! What's your name?"),
            Reply::AskSameAsUsual => String::from_str("Same as usual? (y/n)"),
            Reply::AskDish => String::from_str("Enter dish name or empty line to finish:"),
            Reply::AskTakeaway => String::from_str("Takeaway? (y/n)"),
            Reply::AskSave => String::from_str("Would you like to save this order? (y/n)"),
            Reply::WelcomeBack(name) => {
                let mut text = String::from_str("Welcome back, ");
                text.append(name.as_str());
                text.append("!");
                text
            },
            Reply::Welcome(name) => {
                let mut text = String::from_str("Welcome, ");
                text.append(name.as_str());
                text.append("!");
                text
            },
            Reply::UnknownDish(line) => {
                let mut text = String::from_str("Unknown dish name: ");
                text.append(line.as_str());
                text
            },
            Reply::EmptyOrder => String::from_str("Your order is empty!"),
            Reply::OrderNumber(number) => {
                let mut text = String::from_str("This is order no. ");
                text.append(number_text(*number).as_str());
                text
            },
            Reply::Receipt { order, total } => {
                let mut text = String::from_str("There you go: ");
                text.append(order.to_text().as_str());
                text.append(", it's going to be ");
                text.append(number_text(*total).as_str());
                text.append(" z??");
                text
            },
            Reply::Bye => String::from_str("Bye!"),
        }
    }
}

/// What each reply in a list is.
pub open spec fn reply_views(replies: Seq<Reply>) -> Seq<ReplyView> {
    Seq::new(replies.len(), |i: int| replies[i]@)
}

/// The dish that a line asks for: the first of chicken, tofu and rice whose
/// word stands somewhere in the line.
pub open spec fn dish_named(line: Seq<char>) -> Option<Dish> {
    if has_infix(line, "chicken"@) {
        Some(Dish::ThaiChicken)
    } else if has_infix(line, "tofu"@) {
        Some(Dish::Tofu)
    } else if has_infix(line, "rice"@) {
        Some(Dish::FriedRice)
    } else {
        None
    }
}

/// Whether a line answers a question with yes: it is the single letter `y`.
pub open spec fn says_yes(line: Seq<char>) -> bool {
    line == "y"@
}

/// The dish that `line` asks for, if it names one.
pub fn find_dish(line: &str) -> (dish: Option<Dish>)
    ensures
        dish == dish_named(line@),
{
    if contains(line, "chicken") {
        Some(Dish::ThaiChicken)
    } else if contains(line, "tofu") {
        Some(Dish::Tofu)
    } else if contains(line, "rice") {
        Some(Dish::FriedRice)
    } else {
        None
    }
}

/// Whether `line` answers a question with yes.
pub fn is_yes(line: &str) -> (yes: bool)
    ensures
        yes == says_yes(line@),
{
    same_text(line, "y")
}

/// What a stage of the dialogue is.
pub enum StageView {
    AskName,
    SameAsUsual { favorite: OrderView },
    OrderEntry { new_customer: Option<Seq<char>>, order: OrderView },
    Takeaway { new_customer: Option<Seq<char>>, order: OrderView },
    SaveOrder { name: Seq<char>, order: OrderView },
    Finished,
}

impl StageView {
    /// The start of an order: nothing entered yet. A new customer's name is
    /// kept for the question about saving; a returning customer has none.
    pub open spec fn entry(new_customer: Option<Seq<char>>) -> StageView {
        StageView::OrderEntry { new_customer, order: OrderView::empty() }
    }

    /// The question that the kiosk waits to have answered at this stage.
    pub open spec fn prompt(self) -> Option<ReplyView> {
        match self {
            StageView::AskName => Some(ReplyView::AskName),
            StageView::SameAsUsual { .. } => Some(ReplyView::AskSameAsUsual),
            StageView::OrderEntry { .. } => Some(ReplyView::AskDish),
            StageView::Takeaway { .. } => Some(ReplyView::AskTakeaway),
            StageView::SaveOrder { .. } => Some(ReplyView::AskSave),
            StageView::Finished => None,
        }
    }
}

/// Where the dialogue stands: which answer the kiosk waits for, and what it
/// has gathered for the order at hand.
#[derive(Debug, PartialEq, Eq)]
pub enum Stage {
    /// Waiting for the customer's name.
    AskName,
    /// Waiting for a returning customer to take or decline the saved order.
    SameAsUsual { favorite: Order },
    /// Waiting for the next dish. A new customer's name is kept so that the
    /// order can be saved under it.
    OrderEntry { new_customer: Option<String>, order: Order },
    /// Waiting for the answer about takeaway.
    Takeaway { new_customer: Option<String>, order: Order },
    /// Waiting for a new customer's answer about saving the order.
    SaveOrder { name: String, order: Order },
    /// The kiosk has said goodbye.
    Finished,
}

/// What a name is, where there is one.
pub open spec fn name_view(name: Option<String>) -> Option<Seq<char>> {
    match name {
        Some(name) => Some(name@),
        None => None,
    }
}

impl View for Stage {
    type V = StageView;

    open spec fn view(&self) -> StageView {
        match *self {
            Stage::AskName => StageView::AskName,
            Stage::SameAsUsual { favorite } => StageView::SameAsUsual { favorite: favorite@ },
            Stage::OrderEntry { new_customer, order } => StageView::OrderEntry {
                new_customer: name_view(new_customer),
                order: order@,
            },
            Stage::Takeaway { new_customer, order } => StageView::Takeaway {
                new_customer: name_view(new_customer),
                order: order@,
            },
            Stage::SaveOrder { name, order } => StageView::SaveOrder { name: name@, order: order@ },
            Stage::Finished => StageView::Finished,
        }
    }
}

/// What the kiosk is: what the restaurant remembers, and where the dialogue
/// stands.
pub struct KioskView {
    pub restaurant: VanBinhView,
    pub stage: StageView,
}

impl KioskView {
    /// The kiosk when it is switched on in a restaurant that has served
    /// nobody yet.
    pub open spec fn start() -> KioskView {
        Self::opening(VanBinhView::empty())
    }

    /// The kiosk when it is switched on in `restaurant`.
    pub open spec fn opening(restaurant: VanBinhView) -> KioskView {
        KioskView { restaurant, stage: StageView::AskName }
    }

    /// This kiosk at another stage of the dialogue.
    pub open spec fn at(self, stage: StageView) -> KioskView {
        KioskView { restaurant: self.restaurant, stage }
    }

    /// Whether `order` can be reported with the machine's integers: it is
    /// empty, or else the count of orders can grow by one and the total fits.
    pub open spec fn can_serve(self, order: OrderView) -> bool {
        ||| order.items() == 0
        ||| (self.restaurant.orders_count < u32::MAX && order.total() <= u32::MAX)
    }

    /// The end of a dialogue: an empty order is only said to be empty; any
    /// other is counted and reported with its number and its total. Then the
    /// kiosk asks for the next name.
    pub open spec fn serve(self, order: OrderView) -> (KioskView, Seq<ReplyView>) {
        if order.items() == 0 {
            (self.at(StageView::AskName), seq![ReplyView::EmptyOrder])
        } else {
            (
                Self::opening(self.restaurant.with_order_served()),
                seq![
                    ReplyView::OrderNumber(self.restaurant.orders_count + 1),
                    ReplyView::Receipt { order, total: order.total() },
                ],
            )
        }
    }

    /// What a name leads to: the farewell for an empty line, the offer of
    /// the saved order for a known customer, a fresh order for a new one.
    pub open spec fn take_name(self, line: Seq<char>) -> (KioskView, Seq<ReplyView>) {
        if line.len() == 0 {
            (self.at(StageView::Finished), seq![ReplyView::Bye])
        } else {
            match self.restaurant.saved(line) {
                Some(customer) => (
                    self.at(StageView::SameAsUsual { favorite: customer.favorite_order }),
                    seq![ReplyView::WelcomeBack(customer.name)],
                ),
                None => (
                    self.at(StageView::entry(Some(line))),
                    seq![ReplyView::Welcome(line)],
                ),
            }
        }
    }

    /// What a line leads to while dishes are entered: an empty line ends
    /// the entry, a line that names a dish adds one portion of it, any other
    /// line is answered with a warning and changes nothing.
    pub open spec fn take_dish(
        self,
        new_customer: Option<Seq<char>>,
        order: OrderView,
        line: Seq<char>,
    ) -> (KioskView, Seq<ReplyView>) {
        if line.len() == 0 {
            (self.at(StageView::Takeaway { new_customer, order }), Seq::empty())
        } else {
            match dish_named(line) {
                Some(dish) => (
                    self.at(StageView::OrderEntry { new_customer, order: order.add(dish) }),
                    Seq::empty(),
                ),
                None => (
                    self.at(StageView::OrderEntry { new_customer, order }),
                    seq![ReplyView::UnknownDish(line)],
                ),
            }
        }
    }

    /// The order after the answer about takeaway.
    pub open spec fn packed(order: OrderView, line: Seq<char>) -> OrderView {
        if says_yes(line) {
            order.with_takeaway()
        } else {
            order
        }
    }

    /// What the restaurant remembers after the answer about saving.
    pub open spec fn remembered(
        self,
        name: Seq<char>,
        order: OrderView,
        line: Seq<char>,
    ) -> KioskView {
        if says_yes(line) {
            KioskView {
                restaurant: self.restaurant.with_customer(name, order),
                stage: self.stage,
            }
        } else {
            self
        }
    }

    /// Whether the order can take what `line` asks for: a line that names
    /// a dish needs room for one more portion of it.
    pub open spec fn has_room(order: OrderView, line: Seq<char>) -> bool {
        match dish_named(line) {
            Some(dish) => line.len() > 0 ==> order.counts[dish] < u32::MAX,
            None => true,
        }
    }

    /// Whether the step for `line` stays within the machine's integers.
    pub open spec fn accepts(self, line: Seq<char>) -> bool {
        match self.stage {
            StageView::AskName => true,
            StageView::SameAsUsual { favorite } => says_yes(line) ==> self.can_serve(favorite),
            StageView::OrderEntry { new_customer, order } => Self::has_room(order, line),
            StageView::Takeaway { new_customer, order } => {
                new_customer is None ==> self.can_serve(Self::packed(order, line))
            },
            StageView::SaveOrder { name, order } => self.can_serve(order),
            StageView::Finished => true,
        }
    }

    /// The kiosk after `line`, and what it says in reply.
    pub open spec fn step(self, line: Seq<char>) -> (KioskView, Seq<ReplyView>) {
        match self.stage {
            StageView::AskName => self.take_name(line),
            StageView::SameAsUsual { favorite } => if says_yes(line) {
                self.serve(favorite)
            } else {
                (self.at(StageView::entry(None)), Seq::empty())
            },
            StageView::OrderEntry { new_customer, order } => {
                self.take_dish(new_customer, order, line)
            },
            StageView::Takeaway { new_customer, order } => match new_customer {
                Some(name) => (
                    self.at(StageView::SaveOrder { name, order: Self::packed(order, line) }),
                    Seq::empty(),
                ),
                None => self.serve(Self::packed(order, line)),
            },
            StageView::SaveOrder { name, order } => {
                self.remembered(name, order, line).serve(order)
            },
            StageView::Finished => (self, Seq::empty()),
        }
    }
}

/// The kiosk: the restaurant's memory and the stage of the dialogue.
pub struct Kiosk {
    restaurant: VanBinh,
    stage: Stage,
}

impl View for Kiosk {
    type V = KioskView;

    closed spec fn view(&self) -> KioskView {
        KioskView { restaurant: self.restaurant@, stage: self.stage@ }
    }
}

/// No reply.
fn no_reply() -> (replies: Vec<Reply>)
    ensures
        reply_views(replies@) == Seq::<ReplyView>::empty(),
{
    let replies: Vec<Reply> = Vec::new();
    assert(reply_views(replies@) =~= Seq::<ReplyView>::empty());
    replies
}

/// A single reply.
fn one_reply(reply: Reply) -> (replies: Vec<Reply>)
    ensures
        reply_views(replies@) == seq![reply@],
{
    let mut replies: Vec<Reply> = Vec::new();
    replies.push(reply);
    assert(reply_views(replies@) =~= seq![reply@]);
    replies
}

/// Two replies, in this order.
fn two_replies(first: Reply, second: Reply) -> (replies: Vec<Reply>)
    ensures
        reply_views(replies@) == seq![first@, second@],
{
    let mut replies: Vec<Reply> = Vec::new();
    replies.push(first);
    replies.push(second);
    assert(reply_views(replies@) =~= seq![first@, second@]);
    replies
}

impl Kiosk {
    /// A kiosk that waits for the first customer of a new restaurant.
    pub fn new() -> (kiosk: Kiosk)
        ensures
            kiosk@ == KioskView::start(),
    {
        Kiosk::with_restaurant(VanBinh::new())
    }

    /// A kiosk that waits for the next customer of `restaurant`.
    pub fn with_restaurant(restaurant: VanBinh) -> (kiosk: Kiosk)
        ensures
            kiosk@ == KioskView::opening(restaurant@),
    {
        Kiosk { restaurant, stage: Stage::AskName }
    }

    /// What the restaurant remembers.
    pub fn restaurant(&self) -> (restaurant: &VanBinh)
        ensures
            restaurant@ == self@.restaurant,
    {
        &self.restaurant
    }

    /// Where the dialogue stands.
    pub fn stage(&self) -> (stage: &Stage)
        ensures
            stage@ == self@.stage,
    {
        &self.stage
    }

    /// Whether the kiosk has said goodbye.
    pub fn is_finished(&self) -> (finished: bool)
        ensures
            finished == (self@.stage is Finished),
    {
        match self.stage {
            Stage::Finished => true,
            _ => false,
        }
    }

    /// The question that the kiosk waits to have answered, or `None` once it
    /// has said goodbye.
    pub fn prompt(&self) -> (prompt: Option<Reply>)
        ensures
            match prompt {
                Some(reply) => self@.stage.prompt() == Some(reply@),
                None => self@.stage.prompt() is None,
            },
    {
        match self.stage {
            Stage::AskName => Some(Reply::AskName),
            Stage::SameAsUsual { .. } => Some(Reply::AskSameAsUsual),
            Stage::OrderEntry { .. } => Some(Reply::AskDish),
            Stage::Takeaway { .. } => Some(Reply::AskTakeaway),
            Stage::SaveOrder { .. } => Some(Reply::AskSave),
            Stage::Finished => None,
        }
    }

    /// Whether `order` can be reported with the machine's integers.
    fn can_serve(&self, order: &Order) -> (ok: bool)
        ensures
            ok == self@.can_serve(order@),
    {
        order.is_empty() || (self.restaurant.get_orders_count() < u32::MAX
            && order.checked_total().is_some())
    }

    /// Whether `step` may be called with `line`: whether the step stays
    /// within the machine's integers.
    pub fn can_step(&self, line: &str) -> (ok: bool)
        ensures
            ok == self@.accepts(line@),
    {
        match &self.stage {
            Stage::AskName => true,
            Stage::SameAsUsual { favorite } => !is_yes(line) || self.can_serve(favorite),
            Stage::OrderEntry { new_customer, order } => {
                if line.is_empty() {
                    true
                } else {
                    match find_dish(line) {
                        Some(dish) => order.dish_count(dish) < u32::MAX,
                        None => true,
                    }
                }
            },
            Stage::Takeaway { new_customer, order } => {
                if new_customer.is_some() {
                    true
                } else {
                    let mut packed = *order;
                    if is_yes(line) {
                        packed.set_takeaway();
                    }
                    self.can_serve(&packed)
                }
            },
            Stage::SaveOrder { name, order } => self.can_serve(order),
            Stage::Finished => true,
        }
    }

    /// Ends a dialogue with `order`.
    fn serve(&mut self, order: Order) -> (replies: Vec<Reply>)
        requires
            old(self)@.can_serve(order@),
        ensures
            final(self)@ == old(self)@.serve(order@).0,
            reply_views(replies@) == old(self)@.serve(order@).1,
    {
        self.stage = Stage::AskName;
        if order.is_empty() {
            one_reply(Reply::EmptyOrder)
        } else {
            proof {
                lemma_total_covers_items(order@);
            }
            self.restaurant.increase_orders_count();
            let number = self.restaurant.get_orders_count();
            let total = order.total();
            two_replies(Reply::OrderNumber(number), Reply::Receipt { order, total })
        }
    }

    /// Takes the customer's name.
    fn take_name(&mut self, line: &str) -> (replies: Vec<Reply>)
        ensures
            final(self)@ == old(self)@.take_name(line@).0,
            reply_views(replies@) == old(self)@.take_name(line@).1,
    {
        if line.is_empty() {
            self.stage = Stage::Finished;
            one_reply(Reply::Bye)
        } else {
            match self.restaurant.get_saved_customer(line) {
                Some(customer) => {
                    let greeting = Reply::WelcomeBack(customer.name.clone());
                    self.stage = Stage::SameAsUsual { favorite: customer.favorite_order };
                    one_reply(greeting)
                },
                None => {
                    self.stage = Stage::OrderEntry {
                        new_customer: Some(line.to_owned()),
                        order: Order::new(),
                    };
                    one_reply(Reply::Welcome(line.to_owned()))
                },
            }
        }
    }

    /// Takes one line of the order.
    fn take_dish(
        &mut self,
        new_customer: Option<String>,
        order: Order,
        line: &str,
    ) -> (replies: Vec<Reply>)
        requires
            KioskView::has_room(order@, line@),
        ensures
            final(self)@ == old(self)@.take_dish(name_view(new_customer), order@, line@).0,
            reply_views(replies@) == old(self)@.take_dish(
                name_view(new_customer),
                order@,
                line@,
            ).1,
    {
        if line.is_empty() {
            self.stage = Stage::Takeaway { new_customer, order };
            no_reply()
        } else {
            match find_dish(line) {
                Some(dish) => {
                    let mut order = order;
                    order.add_dish(dish);
                    self.stage = Stage::OrderEntry { new_customer, order };
                    no_reply()
                },
                None => {
                    self.stage = Stage::OrderEntry { new_customer, order };
                    one_reply(Reply::UnknownDish(line.to_owned()))
                },
            }
        }
    }

    /// Takes the answer `line` to the question that `prompt` gives, and says
    /// what the kiosk replies. The line is taken as it is, white space
    /// included.
    pub fn step(&mut self, line: &str) -> (replies: Vec<Reply>)
        requires
            old(self)@.accepts(line@),
        ensures
            final(self)@ == old(self)@.step(line@).0,
            reply_views(replies@) == old(self)@.step(line@).1,
    {
        let mut stage = Stage::Finished;
        core::mem::swap(&mut self.stage, &mut stage);
        match stage {
            Stage::AskName => self.take_name(line),
            Stage::SameAsUsual { favorite } => {
                if is_yes(line) {
                    self.serve(favorite)
                } else {
                    self.stage = Stage::OrderEntry { new_customer: None, order: Order::new() };
                    no_reply()
                }
            },
            Stage::OrderEntry { new_customer, order } => self.take_dish(new_customer, order, line),
            Stage::Takeaway { new_customer, order } => {
                let mut order = order;
                if is_yes(line) {
                    order.set_takeaway();
                }
                match new_customer {
                    Some(name) => {
                        self.stage = Stage::SaveOrder { name, order };
                        no_reply()
                    },
                    None => self.serve(order),
                }
            },
            Stage::SaveOrder { name, order } => {
                if is_yes(line) {
                    self.restaurant.add_customer(name, order);
                }
                self.serve(order)
            },
            Stage::Finished => no_reply(),
        }
    }

    /// Takes a line as it was read, strips the white space at its two ends,
    /// and makes the step for what is left. Where that step would leave the
    /// machine's integers, nothing changes and the answer is `None`.
    pub fn feed(&mut self, raw: &str) -> (replies: Option<Vec<Reply>>)
        ensures
            match replies {
                Some(replies) => {
                    &&& old(self)@.accepts(trimmed(raw@))
                    &&& final(self)@ == old(self)@.step(trimmed(raw@)).0
                    &&& reply_views(replies@) == old(self)@.step(trimmed(raw@)).1
                },
                None => !old(self)@.accepts(trimmed(raw@)) && final(self)@ == old(self)@,
            },
    {
        let line = trim(raw);
        if self.can_step(line) {
            Some(self.step(line))
        } else {
            None
        }
    }
}

/// A line that names no dish is answered with a warning and changes
/// nothing: the order is what it was, and the kiosk asks for a dish again.
pub proof fn lemma_unknown_dish_changes_nothing(kiosk: KioskView, line: Seq<char>)
    requires
        kiosk.stage is OrderEntry,
        line.len() > 0,
        dish_named(line) is None,
    ensures
        kiosk.accepts(line),
        kiosk.step(line).0 == kiosk,
        kiosk.step(line).1 == seq![ReplyView::UnknownDish(line)],
        kiosk.step(line).0.stage.prompt() == Some(ReplyView::AskDish),
{
}

/// A line that names a dish adds one portion of it, and of nothing else, to
/// the order at hand, without a word from the kiosk.
pub proof fn lemma_named_dish_is_added(kiosk: KioskView, line: Seq<char>, dish: Dish)
    requires
        kiosk.stage is OrderEntry,
        line.len() > 0,
        dish_named(line) == Some(dish),
    ensures
        kiosk.step(line).0.stage == (StageView::OrderEntry {
            new_customer: kiosk.stage->OrderEntry_new_customer,
            order: kiosk.stage->OrderEntry_order.add(dish),
        }),
        kiosk.step(line).0.restaurant == kiosk.restaurant,
        kiosk.step(line).1 == Seq::<ReplyView>::empty(),
{
}

/// An order without items is not counted: the kiosk only says that it is
/// empty. Any other order raises the count of orders by one and is reported
/// under the new count, with its total.
pub proof fn lemma_only_orders_with_items_count(kiosk: KioskView, order: OrderView)
    ensures
        kiosk.serve(order).0.stage is AskName,
        kiosk.serve(order).0.restaurant.customers == kiosk.restaurant.customers,
        order.items() == 0 ==> {
            &&& kiosk.serve(order).0.restaurant == kiosk.restaurant
            &&& kiosk.serve(order).1 == seq![ReplyView::EmptyOrder]
        },
        order.items() > 0 ==> {
            &&& kiosk.serve(order).0.restaurant.orders_count == kiosk.restaurant.orders_count + 1
            &&& kiosk.serve(order).1 == seq![
                ReplyView::OrderNumber(kiosk.restaurant.orders_count + 1),
                ReplyView::Receipt { order, total: order.total() },
            ]
        },
{
}

/// Whatever the line, the kiosk forgets no customer and never counts
/// backwards: those saved before stay first in line, in the same order, and
/// the count of orders stays or grows by one.
pub proof fn lemma_step_keeps_memory(kiosk: KioskView, line: Seq<char>)
    ensures
        kiosk.restaurant.customers.is_prefix_of(kiosk.step(line).0.restaurant.customers),
        kiosk.restaurant.orders_count <= kiosk.step(line).0.restaurant.orders_count
            <= kiosk.restaurant.orders_count + 1,
{
    let before = kiosk.restaurant.customers;
    let after = kiosk.step(line).0.restaurant.customers;
    assert(after.subrange(0, before.len() as int) =~= before);
}

} // verus!
