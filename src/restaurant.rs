//! Orders taken and served at a restaurant.
use crate::front_of_house;
use crate::front_of_house::hosting;
use vstd::prelude::*;
use vstd::string::StringExecFns;

verus! {

/// Seats a party, naming the waiting list by its full path and then by a
/// path relative to this crate.
pub fn eat_at_restaurant() {
    crate::front_of_house::hosting::add_to_waitlist();
    front_of_house::hosting::add_to_waitlist();
}

fn serve_order() {
}

fn cook_order() {
}

/// Makes a wrong order again and serves it.
fn fix_incorrect_order() {
    cook_order();
    serve_order();
}

/// A breakfast: the toast is the guest's choice, the fruit is the season's.
pub struct Breakfast {
    pub toast: String,
    seasonal_fruit: String,
}

impl Breakfast {
    /// A summer breakfast with the given toast; the fruit is peaches.
    pub fn summer(toast: &str) -> (r: Breakfast)
        ensures
            r.toast_choice() == toast@,
            r.fruit() == "peaches"@,
    {
        Breakfast { toast: String::from_str(toast), seasonal_fruit: String::from_str("peaches") }
    }

    /// The toast the guest chose.
    pub closed spec fn toast_choice(&self) -> Seq<char> {
        self.toast@
    }

    /// The season's fruit that comes with this breakfast.
    pub closed spec fn fruit(&self) -> Seq<char> {
        self.seasonal_fruit@
    }

    /// The season's fruit that comes with this breakfast.
    pub fn seasonal_fruit(&self) -> (r: &str)
        ensures
            r@ == self.fruit(),
    {
        self.seasonal_fruit.as_str()
    }
}

/// Seats three parties, naming the waiting list through its import.
pub fn eat_at_restaurant3() {
    hosting::add_to_waitlist();
    hosting::add_to_waitlist();
    hosting::add_to_waitlist();
}

} // verus!
