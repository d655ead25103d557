//! Launch jobs, the customers that offer them, and what they want launched.

use vstd::prelude::*;
use crate::chance::flip;
use crate::chance::pick_below;
use crate::chance::pick_word;
use crate::orbit::Orbit;
use crate::sats::CubeSat;
use crate::sats::CubeSatClass;
use crate::sats::LargeSat;
use crate::sats::SatArray;
use crate::sats::SatId;
use crate::units::Mass;
use crate::units::Volume;

verus! {

/// An offer to launch a payload for a customer.
#[derive(Debug)]
pub struct Job {
    pub customer: CustomerId,
    pub payload: Payload,
}

#[derive(Debug)]
pub enum Payload {
    CubeSat(CubeSat),
    LargeSat(LargeSat),
    SatArray(SatArray),
    Station(SatId, Cargo),
}

#[derive(Clone, Copy, Debug, PartialEq, Eq, Structural)]
pub struct Cargo {
    pub volume: Volume,
    pub mass: Mass,
}

/// The place of a customer in the registry.
#[derive(Clone, Copy, Debug, PartialEq, Eq, Structural)]
pub struct CustomerId(pub u32);

/// The customers met so far, and how many the game aims to have.
#[derive(Debug)]
pub struct CustomerRegistry {
    pub(crate) customers: Vec<Customer>,
    pub(crate) target_customers: u8,
}

#[derive(Debug)]
pub struct Customer {
    pub name: String,
}

/// What has been drawn at random for the next job: a place among the
/// customers, and the name of the customer to enroll if nobody is there yet.
#[derive(Debug)]
pub struct Luck {
    pub customer: u8,
    pub name: String,
}

/// A payload, as plain values.
pub enum PayloadModel {
    CubeSat(CubeSat),
    LargeSat(LargeSat),
    SatArray { volume: Volume, base_mass: Mass, sat_mass: Mass, orbits: Seq<Orbit> },
    Station(SatId, Cargo),
}

/// A job, as plain values.
pub struct JobModel {
    pub customer: CustomerId,
    pub payload: PayloadModel,
}

/// The registry, as plain values: the customers' names in the order they
/// were enrolled, and the target.
pub struct CustomersModel {
    pub names: Seq<Seq<char>>,
    pub target: u8,
}

/// A draw, as plain values.
pub struct LuckModel {
    pub customer: u8,
    pub name: Seq<char>,
}

impl View for Payload {
    type V = PayloadModel;

    open spec fn view(&self) -> PayloadModel {
        match *self {
            Payload::CubeSat(sat) => PayloadModel::CubeSat(sat),
            Payload::LargeSat(sat) => PayloadModel::LargeSat(sat),
            Payload::SatArray(sats) => PayloadModel::SatArray {
                volume: sats.volume,
                base_mass: sats.base_mass,
                sat_mass: sats.sat_mass,
                orbits: sats.orbits@,
            },
            Payload::Station(id, cargo) => PayloadModel::Station(id, cargo),
        }
    }
}

impl View for Job {
    type V = JobModel;

    open spec fn view(&self) -> JobModel {
        JobModel { customer: self.customer, payload: self.payload@ }
    }
}

impl View for CustomerRegistry {
    type V = CustomersModel;

    open(crate) spec fn view(&self) -> CustomersModel {
        CustomersModel {
            names: self.customers@.map_values(|c: Customer| c.name@),
            target: self.target_customers,
        }
    }
}

impl View for Luck {
    type V = LuckModel;

    open spec fn view(&self) -> LuckModel {
        LuckModel { customer: self.customer, name: self.name@ }
    }
}

/// The number of customers a new registry aims for.
pub const TARGET_CUSTOMERS: u8 = 5;

/// The most customers a registry can come to hold: one for each place that a
/// draw can name.
pub const MAX_CUSTOMERS: usize = 256;

/// The first halves of the names customers are given.
pub open spec fn prefix_texts() -> Seq<Seq<char>> {
    seq!["Space"@, "Rocket"@, "Sat"@, "Next"@]
}

/// The second halves of the names customers are given.
pub open spec fn suffix_texts() -> Seq<Seq<char>> {
    seq!["X"@, "Lab"@, "Corp"@, "Co"@, "Inc"@]
}

/// The name made of two halves, with a blank between them if `spaced`.
pub open spec fn company_name(prefix: Seq<char>, spaced: bool, suffix: Seq<char>) -> Seq<char> {
    prefix + (if spaced { seq![' '] } else { Seq::empty() }) + suffix
}

/// Whether `name` is one of the names a customer can be given.
pub open spec fn is_company_name(name: Seq<char>) -> bool {
    exists|p: int, spaced: bool, s: int|
        0 <= p < prefix_texts().len() && 0 <= s < suffix_texts().len()
            && name == #[trigger] company_name(prefix_texts()[p], spaced, suffix_texts()[s])
}

impl CustomersModel {
    /// Whether the registry can take a draw: its target is positive, and it
    /// holds no more customers than a draw can name.
    pub open spec fn wf(self) -> bool {
        0 < self.target && self.names.len() <= MAX_CUSTOMERS
    }

    /// The place that a draw leads to: the drawn place where a customer
    /// stands there, else the place behind the last customer.
    pub open spec fn place(self, luck: LuckModel) -> nat {
        if luck.customer < self.names.len() {
            luck.customer as nat
        } else {
            self.names.len()
        }
    }

    /// The registry after a draw: where nobody stands at the drawn place, a
    /// customer of the drawn name is enrolled behind the others.
    pub open spec fn after(self, luck: LuckModel) -> CustomersModel {
        if luck.customer < self.names.len() {
            self
        } else {
            CustomersModel { names: self.names.push(luck.name), target: self.target }
        }
    }
}

/// The payload every job asks for at present: a one-unit CubeSat of one
/// kilogram.
pub open spec fn standard_payload() -> PayloadModel {
    PayloadModel::CubeSat(
        CubeSat { class: CubeSatClass::CubeSat1U, mass: Mass(1000), orbit: Orbit },
    )
}

/// The job that a draw gives on a registry.
pub open spec fn job_drawn(customers: CustomersModel, luck: LuckModel) -> JobModel {
    JobModel { customer: CustomerId(customers.place(luck) as u32), payload: standard_payload() }
}

impl Luck {
    /// Whether the draw can come out of `draw` for a registry with this
    /// target.
    pub open spec fn fair(self, target: u8) -> bool {
        self.customer < target && is_company_name(self.name@)
    }

    /// Draws a place below `target` and a customer name at random.
    pub fn draw(target: u8) -> (luck: Luck)
        requires
            0 < target,
        ensures
            luck.fair(target),
    {
        Luck { customer: pick_below(target), name: Customer::generate_name() }
    }
}

impl Job {
    /// A new job, with customer and payload chosen at random.
    pub fn generate(customers: &mut CustomerRegistry) -> (job: Job)
        requires
            old(customers).wf(),
        ensures
            final(customers).wf(),
            exists|luck: Luck| #[trigger]
                luck.fair(old(customers)@.target) && final(customers)@ == old(customers)@.after(
                    luck@,
                ) && job@ == job_drawn(old(customers)@, luck@),
    {
        let luck = Luck::draw(customers.target());
        let job = Job::generate_with(customers, &luck);
        assert(luck.fair(old(customers)@.target));
        job
    }

    /// The job that `luck` has drawn: for the customer at the drawn place,
    /// who is enrolled first if nobody stands there yet.
    pub fn generate_with(customers: &mut CustomerRegistry, luck: &Luck) -> (job: Job)
        requires
            old(customers).wf(),
        ensures
            final(customers).wf(),
            final(customers)@ == old(customers)@.after(luck@),
            job@ == job_drawn(old(customers)@, luck@),
    {
        Job { customer: customers.get_or_generate(luck), payload: Payload::generate() }
    }
}

impl CustomerRegistry {
    /// Whether the registry can take a draw: its target is positive, and it
    /// holds no more customers than a draw can name.
    pub open spec fn wf(&self) -> bool {
        self@.wf()
    }

    /// The customers, in the order they were enrolled.
    pub closed spec fn roll(&self) -> Seq<Customer> {
        self.customers@
    }

    /// The customers are as many as the names, and each has the name at
    /// its place.
    pub proof fn roll_has_the_names(&self)
        ensures
            self.roll().len() == self@.names.len(),
            forall|i: int|
                0 <= i < self@.names.len() ==> (#[trigger] self.roll()[i]).name@ == self@.names[i],
    {
    }

    /// The number of customers the registry aims for.
    pub fn target(&self) -> (t: u8)
        ensures
            t == self@.target,
    {
        self.target_customers
    }

    /// The number of customers enrolled.
    pub fn len(&self) -> (n: usize)
        ensures
            n == self@.names.len(),
    {
        self.customers.len()
    }

    /// A registry without customers.
    pub fn new() -> (r: CustomerRegistry)
        ensures
            r.wf(),
            r@.names.len() == 0,
            r.roll().len() == 0,
            r@.target == TARGET_CUSTOMERS,
    {
        CustomerRegistry { customers: Vec::new(), target_customers: TARGET_CUSTOMERS }
    }

    /// The customer at the drawn place; where nobody stands there, a new
    /// customer of the drawn name is enrolled and returned.
    pub fn get_or_generate(&mut self, luck: &Luck) -> (id: CustomerId)
        requires
            old(self).wf(),
        ensures
            final(self).wf(),
            final(self)@ == old(self)@.after(luck@),
            id.0 == old(self)@.place(luck@),
    {
        let idx: usize = luck.customer as usize;
        if idx >= self.customers.len() {
            self.customers.push(Customer { name: luck.name.clone() });
            assert(self@.names =~= old(self)@.names.push(luck.name@));
            return CustomerId((self.customers.len() - 1) as u32);
        }
        CustomerId(luck.customer as u32)
    }

    /// Applies `f` to the customer that `id` stands for, if there is one:
    /// the customer at that place, whose name is the name at that place.
    pub fn on<T, F: FnOnce(&Customer) -> T>(&self, id: CustomerId, f: F) -> (r: Option<T>)
        requires
            id.0 < self@.names.len() ==> f.requires((&self.roll()[id.0 as int],)),
        ensures
            r is Some == (id.0 < self@.names.len()),
            r is Some ==> f.ensures((&self.roll()[id.0 as int],), r->0),
            r is Some ==> self.roll()[id.0 as int].name@ == self@.names[id.0 as int],
            self.roll().len() == self@.names.len(),
    {
        let CustomerId(idx) = id;
        let at: usize = idx as usize;
        if at < self.customers.len() {
            Some(f(&self.customers[at]))
        } else {
            None
        }
    }

    /// The name of the customer that `id` stands for, if there is one.
    pub fn name_of(&self, id: CustomerId) -> (r: Option<String>)
        ensures
            r is Some == (id.0 < self@.names.len()),
            r is Some ==> (r->0)@ == self@.names[id.0 as int],
    {
        let CustomerId(idx) = id;
        let at: usize = idx as usize;
        if at < self.customers.len() {
            Some(self.customers[at].name.clone())
        } else {
            None
        }
    }
}

impl Customer {
    /// A customer under a name chosen at random.
    pub fn generate() -> (c: Customer)
        ensures
            is_company_name(c.name@),
    {
        Customer { name: Customer::generate_name() }
    }

    /// The customer whose name is made of the two halves.
    pub fn named(prefix: &str, spaced: bool, suffix: &str) -> (c: Customer)
        ensures
            c.name@ == company_name(prefix@, spaced, suffix@),
    {
        proof {
            reveal_strlit(" ");
            reveal_strlit("");
            assert(" "@ =~= seq![' ']);
            assert(""@ =~= Seq::<char>::empty());
        }
        let mut name = prefix.to_string();
        name.append(if spaced { " " } else { "" });
        name.append(suffix);
        Customer { name }
    }

    /// A name chosen at random: one of the first halves, a blank or none,
    /// one of the second halves.
    pub fn generate_name() -> (name: String)
        ensures
            is_company_name(name@),
    {
        let prefixes: Vec<&'static str> = vec!["Space", "Rocket", "Sat", "Next"];
        let suffixes: Vec<&'static str> = vec!["X", "Lab", "Corp", "Co", "Inc"];
        let prefix = pick_word(&prefixes);
        let spaced = flip();
        let suffix = pick_word(&suffixes);
        match (prefix, suffix) {
            (Some(p), Some(s)) => {
                let c = Customer::named(p, spaced, s);
                proof {
                    let pi = choose|i: int| 0 <= i < prefixes@.len() && prefixes@[i] == p;
                    let si = choose|i: int| 0 <= i < suffixes@.len() && suffixes@[i] == s;
                    assert(prefix_texts()[pi] == p@);
                    assert(suffix_texts()[si] == s@);
                    assert(c.name@ == company_name(prefix_texts()[pi], spaced, suffix_texts()[si]));
                }
                c.name
            },
            _ => {
                proof {
                    assert(false);
                }
                String::new()
            },
        }
    }
}

impl Payload {
    /// A copy of the payload.
    pub fn copy(&self) -> (p: Payload)
        ensures
            p@ == self@,
    {
        match self {
            Payload::CubeSat(sat) => Payload::CubeSat(*sat),
            Payload::LargeSat(sat) => Payload::LargeSat(*sat),
            Payload::SatArray(sats) => {
                let mut orbits: Vec<Orbit> = Vec::new();
                let mut i: usize = 0;
                while i < sats.orbits.len()
                    invariant
                        i <= sats.orbits.len(),
                        orbits@ == sats.orbits@.take(i as int),
                    decreases sats.orbits.len() - i,
                {
                    orbits.push(sats.orbits[i]);
                    assert(orbits@ =~= sats.orbits@.take(i + 1));
                    i += 1;
                }
                assert(orbits@ =~= sats.orbits@);
                Payload::SatArray(
                    SatArray {
                        volume: sats.volume,
                        base_mass: sats.base_mass,
                        sat_mass: sats.sat_mass,
                        orbits,
                    },
                )
            },
            Payload::Station(id, cargo) => Payload::Station(*id, *cargo),
        }
    }

    /// The payload of a new job.
    pub fn generate() -> (p: Payload)
        ensures
            p@ == standard_payload(),
    {
        Payload::CubeSat(
            CubeSat { class: CubeSatClass::CubeSat1U, mass: Mass::kg(1), orbit: Orbit },
        )
    }
}

} // verus!
