//! The state of a game: what is in orbit, who the customers are, which jobs
//! are on offer or taken, and what the player has designed and may build with.

use vstd::prelude::*;
use crate::job::CustomerRegistry;
use crate::job::CustomersModel;
use crate::job::Job;
use crate::job::JobModel;
use crate::job::Luck;
use crate::job::LuckModel;
use crate::job::job_drawn;
use crate::rocket::Component;
use crate::rocket::ComponentModel;
use crate::rocket::Rocket;
use crate::rocket::RocketModel;
use crate::rocket::initial_components;
use crate::rocket::initial_known_components;
use crate::rocket::models_of;
use crate::sats::Sat;
use crate::sats::SatRegistry;

verus! {

#[derive(Debug)]
pub struct Game {
    pub(crate) sats: SatRegistry,
    pub(crate) customers: CustomerRegistry,
    pub(crate) rocket_designs: Vec<Rocket>,
    pub(crate) available_jobs: Vec<Job>,
    pub(crate) accepted_jobs: Vec<Job>,
    pub(crate) known_components: Vec<Component>,
}

/// A game, as plain values.
pub struct GameModel {
    pub sats: Seq<Sat>,
    pub customers: CustomersModel,
    pub rocket_designs: Seq<RocketModel>,
    pub available_jobs: Seq<JobModel>,
    pub accepted_jobs: Seq<JobModel>,
    pub known_components: Seq<ComponentModel>,
}

/// The number of jobs that are kept on offer.
pub const TARGET_JOBS: usize = 3;

/// The most designs a game can hold.
pub const MAX_DESIGNS: usize = 255;

/// The most components a game can know.
pub const MAX_COMPONENTS: usize = 255;

/// The jobs of a sequence, each as plain values.
pub open spec fn jobs_of(jobs: Seq<Job>) -> Seq<JobModel> {
    jobs.map_values(|j: Job| j@)
}

/// The designs of a sequence, each as plain values.
pub open spec fn designs_of(rockets: Seq<Rocket>) -> Seq<RocketModel> {
    rockets.map_values(|r: Rocket| r@)
}

impl View for Game {
    type V = GameModel;

    open(crate) spec fn view(&self) -> GameModel {
        GameModel {
            sats: self.sats.sats(),
            customers: self.customers@,
            rocket_designs: designs_of(self.rocket_designs@),
            available_jobs: jobs_of(self.available_jobs@),
            accepted_jobs: jobs_of(self.accepted_jobs@),
            known_components: models_of(self.known_components@),
        }
    }
}

impl GameModel {
    /// Whether the registry is well formed, no more jobs are on offer than
    /// the target, designs and components are no more than a game can
    /// hold, and every job, on offer or taken, is for a customer in the
    /// registry.
    pub open spec fn wf(self) -> bool {
        &&& self.customers.wf()
        &&& self.available_jobs.len() <= TARGET_JOBS
        &&& self.rocket_designs.len() <= MAX_DESIGNS
        &&& self.known_components.len() <= MAX_COMPONENTS
        &&& forall|i: int|
            0 <= i < self.available_jobs.len() ==> (#[trigger] self.available_jobs[i]).customer.0
                < self.customers.names.len()
        &&& forall|i: int|
            0 <= i < self.accepted_jobs.len() ==> (#[trigger] self.accepted_jobs[i]).customer.0
                < self.customers.names.len()
    }

    /// The game after a tick with the given draw: while fewer jobs than the
    /// target are on offer, the drawn job joins them at the end.
    pub open spec fn ticked(self, luck: LuckModel) -> GameModel {
        if self.available_jobs.len() < TARGET_JOBS {
            GameModel {
                customers: self.customers.after(luck),
                available_jobs: self.available_jobs.push(job_drawn(self.customers, luck)),
                ..self
            }
        } else {
            self
        }
    }

    /// The game after the job at `idx` was accepted: it leaves the offers
    /// and becomes the last of the accepted jobs.
    pub open spec fn accepted(self, idx: int) -> GameModel
        recommends
            0 <= idx < self.available_jobs.len(),
    {
        GameModel {
            available_jobs: self.available_jobs.remove(idx),
            accepted_jobs: self.accepted_jobs.push(self.available_jobs[idx]),
            ..self
        }
    }

    /// The game after the job at `idx` was declined: it leaves the offers.
    pub open spec fn declined(self, idx: int) -> GameModel
        recommends
            0 <= idx < self.available_jobs.len(),
    {
        GameModel { available_jobs: self.available_jobs.remove(idx), ..self }
    }
}

impl Game {
    /// Whether the game's plain value is well formed.
    pub open spec fn wf(&self) -> bool {
        self@.wf()
    }

    /// A game at its beginning: nothing in orbit, no customers, jobs or
    /// designs, and the initial components known.
    pub fn new() -> (game: Game)
        ensures
            game.wf(),
            game@.sats.len() == 0,
            game@.customers.names.len() == 0,
            game@.customers.target == crate::job::TARGET_CUSTOMERS,
            game@.rocket_designs.len() == 0,
            game@.available_jobs.len() == 0,
            game@.accepted_jobs.len() == 0,
            game@.known_components == initial_components(),
    {
        Game {
            sats: SatRegistry::new(),
            customers: CustomerRegistry::new(),
            rocket_designs: Vec::new(),
            available_jobs: Vec::new(),
            accepted_jobs: Vec::new(),
            known_components: initial_known_components(),
        }
    }

    /// Whether the game is well formed.
    pub fn check(&self) -> (ok: bool)
        ensures
            ok == self.wf(),
    {
        let customers = self.customers.len();
        if self.customers.target() == 0 || customers > crate::job::MAX_CUSTOMERS
            || self.available_jobs.len() > TARGET_JOBS || self.rocket_designs.len() > MAX_DESIGNS
            || self.known_components.len() > MAX_COMPONENTS {
            return false;
        }
        Game::known(&self.available_jobs, customers) && Game::known(&self.accepted_jobs, customers)
    }

    fn known(jobs: &Vec<Job>, customers: usize) -> (ok: bool)
        ensures
            ok == forall|i: int|
                0 <= i < jobs@.len() ==> (#[trigger] jobs_of(jobs@)[i]).customer.0 < customers,
    {
        let mut i: usize = 0;
        while i < jobs.len()
            invariant
                i <= jobs.len(),
                forall|k: int| 0 <= k < i ==> (#[trigger] jobs_of(jobs@)[k]).customer.0 < customers,
            decreases jobs.len() - i,
        {
            if jobs[i].customer.0 as usize >= customers {
                assert(jobs_of(jobs@)[i as int].customer.0 >= customers);
                return false;
            }
            i += 1;
        }
        true
    }

    /// The jobs on offer.
    pub fn available_jobs(&self) -> (jobs: &Vec<Job>)
        ensures
            jobs_of(jobs@) == self@.available_jobs,
    {
        &self.available_jobs
    }

    /// The jobs that were accepted, in the order they were accepted.
    pub fn accepted_jobs(&self) -> (jobs: &Vec<Job>)
        ensures
            jobs_of(jobs@) == self@.accepted_jobs,
    {
        &self.accepted_jobs
    }

    /// The rocket designs.
    pub fn rocket_designs(&self) -> (designs: &Vec<Rocket>)
        ensures
            designs_of(designs@) == self@.rocket_designs,
    {
        &self.rocket_designs
    }

    /// The components that rockets can be built from.
    pub fn known_components(&self) -> (known: &Vec<Component>)
        ensures
            models_of(known@) == self@.known_components,
    {
        &self.known_components
    }

    /// The customers.
    pub fn customers(&self) -> (customers: &CustomerRegistry)
        ensures
            customers@ == self@.customers,
    {
        &self.customers
    }

    /// What is in orbit.
    pub fn sats(&self) -> (sats: &SatRegistry)
        ensures
            sats.sats() == self@.sats,
    {
        &self.sats
    }

    /// One tick with a draw made at random.
    pub fn tick(&mut self)
        requires
            old(self).wf(),
        ensures
            final(self).wf(),
            exists|luck: Luck| #[trigger]
                luck.fair(old(self)@.customers.target) && final(self)@ == old(self)@.ticked(luck@),
    {
        let luck = Luck::draw(self.customers.target());
        self.tick_with(&luck);
        assert(luck.fair(old(self)@.customers.target));
    }

    /// One tick with the given draw.
    pub fn tick_with(&mut self, luck: &Luck)
        requires
            old(self).wf(),
        ensures
            final(self).wf(),
            final(self)@ == old(self)@.ticked(luck@),
    {
        if self.available_jobs.len() < TARGET_JOBS {
            let job = Job::generate_with(&mut self.customers, luck);
            self.available_jobs.push(job);
            assert(self@.available_jobs =~= old(self)@.available_jobs.push(job@));
        }
    }

    /// Moves the job at `idx` from the offers to the accepted jobs.
    pub fn accept_job_at(&mut self, idx: usize)
        requires
            old(self).wf(),
            idx < old(self)@.available_jobs.len(),
        ensures
            final(self).wf(),
            final(self)@ == old(self)@.accepted(idx as int),
    {
        let job = self.available_jobs.remove(idx);
        self.accepted_jobs.push(job);
        assert(self@.available_jobs =~= old(self)@.available_jobs.remove(idx as int));
        assert(self@.accepted_jobs =~= old(self)@.accepted_jobs.push(
            old(self)@.available_jobs[idx as int],
        ));
    }

    /// Drops the job at `idx` from the offers.
    pub fn decline_job_at(&mut self, idx: usize)
        requires
            old(self).wf(),
            idx < old(self)@.available_jobs.len(),
        ensures
            final(self).wf(),
            final(self)@ == old(self)@.declined(idx as int),
    {
        let _ = self.available_jobs.remove(idx);
        assert(self@.available_jobs =~= old(self)@.available_jobs.remove(idx as int));
    }
}

} // verus!
