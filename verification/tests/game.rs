use cuneiforbits::game::Game;
use cuneiforbits::job::Customer;
use cuneiforbits::job::CustomerId;
use cuneiforbits::job::CustomerRegistry;
use cuneiforbits::job::Job;
use cuneiforbits::job::Luck;
use cuneiforbits::job::Payload;
use cuneiforbits::orbit::Orbit;
use cuneiforbits::rocket::initial_known_components;
use cuneiforbits::rocket::Component;
use cuneiforbits::rocket::ComponentClass;
use cuneiforbits::rocket::CryoClass;
use cuneiforbits::rocket::PropellantType;
use cuneiforbits::rocket::Rocket;
use cuneiforbits::sats::ArraySat;
use cuneiforbits::sats::CubeSat;
use cuneiforbits::sats::CubeSatClass;
use cuneiforbits::sats::LargeSat;
use cuneiforbits::sats::Sat;
use cuneiforbits::sats::SatArray;
use cuneiforbits::sats::SatId;
use cuneiforbits::sats::SatRegistry;
use cuneiforbits::sats::Station;
use cuneiforbits::units::Isp;
use cuneiforbits::units::Mass;
use cuneiforbits::units::Preasure;
use cuneiforbits::units::Volume;

fn luck(customer: u8, name: &str) -> Luck {
    Luck { customer, name: name.to_string() }
}

fn is_company_name(name: &str) -> bool {
    let prefixes = ["Space", "Rocket", "Sat", "Next"];
    let suffixes = ["X", "Lab", "Corp", "Co", "Inc"];
    for p in prefixes {
        for s in suffixes {
            if name == format!("{}{}", p, s) || name == format!("{} {}", p, s) {
                return true;
            }
        }
    }
    false
}

#[test]
fn mass_is_counted_in_grams() {
    assert_eq!(Mass::kg(0), Mass(0));
    assert_eq!(Mass::kg(1), Mass(1000));
    assert_eq!(Mass::kg(12), Mass(12000));
    assert_eq!(Mass::kg(18446744073709551), Mass(18446744073709551000));
}

#[test]
fn isp_is_counted_in_seconds() {
    assert_eq!(Isp::s(3), Isp(3));
    assert_eq!(Isp::s(0).0, 0);
}

#[test]
fn new_game_is_empty_but_for_components() {
    let game = Game::new();
    assert_eq!(game.available_jobs().len(), 0);
    assert_eq!(game.accepted_jobs().len(), 0);
    assert_eq!(game.rocket_designs().len(), 0);
    assert_eq!(game.customers().len(), 0);
    assert_eq!(game.customers().target(), 5);
    let known = game.known_components();
    assert_eq!(known.len(), 4);
    let names: Vec<&str> = known.iter().map(|c| c.name.as_str()).collect();
    assert_eq!(names, vec!["Foo", "Bar", "Baz", "Quux"]);
    for c in known {
        assert_eq!(c.display, "Foo");
        assert_eq!(c.mass, Mass(12000));
        assert_eq!(c.class, ComponentClass::Engine(PropellantType::Hyrdolox, Isp(3)));
    }
    assert!(game.sats().get(SatId(0)).is_none());
}

#[test]
fn initial_components_are_the_four_engines() {
    let known = initial_known_components();
    assert_eq!(known.len(), 4);
    assert_eq!(known[3].name, "Quux");
    assert_eq!(known[0].display_text(), "Foo");
}

#[test]
fn tick_adds_a_job_for_a_new_customer() {
    let mut game = Game::new();
    game.tick_with(&luck(3, "Space X"));
    assert_eq!(game.available_jobs().len(), 1);
    assert_eq!(game.customers().len(), 1);
    let job = &game.available_jobs()[0];
    assert_eq!(job.customer, CustomerId(0));
    assert_eq!(game.customers().name_of(job.customer), Some("Space X".to_string()));
    match &job.payload {
        Payload::CubeSat(sat) => {
            assert_eq!(sat.class, CubeSatClass::CubeSat1U);
            assert_eq!(sat.mass, Mass(1000));
            assert_eq!(sat.orbit, Orbit);
        },
        _ => panic!("a new job asks for a CubeSat"),
    }
}

#[test]
fn tick_reuses_a_customer_at_the_drawn_place() {
    let mut game = Game::new();
    game.tick_with(&luck(4, "SatLab"));
    game.tick_with(&luck(0, "NextCo"));
    assert_eq!(game.customers().len(), 1);
    assert_eq!(game.available_jobs()[1].customer, CustomerId(0));
    game.tick_with(&luck(1, "NextCo"));
    assert_eq!(game.customers().len(), 2);
    assert_eq!(game.available_jobs()[2].customer, CustomerId(1));
    assert_eq!(game.customers().name_of(CustomerId(1)), Some("NextCo".to_string()));
    assert_eq!(game.customers().name_of(CustomerId(2)), None);
}

#[test]
fn tick_stops_at_three_jobs() {
    let mut game = Game::new();
    for i in 0..5 {
        game.tick_with(&luck(i, "Rocket Inc"));
    }
    assert_eq!(game.available_jobs().len(), 3);
    assert_eq!(game.customers().len(), 3);
}

#[test]
fn random_tick_gives_a_fair_job() {
    let mut game = Game::new();
    for _ in 0..10 {
        game.tick();
    }
    assert_eq!(game.available_jobs().len(), 3);
    assert!(game.customers().len() >= 1);
    assert!(game.customers().len() <= 3);
    for job in game.available_jobs() {
        let name = game.customers().name_of(job.customer).unwrap();
        assert!(is_company_name(&name), "{}", name);
    }
}

#[test]
fn accept_moves_the_job_to_the_accepted() {
    let mut game = Game::new();
    game.tick_with(&luck(0, "A"));
    game.tick_with(&luck(1, "B"));
    game.tick_with(&luck(2, "C"));
    game.accept_job_at(1);
    assert_eq!(game.available_jobs().len(), 2);
    assert_eq!(game.accepted_jobs().len(), 1);
    assert_eq!(game.accepted_jobs()[0].customer, CustomerId(1));
    assert_eq!(game.available_jobs()[0].customer, CustomerId(0));
    assert_eq!(game.available_jobs()[1].customer, CustomerId(2));
    game.accept_job_at(1);
    assert_eq!(game.accepted_jobs()[1].customer, CustomerId(2));
    assert_eq!(game.available_jobs().len(), 1);
}

#[test]
fn decline_drops_the_job() {
    let mut game = Game::new();
    game.tick_with(&luck(0, "A"));
    game.tick_with(&luck(1, "B"));
    game.decline_job_at(0);
    assert_eq!(game.available_jobs().len(), 1);
    assert_eq!(game.accepted_jobs().len(), 0);
    assert_eq!(game.available_jobs()[0].customer, CustomerId(1));
}

#[test]
fn draws_are_below_the_target() {
    for _ in 0..200 {
        let l = Luck::draw(5);
        assert!(l.customer < 5);
        assert!(is_company_name(&l.name), "{}", l.name);
    }
    for _ in 0..20 {
        assert_eq!(Luck::draw(1).customer, 0);
    }
}

#[test]
fn draws_vary() {
    let mut seen = [false; 5];
    let mut names: Vec<String> = Vec::new();
    for _ in 0..400 {
        let l = Luck::draw(5);
        seen[l.customer as usize] = true;
        if !names.contains(&l.name) {
            names.push(l.name);
        }
    }
    assert!(seen.iter().filter(|s| **s).count() >= 2);
    assert!(names.len() >= 2);
}

#[test]
fn generated_names_are_company_names() {
    for _ in 0..100 {
        assert!(is_company_name(&Customer::generate_name()));
        assert!(is_company_name(&Customer::generate().name));
    }
}

#[test]
fn named_customers() {
    assert_eq!(Customer::named("Space", true, "X").name, "Space X");
    assert_eq!(Customer::named("Sat", false, "Corp").name, "SatCorp");
}

#[test]
fn new_registry_has_nobody() {
    let r = CustomerRegistry::new();
    for id in [0, 1, 4, 5, 255, 4294967295] {
        assert_eq!(r.on(CustomerId(id), |c| c.name.clone()), None);
        assert_eq!(r.name_of(CustomerId(id)), None);
    }
}

#[test]
fn registry_enrolls_and_finds() {
    let mut r = CustomerRegistry::new();
    assert_eq!(r.len(), 0);
    assert_eq!(r.target(), 5);
    assert_eq!(r.get_or_generate(&luck(2, "Next Inc")), CustomerId(0));
    assert_eq!(r.get_or_generate(&luck(0, "other")), CustomerId(0));
    assert_eq!(r.get_or_generate(&luck(1, "Sat X")), CustomerId(1));
    assert_eq!(r.len(), 2);
    assert_eq!(r.on(CustomerId(1), |c| c.name.clone()), Some("Sat X".to_string()));
    assert_eq!(r.on(CustomerId(0), |c| c.name.len()), Some(8));
    assert_eq!(r.on(CustomerId(2), |c| c.name.clone()), None);
}

#[test]
fn generated_job_is_for_an_enrolled_customer() {
    let mut r = CustomerRegistry::new();
    for _ in 0..20 {
        let job = Job::generate(&mut r);
        assert!((job.customer.0 as usize) < r.len());
        assert!(r.len() <= 5);
        assert!(matches!(job.payload, Payload::CubeSat(_)));
    }
    let job = Job::generate_with(&mut r, &luck(200, "Space Lab"));
    assert_eq!(job.customer.0 as usize, r.len() - 1);
}

#[test]
fn payload_copy_is_equal() {
    let p = Payload::SatArray(SatArray {
        volume: Volume(3),
        base_mass: Mass(10),
        sat_mass: Mass(2),
        orbits: vec![Orbit, Orbit, Orbit],
    });
    match p.copy() {
        Payload::SatArray(a) => {
            assert_eq!(a.volume, Volume(3));
            assert_eq!(a.base_mass, Mass(10));
            assert_eq!(a.sat_mass, Mass(2));
            assert_eq!(a.orbits.len(), 3);
        },
        _ => panic!("a copy is of the same kind"),
    }
    assert!(matches!(Payload::generate().copy(), Payload::CubeSat(_)));
}

#[test]
fn new_rocket_has_the_default_name() {
    let r = Rocket::new();
    assert_eq!(r.name, "New Rocket");
    assert!(r.components.is_empty());
    assert_eq!(r.display_text(), "");
}

#[test]
fn rocket_is_shown_as_its_components() {
    let part = |d: &str| Component {
        name: "n".to_string(),
        display: d.to_string(),
        mass: Mass(1),
        class: ComponentClass::Fairing(Volume(1)),
    };
    let r = Rocket { name: "R".to_string(), components: vec![part("<="), part("[]"), part(">")] };
    assert_eq!(r.display_text(), "<=[]>");
    let copy = r.clone();
    assert_eq!(copy.name, "R");
    assert_eq!(copy.display_text(), "<=[]>");
    assert_eq!(Component::MAX_WIDTH, 5);
}

#[test]
fn class_symbols() {
    assert_eq!(ComponentClass::Engine(PropellantType::Keralox, Isp(1)).symbol(), "E");
    assert_eq!(ComponentClass::Tank(CryoClass::Cryo, Preasure(1)).symbol(), "T");
    assert_eq!(ComponentClass::Fairing(Volume(1)).symbol(), "F");
    assert_eq!(ComponentClass::Capsule(true, Volume(1), Volume(2)).symbol(), "C");
}

#[test]
fn cubesat_labels() {
    assert_eq!(CubeSatClass::CubeSat1U.label(), "1U");
    assert_eq!(CubeSatClass::CubeSat2U.label(), "2U");
    assert_eq!(CubeSatClass::CubeSat3U.label(), "3U");
    assert_eq!(CubeSatClass::CubeSat6U.label(), "6U");
    assert_eq!(Orbit.label(), "Orbit");
}

#[test]
fn empty_sat_registry_has_nothing() {
    let r = SatRegistry::new();
    assert!(r.get(SatId(0)).is_none());
    assert!(r.get(SatId(7)).is_none());
}

#[test]
fn every_satellite_has_its_orbit() {
    let cube = CubeSat { class: CubeSatClass::CubeSat2U, mass: Mass(2), orbit: Orbit };
    assert_eq!(Sat::CubeSat(cube).orbit(), Orbit);
    let large = LargeSat { volume: Volume(1), mass: Mass(2), orbit: Orbit };
    assert_eq!(Sat::LargeSat(large).orbit(), Orbit);
    assert_eq!(Sat::ArraySat(ArraySat { mass: Mass(1), orbit: Orbit }).orbit(), Orbit);
    assert_eq!(Sat::Station(Station { name: "S".to_string(), orbit: Orbit }).orbit(), Orbit);
}

#[test]
fn games_made_by_play_are_in_order() {
    let mut game = Game::new();
    assert!(game.check());
    for i in 0..4 {
        game.tick_with(&luck(i, "Sat Co"));
        assert!(game.check());
    }
    game.accept_job_at(2);
    game.decline_job_at(0);
    assert!(game.check());
}
