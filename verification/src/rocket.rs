//! Rocket designs and the components they are assembled from.

use vstd::prelude::*;
use crate::units::Isp;
use crate::units::Mass;
use crate::units::Preasure;
use crate::units::Volume;

verus! {

pub type Crewed = bool;

#[derive(Clone, Copy, Debug, PartialEq, Eq, Structural)]
pub enum PropellantType {
    Hyrdolox,
    Methalox,
    Keralox,
    Hypergolic,
}

#[derive(Clone, Copy, Debug, PartialEq, Eq, Structural)]
pub enum Fuel {
    Hydrogen,
    Methane,
    RP1,
}

#[derive(Clone, Copy, Debug, PartialEq, Eq, Structural)]
pub enum CryoClass {
    STP,
    Cryo,
    SuperCryo,
}

#[derive(Clone, Copy, Debug, PartialEq, Eq, Structural)]
pub enum ComponentClass {
    Engine(PropellantType, Isp),
    Tank(CryoClass, Preasure),
    Fairing(Volume),
    Capsule(Crewed, Volume, Volume),
}

/// A part that a rocket can be built from.
#[derive(Debug)]
pub struct Component {
    pub name: String,
    pub display: String,
    pub mass: Mass,
    pub class: ComponentClass,
}

/// What a component is, as plain values.
pub struct ComponentModel {
    pub name: Seq<char>,
    pub display: Seq<char>,
    pub mass: Mass,
    pub class: ComponentClass,
}

/// A rocket design: a name and the components, bottom first.
#[derive(Debug)]
pub struct Rocket {
    pub name: String,
    pub components: Vec<Component>,
}

/// What a rocket design is, as plain values.
pub struct RocketModel {
    pub name: Seq<char>,
    pub components: Seq<ComponentModel>,
}

impl View for Component {
    type V = ComponentModel;

    open spec fn view(&self) -> ComponentModel {
        ComponentModel {
            name: self.name@,
            display: self.display@,
            mass: self.mass,
            class: self.class,
        }
    }
}

impl View for Rocket {
    type V = RocketModel;

    open spec fn view(&self) -> RocketModel {
        RocketModel { name: self.name@, components: models_of(self.components@) }
    }
}

/// The components of a sequence, each as plain values.
pub open spec fn models_of(components: Seq<Component>) -> Seq<ComponentModel> {
    components.map_values(|c: Component| c@)
}

/// The name a design has before the player names it.
pub open spec fn default_name() -> Seq<char> {
    seq!['N', 'e', 'w', ' ', 'R', 'o', 'c', 'k', 'e', 't']
}

/// The displays of the components, one after the other.
pub open spec fn displays(components: Seq<ComponentModel>) -> Seq<char>
    decreases components.len(),
{
    if components.len() == 0 {
        Seq::empty()
    } else {
        displays(components.drop_last()) + components.last().display
    }
}

impl Clone for Component {
    fn clone(&self) -> (c: Component)
        ensures
            c@ == self@,
    {
        Component {
            name: self.name.clone(),
            display: self.display.clone(),
            mass: self.mass,
            class: self.class,
        }
    }
}

/// A copy of each component, in the same order.
pub fn clone_components(components: &Vec<Component>) -> (copy: Vec<Component>)
    ensures
        models_of(copy@) == models_of(components@),
{
    let mut copy: Vec<Component> = Vec::new();
    let mut i: usize = 0;
    while i < components.len()
        invariant
            i <= components.len(),
            copy.len() == i,
            forall|k: int| 0 <= k < i ==> (#[trigger] copy@[k])@ == components@[k]@,
        decreases components.len() - i,
    {
        copy.push(components[i].clone());
        i += 1;
    }
    assert(models_of(copy@) =~= models_of(components@));
    copy
}

impl Clone for Rocket {
    fn clone(&self) -> (r: Rocket)
        ensures
            r@ == self@,
    {
        Rocket { name: self.name.clone(), components: clone_components(&self.components) }
    }
}

impl Component {
    /// The widest display a component may have, in columns.
    pub const MAX_WIDTH: u16 = 5;

    /// The text the component is drawn as.
    pub fn display_text(&self) -> (s: String)
        ensures
            s@ == self@.display,
    {
        self.display.clone()
    }
}

impl Rocket {
    /// A design without components, under the default name.
    pub fn new() -> (r: Rocket)
        ensures
            r@ == (RocketModel { name: default_name(), components: Seq::empty() }),
    {
        proof {
            reveal_strlit("New Rocket");
            assert("New Rocket"@ =~= default_name());
        }
        let r = Rocket { name: "New Rocket".to_string(), components: Vec::new() };
        assert(r@.components =~= Seq::empty());
        r
    }

    /// The text the design is drawn as: its components' displays in a row.
    pub fn display_text(&self) -> (s: String)
        ensures
            s@ == displays(self@.components),
    {
        let mut s = String::new();
        let mut i: usize = 0;
        while i < self.components.len()
            invariant
                i <= self.components.len(),
                s@ == displays(models_of(self.components@).take(i as int)),
            decreases self.components.len() - i,
        {
            let ghost before = models_of(self.components@).take(i as int);
            let ghost after = models_of(self.components@).take(i + 1);
            assert(after.drop_last() =~= before);
            assert(after.last() == self.components@[i as int]@);
            s.append(self.components[i].display.as_str());
            i += 1;
        }
        assert(models_of(self.components@).take(i as int) =~= models_of(self.components@));
        s
    }
}

impl ComponentClass {
    /// The letter that stands for a class.
    pub open spec fn symbol_text(self) -> Seq<char> {
        match self {
            ComponentClass::Engine(_, _) => seq!['E'],
            ComponentClass::Tank(_, _) => seq!['T'],
            ComponentClass::Fairing(_) => seq!['F'],
            ComponentClass::Capsule(_, _, _) => seq!['C'],
        }
    }

    /// The letter that stands for this class.
    pub fn symbol(&self) -> (s: String)
        ensures
            s@ == self.symbol_text(),
    {
        proof {
            reveal_strlit("E");
            reveal_strlit("T");
            reveal_strlit("F");
            reveal_strlit("C");
            assert("E"@ =~= seq!['E']);
            assert("T"@ =~= seq!['T']);
            assert("F"@ =~= seq!['F']);
            assert("C"@ =~= seq!['C']);
        }
        match self {
            ComponentClass::Engine(_, _) => "E",
            ComponentClass::Tank(_, _) => "T",
            ComponentClass::Fairing(_) => "F",
            ComponentClass::Capsule(_, _, _) => "C",
        }.to_string()
    }
}

/// The component every player starts with, under the given name.
pub open spec fn starter(name: Seq<char>) -> ComponentModel {
    ComponentModel {
        name,
        display: seq!['F', 'o', 'o'],
        mass: Mass(12000),
        class: ComponentClass::Engine(PropellantType::Hyrdolox, Isp(3)),
    }
}

/// The components known when a game begins.
pub open spec fn initial_components() -> Seq<ComponentModel> {
    seq![
        starter(seq!['F', 'o', 'o']),
        starter(seq!['B', 'a', 'r']),
        starter(seq!['B', 'a', 'z']),
        starter(seq!['Q', 'u', 'u', 'x']),
    ]
}

fn starter_component(name: &str) -> (c: Component)
    ensures
        c@ == starter(name@),
{
    proof {
        reveal_strlit("Foo");
        assert("Foo"@ =~= seq!['F', 'o', 'o']);
    }
    Component {
        name: name.to_string(),
        display: "Foo".to_string(),
        mass: Mass::kg(12),
        class: ComponentClass::Engine(PropellantType::Hyrdolox, Isp::s(3)),
    }
}

/// The components known when a game begins.
pub fn initial_known_components() -> (known: Vec<Component>)
    ensures
        models_of(known@) == initial_components(),
{
    proof {
        reveal_strlit("Foo");
        reveal_strlit("Bar");
        reveal_strlit("Baz");
        reveal_strlit("Quux");
        assert("Foo"@ =~= seq!['F', 'o', 'o']);
        assert("Bar"@ =~= seq!['B', 'a', 'r']);
        assert("Baz"@ =~= seq!['B', 'a', 'z']);
        assert("Quux"@ =~= seq!['Q', 'u', 'u', 'x']);
    }
    let mut known: Vec<Component> = Vec::new();
    known.push(starter_component("Foo"));
    known.push(starter_component("Bar"));
    known.push(starter_component("Baz"));
    known.push(starter_component("Quux"));
    assert(models_of(known@) =~= initial_components());
    known
}

} // verus!
