//! The prop kit: every kind of ready-made prop a level can place, and the
//! model that stands for each kind that has one.

use vstd::prelude::*;

verus! {

/// A kind of prop.
#[derive(Clone, Copy, Debug, PartialEq, Eq, Structural)]
pub enum SpaceKit {
    Character(Character),
    Barrel(Barrel),
    Bones,
    Chimney(Chimney),
    Corridor(Corridor),
    Craft(Craft),
    Crater(Crater),
    Desk(Desk),
    Gate(Gate),
    Hanger(Hanger),
    Machine(Machine),
    Meteor(Meteor),
    Monorail(Monorail),
    Pipe(Pipe),
    Platform(Platform),
    Rail(Rail),
    Rock(Rock),
    Rocket(Rocket),
    Stairs(Stairs),
    SatelliteDish(SatelliteDish),
    Supports(Supports),
    Structure(Structure),
    Terrain(Terrain),
    Turret(Turret),
    Weapon(Weapon),
    Rover,
}

/// People and creatures.
#[derive(Clone, Copy, Debug, Default, PartialEq, Eq, Structural)]
pub enum Character {
    Alien,
    #[default]
    AstronautA,
    AstronautB,
}

/// Barrels.
#[derive(Clone, Copy, Debug, Default, PartialEq, Eq, Structural)]
pub enum Barrel {
    #[default]
    Normal,
    Multiple,
    Rail,
}

/// Corridor sections.
#[derive(Clone, Copy, Debug, Default, PartialEq, Eq, Structural)]
pub enum Corridor {
    #[default]
    Normal,
    Open,
    Corner,
    CornerRound,
    CornerRoundWindow,
    Cross,
    Detailed,
    End,
    Roof,
    Split,
    WallCorner,
    Wall,
    WindowClosed,
    Window,
}

/// Small spacecraft.
#[derive(Clone, Copy, Debug, Default, PartialEq, Eq, Structural)]
pub enum Craft {
    CargoA,
    CargoB,
    Miner,
    Racer,
    #[default]
    SpeederA,
    SpeederB,
    SpeederC,
    SpeederD,
}

/// Craters.
#[derive(Clone, Copy, Debug, Default, PartialEq, Eq, Structural)]
pub enum Crater {
    #[default]
    Normal,
    Large,
}

/// Chimneys.
#[derive(Clone, Copy, Debug, Default, PartialEq, Eq, Structural)]
pub enum Chimney {
    #[default]
    Normal,
    Detailed,
}

/// Desks, chairs and computers.
#[derive(Clone, Copy, Debug, Default, PartialEq, Eq, Structural)]
pub enum Desk {
    ChairArms,
    Chair,
    ChairStool,
    ComputerCorner,
    #[default]
    Computer,
    ComputerScreen,
}

/// Gates.
#[derive(Clone, Copy, Debug, Default, PartialEq, Eq, Structural)]
pub enum Gate {
    Complex,
    #[default]
    Simple,
}

/// Hangars.
#[derive(Clone, Copy, Debug, Default, PartialEq, Eq, Structural)]
pub enum Hanger {
    LargeA,
    #[default]
    LargeB,
    RoundA,
    RoundB,
    RoundGlass,
    SmallA,
    SmallB,
}

/// Machines.
#[derive(Clone, Copy, Debug, Default, PartialEq, Eq, Structural)]
pub enum Machine {
    Barrel,
    BarrelLarge,
    #[default]
    Generator,
    GeneratorLarge,
    WirelessCable,
    Wireless,
}

/// Meteors.
#[derive(Clone, Copy, Debug, Default, PartialEq, Eq, Structural)]
pub enum Meteor {
    #[default]
    Normal,
    Detailed,
    Half,
}

/// Monorail tracks and trains.
#[derive(Clone, Copy, Debug, Default, PartialEq, Eq, Structural)]
pub enum Monorail {
    TrackCornerLarge,
    TrackCornerSmall,
    TrackSlope,
    #[default]
    TrackStraight,
    TrackSupportCorner,
    TrackSupport,
    TrainBox,
    TrainCargo,
    TrainEnd,
    TrainFlat,
    TrainFront,
    TrainPassenger,
}

/// Pipe sections.
#[derive(Clone, Copy, Debug, Default, PartialEq, Eq, Structural)]
pub enum Pipe {
    CornerDiagonal,
    Corner,
    CornerRound,
    CornerRoundLarge,
    Cross,
    End,
    Entrance,
    #[default]
    Open,
    RampLarge,
    RampSmall,
    Ring,
    RingHighEnd,
    RingHigh,
    RingSupport,
    Split,
    Straight,
    SupportHigh,
    SupportLow,
}

/// Platform sections.
#[derive(Clone, Copy, Debug, Default, PartialEq, Eq, Structural)]
pub enum Platform {
    #[default]
    Center,
    Corner,
    CornerOpen,
    CornerRound,
    End,
    High,
    Large,
    Long,
    Low,
    Side,
    SmallDiagonal,
    Small,
    Straight,
}

/// Railings.
#[derive(Clone, Copy, Debug, Default, PartialEq, Eq, Structural)]
pub enum Rail {
    Corner,
    End,
    #[default]
    Normal,
    Middle,
}

/// Rocks and crystals.
#[derive(Clone, Copy, Debug, Default, PartialEq, Eq, Structural)]
pub enum Rock {
    #[default]
    Normal,
    LargeA,
    LargeB,
    SmallA,
    SmallB,
    Crystals,
    CrystalsLargeA,
    CrystalsLargeB,
}

/// Rocket parts.
#[derive(Clone, Copy, Debug, Default, PartialEq, Eq, Structural)]
pub enum Rocket {
    #[default]
    BaseA,
    BaseB,
    FinsA,
    FinsB,
    FuelA,
    FuelB,
    SidesA,
    SidesB,
    TopA,
    TopB,
}

/// Satellite dishes.
#[derive(Clone, Copy, Debug, Default, PartialEq, Eq, Structural)]
pub enum SatelliteDish {
    Detailed,
    #[default]
    Normal,
    Large,
}

/// Stairs.
#[derive(Clone, Copy, Debug, Default, PartialEq, Eq, Structural)]
pub enum Stairs {
    Corner,
    #[default]
    Normal,
    Short,
}

/// Scaffolding.
#[derive(Clone, Copy, Debug, Default, PartialEq, Eq, Structural)]
pub enum Structure {
    #[default]
    Normal,
    Closed,
    Detailed,
    Diagonal,
}

/// Supports.
#[derive(Clone, Copy, Debug, Default, PartialEq, Eq, Structural)]
pub enum Supports {
    High,
    #[default]
    Low,
}

/// Terrain and road tiles.
#[derive(Clone, Copy, Debug, Default, PartialEq, Eq, Structural)]
pub enum Terrain {
    #[default]
    Normal,
    Ramp,
    RampLargeDetailed,
    RampLarge,
    RoadCorner,
    RoadCross,
    RoadEnd,
    RoadSplit,
    RoadStraight,
    SideCliff,
    SideCorner,
    SideCornerInner,
    SideEnd,
    Side,
}

/// Turrets.
#[derive(Clone, Copy, Debug, Default, PartialEq, Eq, Structural)]
pub enum Turret {
    Double,
    #[default]
    Single,
}

/// Hand weapons.
#[derive(Clone, Copy, Debug, Default, PartialEq, Eq, Structural)]
pub enum Weapon {
    #[default]
    Gun,
    Rifle,
    BlasterR,
}

/// A model of the kit, as loaded from its file.
#[derive(Clone, Copy, Debug, PartialEq, Eq, Structural)]
pub enum Model {
    Alien,
    AstronautA,
    AstronautB,
    Barrel,
    Barrels,
    BarrelsRail,
    Bones,
    DeskChair,
    DeskChairArms,
    DeskChairStool,
    DeskComputer,
    DeskComputerCorner,
    DeskComputerScreen,
    MachineBarrel,
    MachineBarrelLarge,
    MachineGenerator,
    MachineGeneratorLarge,
    MachineWireless,
    MachineWirelessCable,
    RocketBaseA,
    RocketBaseB,
    RocketFinsA,
    RocketFinsB,
    RocketFuelA,
    RocketFuelB,
    RocketSidesA,
    RocketSidesB,
    RocketTopA,
    RocketTopB,
    WeaponGun,
    WeaponRifle,
    WeaponBlasterR,
}

impl SpaceKit {
    /// Whether the kit holds a model for this kind of prop. It does for
    /// characters, barrels, bones, desks, machines, rocket parts and weapons.
    pub open spec fn spec_has_model(self) -> bool {
        self is Character || self is Barrel || self is Bones || self is Desk || self is Machine
            || self is Rocket || self is Weapon
    }

    /// The model that stands for this kind of prop, if the kit holds one.
    pub open spec fn spec_model(self) -> Option<Model> {
        match self {
            SpaceKit::Character(a) => Some(
                match a {
                    Character::Alien => Model::Alien,
                    Character::AstronautA => Model::AstronautA,
                    Character::AstronautB => Model::AstronautB,
                },
            ),
            SpaceKit::Barrel(a) => Some(
                match a {
                    Barrel::Normal => Model::Barrel,
                    Barrel::Multiple => Model::Barrels,
                    Barrel::Rail => Model::BarrelsRail,
                },
            ),
            SpaceKit::Bones => Some(Model::Bones),
            SpaceKit::Desk(a) => Some(
                match a {
                    Desk::Chair => Model::DeskChair,
                    Desk::ChairArms => Model::DeskChairArms,
                    Desk::ChairStool => Model::DeskChairStool,
                    Desk::Computer => Model::DeskComputer,
                    Desk::ComputerCorner => Model::DeskComputerCorner,
                    Desk::ComputerScreen => Model::DeskComputerScreen,
                },
            ),
            SpaceKit::Machine(a) => Some(
                match a {
                    Machine::Barrel => Model::MachineBarrel,
                    Machine::BarrelLarge => Model::MachineBarrelLarge,
                    Machine::Generator => Model::MachineGenerator,
                    Machine::GeneratorLarge => Model::MachineGeneratorLarge,
                    Machine::Wireless => Model::MachineWireless,
                    Machine::WirelessCable => Model::MachineWirelessCable,
                },
            ),
            SpaceKit::Rocket(a) => Some(
                match a {
                    Rocket::BaseA => Model::RocketBaseA,
                    Rocket::BaseB => Model::RocketBaseB,
                    Rocket::FinsA => Model::RocketFinsA,
                    Rocket::FinsB => Model::RocketFinsB,
                    Rocket::FuelA => Model::RocketFuelA,
                    Rocket::FuelB => Model::RocketFuelB,
                    Rocket::SidesA => Model::RocketSidesA,
                    Rocket::SidesB => Model::RocketSidesB,
                    Rocket::TopA => Model::RocketTopA,
                    Rocket::TopB => Model::RocketTopB,
                },
            ),
            SpaceKit::Weapon(a) => Some(
                match a {
                    Weapon::Gun => Model::WeaponGun,
                    Weapon::Rifle => Model::WeaponRifle,
                    Weapon::BlasterR => Model::WeaponBlasterR,
                },
            ),
            _ => None,
        }
    }

    /// Whether the kit holds a model for this kind of prop.
    pub fn has_model(&self) -> (b: bool)
        ensures
            b == self.spec_has_model(),
            b == self.spec_model().is_some(),
    {
        match self {
            SpaceKit::Character(_) => true,
            SpaceKit::Barrel(_) => true,
            SpaceKit::Bones => true,
            SpaceKit::Desk(_) => true,
            SpaceKit::Machine(_) => true,
            SpaceKit::Rocket(_) => true,
            SpaceKit::Weapon(_) => true,
            _ => false,
        }
    }

    /// The model to show for a prop of this kind, or `None` for a kind the
    /// kit holds no model of.
    pub fn model(&self) -> (m: Option<Model>)
        ensures
            m == self.spec_model(),
            m.is_some() == self.spec_has_model(),
    {
        match *self {
            SpaceKit::Character(a) => Some(
                match a {
                    Character::Alien => Model::Alien,
                    Character::AstronautA => Model::AstronautA,
                    Character::AstronautB => Model::AstronautB,
                },
            ),
            SpaceKit::Barrel(a) => Some(
                match a {
                    Barrel::Normal => Model::Barrel,
                    Barrel::Multiple => Model::Barrels,
                    Barrel::Rail => Model::BarrelsRail,
                },
            ),
            SpaceKit::Bones => Some(Model::Bones),
            SpaceKit::Desk(a) => Some(
                match a {
                    Desk::Chair => Model::DeskChair,
                    Desk::ChairArms => Model::DeskChairArms,
                    Desk::ChairStool => Model::DeskChairStool,
                    Desk::Computer => Model::DeskComputer,
                    Desk::ComputerCorner => Model::DeskComputerCorner,
                    Desk::ComputerScreen => Model::DeskComputerScreen,
                },
            ),
            SpaceKit::Machine(a) => Some(
                match a {
                    Machine::Barrel => Model::MachineBarrel,
                    Machine::BarrelLarge => Model::MachineBarrelLarge,
                    Machine::Generator => Model::MachineGenerator,
                    Machine::GeneratorLarge => Model::MachineGeneratorLarge,
                    Machine::Wireless => Model::MachineWireless,
                    Machine::WirelessCable => Model::MachineWirelessCable,
                },
            ),
            SpaceKit::Rocket(a) => Some(
                match a {
                    Rocket::BaseA => Model::RocketBaseA,
                    Rocket::BaseB => Model::RocketBaseB,
                    Rocket::FinsA => Model::RocketFinsA,
                    Rocket::FinsB => Model::RocketFinsB,
                    Rocket::FuelA => Model::RocketFuelA,
                    Rocket::FuelB => Model::RocketFuelB,
                    Rocket::SidesA => Model::RocketSidesA,
                    Rocket::SidesB => Model::RocketSidesB,
                    Rocket::TopA => Model::RocketTopA,
                    Rocket::TopB => Model::RocketTopB,
                },
            ),
            SpaceKit::Weapon(a) => Some(
                match a {
                    Weapon::Gun => Model::WeaponGun,
                    Weapon::Rifle => Model::WeaponRifle,
                    Weapon::BlasterR => Model::WeaponBlasterR,
                },
            ),
            _ => None,
        }
    }
}

/// No two kinds of prop share a model.
pub proof fn lemma_models_distinct(a: SpaceKit, b: SpaceKit)
    requires
        a.spec_model().is_some(),
        a.spec_model() == b.spec_model(),
    ensures
        a == b,
{
}

/// The kind of prop the dispenser is shown as.
pub fn dispenser_kit() -> (kit: SpaceKit)
    ensures
        kit == SpaceKit::Rocket(Rocket::BaseA),
        kit.spec_model() == Some(Model::RocketBaseA),
{
    SpaceKit::Rocket(Rocket::BaseA)
}

/// The kind of prop the reactor is shown as.
pub fn reactor_kit() -> (kit: SpaceKit)
    ensures
        kit == SpaceKit::Rocket(Rocket::BaseB),
        kit.spec_model() == Some(Model::RocketBaseB),
{
    SpaceKit::Rocket(Rocket::BaseB)
}

} // verus!
