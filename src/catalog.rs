//! The closed sets of species, backgrounds and gods, each value stored under
//! an integer code and shown under a label.

use vstd::prelude::*;
use vstd::string::*;
use crate::text::{eq_ignore_ascii_case, same_ignoring_ascii_case};

verus! {

/// A stored integer code that names no value of its set.
#[derive(Clone, Copy, Debug, PartialEq, Eq, Structural)]
pub enum CodeError {
    UnknownSpecies(i64),
    UnknownBackground(i64),
    UnknownGod(i64),
}

/// A closed set of values stored under integer codes and shown under labels.
pub trait Coded: Sized {
    /// The value stored under `code`, if any.
    spec fn spec_decode(code: int) -> Option<Self>;

    /// The label the value is shown under.
    spec fn spec_text(self) -> Seq<char>;

    /// The error for a code of this set that names no value.
    spec fn spec_unknown(code: i64) -> CodeError;

    fn decode(code: i64) -> (r: Option<Self>)
        ensures
            r == Self::spec_decode(code as int),
    ;

    fn text(&self) -> (r: String)
        ensures
            r@ == self.spec_text(),
    ;

    fn unknown(code: i64) -> (r: CodeError)
        ensures
            r == Self::spec_unknown(code),
    ;
}

/// The species a character is played as.
#[derive(Clone, Copy, Debug, PartialEq, Eq, Structural)]
pub enum Species {
    Human,
    HighElf,
    DeepElf,
    Halfling,
    HillOrc,
    Kobold,
    Mummy,
    Naga,
    Ogre,
    Troll,
    Draconian,
    Centaur,
    Demigod,
    Spriggan,
    Minotaur,
    Demonspawn,
    Ghoul,
    Tengu,
    Merfolk,
    Vampire,
    DeepDwarf,
    Felid,
    Octopode,
    Gargoyle,
    Formicid,
    VineStalker,
    Barachi,
    Gnoll,
}

impl Species {
    /// How many values the set holds; their codes are `0` up to one less.
    pub open spec fn count() -> int {
        28
    }

    /// The integer code under which the value is stored.
    pub open spec fn spec_code(self) -> int {
        match self {
            Species::Human => 0,
            Species::HighElf => 1,
            Species::DeepElf => 2,
            Species::Halfling => 3,
            Species::HillOrc => 4,
            Species::Kobold => 5,
            Species::Mummy => 6,
            Species::Naga => 7,
            Species::Ogre => 8,
            Species::Troll => 9,
            Species::Draconian => 10,
            Species::Centaur => 11,
            Species::Demigod => 12,
            Species::Spriggan => 13,
            Species::Minotaur => 14,
            Species::Demonspawn => 15,
            Species::Ghoul => 16,
            Species::Tengu => 17,
            Species::Merfolk => 18,
            Species::Vampire => 19,
            Species::DeepDwarf => 20,
            Species::Felid => 21,
            Species::Octopode => 22,
            Species::Gargoyle => 23,
            Species::Formicid => 24,
            Species::VineStalker => 25,
            Species::Barachi => 26,
            Species::Gnoll => 27,
        }
    }

    /// The label under which the value is shown and parsed.
    pub open spec fn spec_label(self) -> Seq<char> {
        match self {
            Species::Human => "Human"@,
            Species::HighElf => "HighElf"@,
            Species::DeepElf => "DeepElf"@,
            Species::Halfling => "Halfling"@,
            Species::HillOrc => "HillOrc"@,
            Species::Kobold => "Kobold"@,
            Species::Mummy => "Mummy"@,
            Species::Naga => "Naga"@,
            Species::Ogre => "Ogre"@,
            Species::Troll => "Troll"@,
            Species::Draconian => "Draconian"@,
            Species::Centaur => "Centaur"@,
            Species::Demigod => "Demigod"@,
            Species::Spriggan => "Spriggan"@,
            Species::Minotaur => "Minotaur"@,
            Species::Demonspawn => "Demonspawn"@,
            Species::Ghoul => "Ghoul"@,
            Species::Tengu => "Tengu"@,
            Species::Merfolk => "Merfolk"@,
            Species::Vampire => "Vampire"@,
            Species::DeepDwarf => "DeepDwarf"@,
            Species::Felid => "Felid"@,
            Species::Octopode => "Octopode"@,
            Species::Gargoyle => "Gargoyle"@,
            Species::Formicid => "Formicid"@,
            Species::VineStalker => "VineStalker"@,
            Species::Barachi => "Barachi"@,
            Species::Gnoll => "Gnoll"@,
        }
    }

    /// The value stored under `code`, if the code is known.
    pub open spec fn spec_from_code(code: int) -> Option<Species> {
        if code == 0 {
            Some(Species::Human)
        } else if code == 1 {
            Some(Species::HighElf)
        } else if code == 2 {
            Some(Species::DeepElf)
        } else if code == 3 {
            Some(Species::Halfling)
        } else if code == 4 {
            Some(Species::HillOrc)
        } else if code == 5 {
            Some(Species::Kobold)
        } else if code == 6 {
            Some(Species::Mummy)
        } else if code == 7 {
            Some(Species::Naga)
        } else if code == 8 {
            Some(Species::Ogre)
        } else if code == 9 {
            Some(Species::Troll)
        } else if code == 10 {
            Some(Species::Draconian)
        } else if code == 11 {
            Some(Species::Centaur)
        } else if code == 12 {
            Some(Species::Demigod)
        } else if code == 13 {
            Some(Species::Spriggan)
        } else if code == 14 {
            Some(Species::Minotaur)
        } else if code == 15 {
            Some(Species::Demonspawn)
        } else if code == 16 {
            Some(Species::Ghoul)
        } else if code == 17 {
            Some(Species::Tengu)
        } else if code == 18 {
            Some(Species::Merfolk)
        } else if code == 19 {
            Some(Species::Vampire)
        } else if code == 20 {
            Some(Species::DeepDwarf)
        } else if code == 21 {
            Some(Species::Felid)
        } else if code == 22 {
            Some(Species::Octopode)
        } else if code == 23 {
            Some(Species::Gargoyle)
        } else if code == 24 {
            Some(Species::Formicid)
        } else if code == 25 {
            Some(Species::VineStalker)
        } else if code == 26 {
            Some(Species::Barachi)
        } else if code == 27 {
            Some(Species::Gnoll)
        } else {
            None
        }
    }

    /// The value stored under `code`, if the code is known.
    pub fn from_code(code: i64) -> (r: Option<Species>)
        ensures
            r == Species::spec_from_code(code as int),
            r.is_some() <==> 0 <= code < Species::count(),
            r matches Some(v) ==> v.spec_code() == code,
    {
        match code {
            0 => Some(Species::Human),
            1 => Some(Species::HighElf),
            2 => Some(Species::DeepElf),
            3 => Some(Species::Halfling),
            4 => Some(Species::HillOrc),
            5 => Some(Species::Kobold),
            6 => Some(Species::Mummy),
            7 => Some(Species::Naga),
            8 => Some(Species::Ogre),
            9 => Some(Species::Troll),
            10 => Some(Species::Draconian),
            11 => Some(Species::Centaur),
            12 => Some(Species::Demigod),
            13 => Some(Species::Spriggan),
            14 => Some(Species::Minotaur),
            15 => Some(Species::Demonspawn),
            16 => Some(Species::Ghoul),
            17 => Some(Species::Tengu),
            18 => Some(Species::Merfolk),
            19 => Some(Species::Vampire),
            20 => Some(Species::DeepDwarf),
            21 => Some(Species::Felid),
            22 => Some(Species::Octopode),
            23 => Some(Species::Gargoyle),
            24 => Some(Species::Formicid),
            25 => Some(Species::VineStalker),
            26 => Some(Species::Barachi),
            27 => Some(Species::Gnoll),
            _ => None,
        }
    }

    /// The integer code under which the value is stored.
    pub fn code(&self) -> (r: i64)
        ensures
            r == self.spec_code(),
    {
        match self {
            Species::Human => 0,
            Species::HighElf => 1,
            Species::DeepElf => 2,
            Species::Halfling => 3,
            Species::HillOrc => 4,
            Species::Kobold => 5,
            Species::Mummy => 6,
            Species::Naga => 7,
            Species::Ogre => 8,
            Species::Troll => 9,
            Species::Draconian => 10,
            Species::Centaur => 11,
            Species::Demigod => 12,
            Species::Spriggan => 13,
            Species::Minotaur => 14,
            Species::Demonspawn => 15,
            Species::Ghoul => 16,
            Species::Tengu => 17,
            Species::Merfolk => 18,
            Species::Vampire => 19,
            Species::DeepDwarf => 20,
            Species::Felid => 21,
            Species::Octopode => 22,
            Species::Gargoyle => 23,
            Species::Formicid => 24,
            Species::VineStalker => 25,
            Species::Barachi => 26,
            Species::Gnoll => 27,
        }
    }

    /// The label under which the value is shown.
    pub fn label(&self) -> (r: String)
        ensures
            r@ == self.spec_label(),
    {
        match self {
            Species::Human => String::from_str("Human"),
            Species::HighElf => String::from_str("HighElf"),
            Species::DeepElf => String::from_str("DeepElf"),
            Species::Halfling => String::from_str("Halfling"),
            Species::HillOrc => String::from_str("HillOrc"),
            Species::Kobold => String::from_str("Kobold"),
            Species::Mummy => String::from_str("Mummy"),
            Species::Naga => String::from_str("Naga"),
            Species::Ogre => String::from_str("Ogre"),
            Species::Troll => String::from_str("Troll"),
            Species::Draconian => String::from_str("Draconian"),
            Species::Centaur => String::from_str("Centaur"),
            Species::Demigod => String::from_str("Demigod"),
            Species::Spriggan => String::from_str("Spriggan"),
            Species::Minotaur => String::from_str("Minotaur"),
            Species::Demonspawn => String::from_str("Demonspawn"),
            Species::Ghoul => String::from_str("Ghoul"),
            Species::Tengu => String::from_str("Tengu"),
            Species::Merfolk => String::from_str("Merfolk"),
            Species::Vampire => String::from_str("Vampire"),
            Species::DeepDwarf => String::from_str("DeepDwarf"),
            Species::Felid => String::from_str("Felid"),
            Species::Octopode => String::from_str("Octopode"),
            Species::Gargoyle => String::from_str("Gargoyle"),
            Species::Formicid => String::from_str("Formicid"),
            Species::VineStalker => String::from_str("VineStalker"),
            Species::Barachi => String::from_str("Barachi"),
            Species::Gnoll => String::from_str("Gnoll"),
        }
    }

    /// The value whose label equals `text`, ASCII letters compared without case.
    pub fn parse(text: &str) -> (r: Option<Species>)
        ensures
            r matches Some(v) ==> same_ignoring_ascii_case(text@, v.spec_label()),
            r is None ==> forall|v: Species| !same_ignoring_ascii_case(text@, #[trigger] v.spec_label()),
    {
        if eq_ignore_ascii_case(text, "Human") {
            return Some(Species::Human);
        }
        if eq_ignore_ascii_case(text, "HighElf") {
            return Some(Species::HighElf);
        }
        if eq_ignore_ascii_case(text, "DeepElf") {
            return Some(Species::DeepElf);
        }
        if eq_ignore_ascii_case(text, "Halfling") {
            return Some(Species::Halfling);
        }
        if eq_ignore_ascii_case(text, "HillOrc") {
            return Some(Species::HillOrc);
        }
        if eq_ignore_ascii_case(text, "Kobold") {
            return Some(Species::Kobold);
        }
        if eq_ignore_ascii_case(text, "Mummy") {
            return Some(Species::Mummy);
        }
        if eq_ignore_ascii_case(text, "Naga") {
            return Some(Species::Naga);
        }
        if eq_ignore_ascii_case(text, "Ogre") {
            return Some(Species::Ogre);
        }
        if eq_ignore_ascii_case(text, "Troll") {
            return Some(Species::Troll);
        }
        if eq_ignore_ascii_case(text, "Draconian") {
            return Some(Species::Draconian);
        }
        if eq_ignore_ascii_case(text, "Centaur") {
            return Some(Species::Centaur);
        }
        if eq_ignore_ascii_case(text, "Demigod") {
            return Some(Species::Demigod);
        }
        if eq_ignore_ascii_case(text, "Spriggan") {
            return Some(Species::Spriggan);
        }
        if eq_ignore_ascii_case(text, "Minotaur") {
            return Some(Species::Minotaur);
        }
        if eq_ignore_ascii_case(text, "Demonspawn") {
            return Some(Species::Demonspawn);
        }
        if eq_ignore_ascii_case(text, "Ghoul") {
            return Some(Species::Ghoul);
        }
        if eq_ignore_ascii_case(text, "Tengu") {
            return Some(Species::Tengu);
        }
        if eq_ignore_ascii_case(text, "Merfolk") {
            return Some(Species::Merfolk);
        }
        if eq_ignore_ascii_case(text, "Vampire") {
            return Some(Species::Vampire);
        }
        if eq_ignore_ascii_case(text, "DeepDwarf") {
            return Some(Species::DeepDwarf);
        }
        if eq_ignore_ascii_case(text, "Felid") {
            return Some(Species::Felid);
        }
        if eq_ignore_ascii_case(text, "Octopode") {
            return Some(Species::Octopode);
        }
        if eq_ignore_ascii_case(text, "Gargoyle") {
            return Some(Species::Gargoyle);
        }
        if eq_ignore_ascii_case(text, "Formicid") {
            return Some(Species::Formicid);
        }
        if eq_ignore_ascii_case(text, "VineStalker") {
            return Some(Species::VineStalker);
        }
        if eq_ignore_ascii_case(text, "Barachi") {
            return Some(Species::Barachi);
        }
        if eq_ignore_ascii_case(text, "Gnoll") {
            return Some(Species::Gnoll);
        }
        None
    }
}

impl Coded for Species {
    open spec fn spec_decode(code: int) -> Option<Species> {
        Species::spec_from_code(code)
    }

    open spec fn spec_text(self) -> Seq<char> {
        self.spec_label()
    }

    open spec fn spec_unknown(code: i64) -> CodeError {
        CodeError::UnknownSpecies(code)
    }

    fn decode(code: i64) -> (r: Option<Species>) {
        Species::from_code(code)
    }

    fn text(&self) -> (r: String) {
        self.label()
    }

    fn unknown(code: i64) -> (r: CodeError) {
        CodeError::UnknownSpecies(code)
    }
}

/// The background a character starts with.
#[derive(Clone, Copy, Debug, PartialEq, Eq, Structural)]
pub enum Background {
    Fighter,
    Wizard,
    Gladiator,
    Necromancer,
    Assassin,
    Berserker,
    Hunter,
    Conjurer,
    Enchanter,
    FireElementalist,
    IceElementalist,
    Summoner,
    AirElementalist,
    EarthElementalist,
    Skald,
    VenomMage,
    ChaosKnight,
    Transmuter,
    Monk,
    Warper,
    Wanderer,
    ArcaneMarksman,
    AbyssalKnight,
    Artificer,
}

impl Background {
    /// How many values the set holds; their codes are `0` up to one less.
    pub open spec fn count() -> int {
        24
    }

    /// The integer code under which the value is stored.
    pub open spec fn spec_code(self) -> int {
        match self {
            Background::Fighter => 0,
            Background::Wizard => 1,
            Background::Gladiator => 2,
            Background::Necromancer => 3,
            Background::Assassin => 4,
            Background::Berserker => 5,
            Background::Hunter => 6,
            Background::Conjurer => 7,
            Background::Enchanter => 8,
            Background::FireElementalist => 9,
            Background::IceElementalist => 10,
            Background::Summoner => 11,
            Background::AirElementalist => 12,
            Background::EarthElementalist => 13,
            Background::Skald => 14,
            Background::VenomMage => 15,
            Background::ChaosKnight => 16,
            Background::Transmuter => 17,
            Background::Monk => 18,
            Background::Warper => 19,
            Background::Wanderer => 20,
            Background::ArcaneMarksman => 21,
            Background::AbyssalKnight => 22,
            Background::Artificer => 23,
        }
    }

    /// The label under which the value is shown and parsed.
    pub open spec fn spec_label(self) -> Seq<char> {
        match self {
            Background::Fighter => "Fighter"@,
            Background::Wizard => "Wizard"@,
            Background::Gladiator => "Gladiator"@,
            Background::Necromancer => "Necromancer"@,
            Background::Assassin => "Assassin"@,
            Background::Berserker => "Berserker"@,
            Background::Hunter => "Hunter"@,
            Background::Conjurer => "Conjurer"@,
            Background::Enchanter => "Enchanter"@,
            Background::FireElementalist => "FireElementalist"@,
            Background::IceElementalist => "IceElementalist"@,
            Background::Summoner => "Summoner"@,
            Background::AirElementalist => "AirElementalist"@,
            Background::EarthElementalist => "EarthElementalist"@,
            Background::Skald => "Skald"@,
            Background::VenomMage => "VenomMage"@,
            Background::ChaosKnight => "ChaosKnight"@,
            Background::Transmuter => "Transmuter"@,
            Background::Monk => "Monk"@,
            Background::Warper => "Warper"@,
            Background::Wanderer => "Wanderer"@,
            Background::ArcaneMarksman => "ArcaneMarksman"@,
            Background::AbyssalKnight => "AbyssalKnight"@,
            Background::Artificer => "Artificer"@,
        }
    }

    /// The value stored under `code`, if the code is known.
    pub open spec fn spec_from_code(code: int) -> Option<Background> {
        if code == 0 {
            Some(Background::Fighter)
        } else if code == 1 {
            Some(Background::Wizard)
        } else if code == 2 {
            Some(Background::Gladiator)
        } else if code == 3 {
            Some(Background::Necromancer)
        } else if code == 4 {
            Some(Background::Assassin)
        } else if code == 5 {
            Some(Background::Berserker)
        } else if code == 6 {
            Some(Background::Hunter)
        } else if code == 7 {
            Some(Background::Conjurer)
        } else if code == 8 {
            Some(Background::Enchanter)
        } else if code == 9 {
            Some(Background::FireElementalist)
        } else if code == 10 {
            Some(Background::IceElementalist)
        } else if code == 11 {
            Some(Background::Summoner)
        } else if code == 12 {
            Some(Background::AirElementalist)
        } else if code == 13 {
            Some(Background::EarthElementalist)
        } else if code == 14 {
            Some(Background::Skald)
        } else if code == 15 {
            Some(Background::VenomMage)
        } else if code == 16 {
            Some(Background::ChaosKnight)
        } else if code == 17 {
            Some(Background::Transmuter)
        } else if code == 18 {
            Some(Background::Monk)
        } else if code == 19 {
            Some(Background::Warper)
        } else if code == 20 {
            Some(Background::Wanderer)
        } else if code == 21 {
            Some(Background::ArcaneMarksman)
        } else if code == 22 {
            Some(Background::AbyssalKnight)
        } else if code == 23 {
            Some(Background::Artificer)
        } else {
            None
        }
    }

    /// The value stored under `code`, if the code is known.
    pub fn from_code(code: i64) -> (r: Option<Background>)
        ensures
            r == Background::spec_from_code(code as int),
            r.is_some() <==> 0 <= code < Background::count(),
            r matches Some(v) ==> v.spec_code() == code,
    {
        match code {
            0 => Some(Background::Fighter),
            1 => Some(Background::Wizard),
            2 => Some(Background::Gladiator),
            3 => Some(Background::Necromancer),
            4 => Some(Background::Assassin),
            5 => Some(Background::Berserker),
            6 => Some(Background::Hunter),
            7 => Some(Background::Conjurer),
            8 => Some(Background::Enchanter),
            9 => Some(Background::FireElementalist),
            10 => Some(Background::IceElementalist),
            11 => Some(Background::Summoner),
            12 => Some(Background::AirElementalist),
            13 => Some(Background::EarthElementalist),
            14 => Some(Background::Skald),
            15 => Some(Background::VenomMage),
            16 => Some(Background::ChaosKnight),
            17 => Some(Background::Transmuter),
            18 => Some(Background::Monk),
            19 => Some(Background::Warper),
            20 => Some(Background::Wanderer),
            21 => Some(Background::ArcaneMarksman),
            22 => Some(Background::AbyssalKnight),
            23 => Some(Background::Artificer),
            _ => None,
        }
    }

    /// The integer code under which the value is stored.
    pub fn code(&self) -> (r: i64)
        ensures
            r == self.spec_code(),
    {
        match self {
            Background::Fighter => 0,
            Background::Wizard => 1,
            Background::Gladiator => 2,
            Background::Necromancer => 3,
            Background::Assassin => 4,
            Background::Berserker => 5,
            Background::Hunter => 6,
            Background::Conjurer => 7,
            Background::Enchanter => 8,
            Background::FireElementalist => 9,
            Background::IceElementalist => 10,
            Background::Summoner => 11,
            Background::AirElementalist => 12,
            Background::EarthElementalist => 13,
            Background::Skald => 14,
            Background::VenomMage => 15,
            Background::ChaosKnight => 16,
            Background::Transmuter => 17,
            Background::Monk => 18,
            Background::Warper => 19,
            Background::Wanderer => 20,
            Background::ArcaneMarksman => 21,
            Background::AbyssalKnight => 22,
            Background::Artificer => 23,
        }
    }

    /// The label under which the value is shown.
    pub fn label(&self) -> (r: String)
        ensures
            r@ == self.spec_label(),
    {
        match self {
            Background::Fighter => String::from_str("Fighter"),
            Background::Wizard => String::from_str("Wizard"),
            Background::Gladiator => String::from_str("Gladiator"),
            Background::Necromancer => String::from_str("Necromancer"),
            Background::Assassin => String::from_str("Assassin"),
            Background::Berserker => String::from_str("Berserker"),
            Background::Hunter => String::from_str("Hunter"),
            Background::Conjurer => String::from_str("Conjurer"),
            Background::Enchanter => String::from_str("Enchanter"),
            Background::FireElementalist => String::from_str("FireElementalist"),
            Background::IceElementalist => String::from_str("IceElementalist"),
            Background::Summoner => String::from_str("Summoner"),
            Background::AirElementalist => String::from_str("AirElementalist"),
            Background::EarthElementalist => String::from_str("EarthElementalist"),
            Background::Skald => String::from_str("Skald"),
            Background::VenomMage => String::from_str("VenomMage"),
            Background::ChaosKnight => String::from_str("ChaosKnight"),
            Background::Transmuter => String::from_str("Transmuter"),
            Background::Monk => String::from_str("Monk"),
            Background::Warper => String::from_str("Warper"),
            Background::Wanderer => String::from_str("Wanderer"),
            Background::ArcaneMarksman => String::from_str("ArcaneMarksman"),
            Background::AbyssalKnight => String::from_str("AbyssalKnight"),
            Background::Artificer => String::from_str("Artificer"),
        }
    }

    /// The value whose label equals `text`, ASCII letters compared without case.
    pub fn parse(text: &str) -> (r: Option<Background>)
        ensures
            r matches Some(v) ==> same_ignoring_ascii_case(text@, v.spec_label()),
            r is None ==> forall|v: Background| !same_ignoring_ascii_case(text@, #[trigger] v.spec_label()),
    {
        if eq_ignore_ascii_case(text, "Fighter") {
            return Some(Background::Fighter);
        }
        if eq_ignore_ascii_case(text, "Wizard") {
            return Some(Background::Wizard);
        }
        if eq_ignore_ascii_case(text, "Gladiator") {
            return Some(Background::Gladiator);
        }
        if eq_ignore_ascii_case(text, "Necromancer") {
            return Some(Background::Necromancer);
        }
        if eq_ignore_ascii_case(text, "Assassin") {
            return Some(Background::Assassin);
        }
        if eq_ignore_ascii_case(text, "Berserker") {
            return Some(Background::Berserker);
        }
        if eq_ignore_ascii_case(text, "Hunter") {
            return Some(Background::Hunter);
        }
        if eq_ignore_ascii_case(text, "Conjurer") {
            return Some(Background::Conjurer);
        }
        if eq_ignore_ascii_case(text, "Enchanter") {
            return Some(Background::Enchanter);
        }
        if eq_ignore_ascii_case(text, "FireElementalist") {
            return Some(Background::FireElementalist);
        }
        if eq_ignore_ascii_case(text, "IceElementalist") {
            return Some(Background::IceElementalist);
        }
        if eq_ignore_ascii_case(text, "Summoner") {
            return Some(Background::Summoner);
        }
        if eq_ignore_ascii_case(text, "AirElementalist") {
            return Some(Background::AirElementalist);
        }
        if eq_ignore_ascii_case(text, "EarthElementalist") {
            return Some(Background::EarthElementalist);
        }
        if eq_ignore_ascii_case(text, "Skald") {
            return Some(Background::Skald);
        }
        if eq_ignore_ascii_case(text, "VenomMage") {
            return Some(Background::VenomMage);
        }
        if eq_ignore_ascii_case(text, "ChaosKnight") {
            return Some(Background::ChaosKnight);
        }
        if eq_ignore_ascii_case(text, "Transmuter") {
            return Some(Background::Transmuter);
        }
        if eq_ignore_ascii_case(text, "Monk") {
            return Some(Background::Monk);
        }
        if eq_ignore_ascii_case(text, "Warper") {
            return Some(Background::Warper);
        }
        if eq_ignore_ascii_case(text, "Wanderer") {
            return Some(Background::Wanderer);
        }
        if eq_ignore_ascii_case(text, "ArcaneMarksman") {
            return Some(Background::ArcaneMarksman);
        }
        if eq_ignore_ascii_case(text, "AbyssalKnight") {
            return Some(Background::AbyssalKnight);
        }
        if eq_ignore_ascii_case(text, "Artificer") {
            return Some(Background::Artificer);
        }
        None
    }
}

impl Coded for Background {
    open spec fn spec_decode(code: int) -> Option<Background> {
        Background::spec_from_code(code)
    }

    open spec fn spec_text(self) -> Seq<char> {
        self.spec_label()
    }

    open spec fn spec_unknown(code: i64) -> CodeError {
        CodeError::UnknownBackground(code)
    }

    fn decode(code: i64) -> (r: Option<Background>) {
        Background::from_code(code)
    }

    fn text(&self) -> (r: String) {
        self.label()
    }

    fn unknown(code: i64) -> (r: CodeError) {
        CodeError::UnknownBackground(code)
    }
}

/// The god a character worships; `Atheist` stands for none.
#[derive(Clone, Copy, Debug, PartialEq, Eq, Structural)]
pub enum God {
    Atheist,
    Zin,
    TheShiningOne,
    Kikubaaqudgha,
    Yredelemnul,
    Xom,
    Vehumet,
    Okawaru,
    Makhleb,
    SifMuna,
    Trog,
    NemelexXobeh,
    Elyvilon,
    Lugonu,
    Beogh,
    Jiyva,
    Fedhas,
    Cheibriados,
    Ashenzari,
    Dithmenos,
    Gozag,
    Qazlal,
    Ru,
    Pakellas,
    Uskayaw,
    Hepliaklqana,
    WuJian,
}

impl God {
    /// How many values the set holds; their codes are `0` up to one less.
    pub open spec fn count() -> int {
        27
    }

    /// The integer code under which the value is stored.
    pub open spec fn spec_code(self) -> int {
        match self {
            God::Atheist => 0,
            God::Zin => 1,
            God::TheShiningOne => 2,
            God::Kikubaaqudgha => 3,
            God::Yredelemnul => 4,
            God::Xom => 5,
            God::Vehumet => 6,
            God::Okawaru => 7,
            God::Makhleb => 8,
            God::SifMuna => 9,
            God::Trog => 10,
            God::NemelexXobeh => 11,
            God::Elyvilon => 12,
            God::Lugonu => 13,
            God::Beogh => 14,
            God::Jiyva => 15,
            God::Fedhas => 16,
            God::Cheibriados => 17,
            God::Ashenzari => 18,
            God::Dithmenos => 19,
            God::Gozag => 20,
            God::Qazlal => 21,
            God::Ru => 22,
            God::Pakellas => 23,
            God::Uskayaw => 24,
            God::Hepliaklqana => 25,
            God::WuJian => 26,
        }
    }

    /// The label under which the value is shown and parsed.
    pub open spec fn spec_label(self) -> Seq<char> {
        match self {
            God::Atheist => "Atheist"@,
            God::Zin => "Zin"@,
            God::TheShiningOne => "TheShiningOne"@,
            God::Kikubaaqudgha => "Kikubaaqudgha"@,
            God::Yredelemnul => "Yredelemnul"@,
            God::Xom => "Xom"@,
            God::Vehumet => "Vehumet"@,
            God::Okawaru => "Okawaru"@,
            God::Makhleb => "Makhleb"@,
            God::SifMuna => "SifMuna"@,
            God::Trog => "Trog"@,
            God::NemelexXobeh => "NemelexXobeh"@,
            God::Elyvilon => "Elyvilon"@,
            God::Lugonu => "Lugonu"@,
            God::Beogh => "Beogh"@,
            God::Jiyva => "Jiyva"@,
            God::Fedhas => "Fedhas"@,
            God::Cheibriados => "Cheibriados"@,
            God::Ashenzari => "Ashenzari"@,
            God::Dithmenos => "Dithmenos"@,
            God::Gozag => "Gozag"@,
            God::Qazlal => "Qazlal"@,
            God::Ru => "Ru"@,
            God::Pakellas => "Pakellas"@,
            God::Uskayaw => "Uskayaw"@,
            God::Hepliaklqana => "Hepliaklqana"@,
            God::WuJian => "WuJian"@,
        }
    }

    /// The value stored under `code`, if the code is known.
    pub open spec fn spec_from_code(code: int) -> Option<God> {
        if code == 0 {
            Some(God::Atheist)
        } else if code == 1 {
            Some(God::Zin)
        } else if code == 2 {
            Some(God::TheShiningOne)
        } else if code == 3 {
            Some(God::Kikubaaqudgha)
        } else if code == 4 {
            Some(God::Yredelemnul)
        } else if code == 5 {
            Some(God::Xom)
        } else if code == 6 {
            Some(God::Vehumet)
        } else if code == 7 {
            Some(God::Okawaru)
        } else if code == 8 {
            Some(God::Makhleb)
        } else if code == 9 {
            Some(God::SifMuna)
        } else if code == 10 {
            Some(God::Trog)
        } else if code == 11 {
            Some(God::NemelexXobeh)
        } else if code == 12 {
            Some(God::Elyvilon)
        } else if code == 13 {
            Some(God::Lugonu)
        } else if code == 14 {
            Some(God::Beogh)
        } else if code == 15 {
            Some(God::Jiyva)
        } else if code == 16 {
            Some(God::Fedhas)
        } else if code == 17 {
            Some(God::Cheibriados)
        } else if code == 18 {
            Some(God::Ashenzari)
        } else if code == 19 {
            Some(God::Dithmenos)
        } else if code == 20 {
            Some(God::Gozag)
        } else if code == 21 {
            Some(God::Qazlal)
        } else if code == 22 {
            Some(God::Ru)
        } else if code == 23 {
            Some(God::Pakellas)
        } else if code == 24 {
            Some(God::Uskayaw)
        } else if code == 25 {
            Some(God::Hepliaklqana)
        } else if code == 26 {
            Some(God::WuJian)
        } else {
            None
        }
    }

    /// The value stored under `code`, if the code is known.
    pub fn from_code(code: i64) -> (r: Option<God>)
        ensures
            r == God::spec_from_code(code as int),
            r.is_some() <==> 0 <= code < God::count(),
            r matches Some(v) ==> v.spec_code() == code,
    {
        match code {
            0 => Some(God::Atheist),
            1 => Some(God::Zin),
            2 => Some(God::TheShiningOne),
            3 => Some(God::Kikubaaqudgha),
            4 => Some(God::Yredelemnul),
            5 => Some(God::Xom),
            6 => Some(God::Vehumet),
            7 => Some(God::Okawaru),
            8 => Some(God::Makhleb),
            9 => Some(God::SifMuna),
            10 => Some(God::Trog),
            11 => Some(God::NemelexXobeh),
            12 => Some(God::Elyvilon),
            13 => Some(God::Lugonu),
            14 => Some(God::Beogh),
            15 => Some(God::Jiyva),
            16 => Some(God::Fedhas),
            17 => Some(God::Cheibriados),
            18 => Some(God::Ashenzari),
            19 => Some(God::Dithmenos),
            20 => Some(God::Gozag),
            21 => Some(God::Qazlal),
            22 => Some(God::Ru),
            23 => Some(God::Pakellas),
            24 => Some(God::Uskayaw),
            25 => Some(God::Hepliaklqana),
            26 => Some(God::WuJian),
            _ => None,
        }
    }

    /// The integer code under which the value is stored.
    pub fn code(&self) -> (r: i64)
        ensures
            r == self.spec_code(),
    {
        match self {
            God::Atheist => 0,
            God::Zin => 1,
            God::TheShiningOne => 2,
            God::Kikubaaqudgha => 3,
            God::Yredelemnul => 4,
            God::Xom => 5,
            God::Vehumet => 6,
            God::Okawaru => 7,
            God::Makhleb => 8,
            God::SifMuna => 9,
            God::Trog => 10,
            God::NemelexXobeh => 11,
            God::Elyvilon => 12,
            God::Lugonu => 13,
            God::Beogh => 14,
            God::Jiyva => 15,
            God::Fedhas => 16,
            God::Cheibriados => 17,
            God::Ashenzari => 18,
            God::Dithmenos => 19,
            God::Gozag => 20,
            God::Qazlal => 21,
            God::Ru => 22,
            God::Pakellas => 23,
            God::Uskayaw => 24,
            God::Hepliaklqana => 25,
            God::WuJian => 26,
        }
    }

    /// The label under which the value is shown.
    pub fn label(&self) -> (r: String)
        ensures
            r@ == self.spec_label(),
    {
        match self {
            God::Atheist => String::from_str("Atheist"),
            God::Zin => String::from_str("Zin"),
            God::TheShiningOne => String::from_str("TheShiningOne"),
            God::Kikubaaqudgha => String::from_str("Kikubaaqudgha"),
            God::Yredelemnul => String::from_str("Yredelemnul"),
            God::Xom => String::from_str("Xom"),
            God::Vehumet => String::from_str("Vehumet"),
            God::Okawaru => String::from_str("Okawaru"),
            God::Makhleb => String::from_str("Makhleb"),
            God::SifMuna => String::from_str("SifMuna"),
            God::Trog => String::from_str("Trog"),
            God::NemelexXobeh => String::from_str("NemelexXobeh"),
            God::Elyvilon => String::from_str("Elyvilon"),
            God::Lugonu => String::from_str("Lugonu"),
            God::Beogh => String::from_str("Beogh"),
            God::Jiyva => String::from_str("Jiyva"),
            God::Fedhas => String::from_str("Fedhas"),
            God::Cheibriados => String::from_str("Cheibriados"),
            God::Ashenzari => String::from_str("Ashenzari"),
            God::Dithmenos => String::from_str("Dithmenos"),
            God::Gozag => String::from_str("Gozag"),
            God::Qazlal => String::from_str("Qazlal"),
            God::Ru => String::from_str("Ru"),
            God::Pakellas => String::from_str("Pakellas"),
            God::Uskayaw => String::from_str("Uskayaw"),
            God::Hepliaklqana => String::from_str("Hepliaklqana"),
            God::WuJian => String::from_str("WuJian"),
        }
    }

    /// The value whose label equals `text`, ASCII letters compared without case.
    pub fn parse(text: &str) -> (r: Option<God>)
        ensures
            r matches Some(v) ==> same_ignoring_ascii_case(text@, v.spec_label()),
            r is None ==> forall|v: God| !same_ignoring_ascii_case(text@, #[trigger] v.spec_label()),
    {
        if eq_ignore_ascii_case(text, "Atheist") {
            return Some(God::Atheist);
        }
        if eq_ignore_ascii_case(text, "Zin") {
            return Some(God::Zin);
        }
        if eq_ignore_ascii_case(text, "TheShiningOne") {
            return Some(God::TheShiningOne);
        }
        if eq_ignore_ascii_case(text, "Kikubaaqudgha") {
            return Some(God::Kikubaaqudgha);
        }
        if eq_ignore_ascii_case(text, "Yredelemnul") {
            return Some(God::Yredelemnul);
        }
        if eq_ignore_ascii_case(text, "Xom") {
            return Some(God::Xom);
        }
        if eq_ignore_ascii_case(text, "Vehumet") {
            return Some(God::Vehumet);
        }
        if eq_ignore_ascii_case(text, "Okawaru") {
            return Some(God::Okawaru);
        }
        if eq_ignore_ascii_case(text, "Makhleb") {
            return Some(God::Makhleb);
        }
        if eq_ignore_ascii_case(text, "SifMuna") {
            return Some(God::SifMuna);
        }
        if eq_ignore_ascii_case(text, "Trog") {
            return Some(God::Trog);
        }
        if eq_ignore_ascii_case(text, "NemelexXobeh") {
            return Some(God::NemelexXobeh);
        }
        if eq_ignore_ascii_case(text, "Elyvilon") {
            return Some(God::Elyvilon);
        }
        if eq_ignore_ascii_case(text, "Lugonu") {
            return Some(God::Lugonu);
        }
        if eq_ignore_ascii_case(text, "Beogh") {
            return Some(God::Beogh);
        }
        if eq_ignore_ascii_case(text, "Jiyva") {
            return Some(God::Jiyva);
        }
        if eq_ignore_ascii_case(text, "Fedhas") {
            return Some(God::Fedhas);
        }
        if eq_ignore_ascii_case(text, "Cheibriados") {
            return Some(God::Cheibriados);
        }
        if eq_ignore_ascii_case(text, "Ashenzari") {
            return Some(God::Ashenzari);
        }
        if eq_ignore_ascii_case(text, "Dithmenos") {
            return Some(God::Dithmenos);
        }
        if eq_ignore_ascii_case(text, "Gozag") {
            return Some(God::Gozag);
        }
        if eq_ignore_ascii_case(text, "Qazlal") {
            return Some(God::Qazlal);
        }
        if eq_ignore_ascii_case(text, "Ru") {
            return Some(God::Ru);
        }
        if eq_ignore_ascii_case(text, "Pakellas") {
            return Some(God::Pakellas);
        }
        if eq_ignore_ascii_case(text, "Uskayaw") {
            return Some(God::Uskayaw);
        }
        if eq_ignore_ascii_case(text, "Hepliaklqana") {
            return Some(God::Hepliaklqana);
        }
        if eq_ignore_ascii_case(text, "WuJian") {
            return Some(God::WuJian);
        }
        None
    }
}

impl Coded for God {
    open spec fn spec_decode(code: int) -> Option<God> {
        God::spec_from_code(code)
    }

    open spec fn spec_text(self) -> Seq<char> {
        self.spec_label()
    }

    open spec fn spec_unknown(code: i64) -> CodeError {
        CodeError::UnknownGod(code)
    }

    fn decode(code: i64) -> (r: Option<God>) {
        God::from_code(code)
    }

    fn text(&self) -> (r: String) {
        self.label()
    }

    fn unknown(code: i64) -> (r: CodeError) {
        CodeError::UnknownGod(code)
    }
}
} // verus!
