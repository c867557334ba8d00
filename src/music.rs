//! Practice items, the spaced-repetition ladder and the due-date rule.
use crate::time::{at_least_days_between, elapsed_days, now, Timestamp};
use vstd::prelude::*;

verus! {

/// Two texts that differ at one position are different.
proof fn lemma_differ_at(a: Seq<char>, b: Seq<char>, i: int)
    requires
        0 <= i < a.len(),
        i < b.len(),
        a[i] != b[i],
    ensures
        a != b,
{
}

/// Whether two texts are the same.
pub fn same_text(a: &str, b: &str) -> (r: bool)
    ensures
        r == (a@ == b@),
{
    a.to_owned() == b.to_owned()
}

/// A musical key.
#[derive(Clone, Copy, Debug, PartialEq, Eq, Structural)]
pub enum Key {
    Ab,
    A,
    B,
    Bb,
    C,
    D,
    Db,
    E,
    Eb,
    F,
    G,
    Gb,
}

impl Key {
    /// Position of the variant in declaration order.
    pub open spec fn index(self) -> nat {
        match self {
            Key::Ab => 0,
            Key::A => 1,
            Key::B => 2,
            Key::Bb => 3,
            Key::C => 4,
            Key::D => 5,
            Key::Db => 6,
            Key::E => 7,
            Key::Eb => 8,
            Key::F => 9,
            Key::G => 10,
            Key::Gb => 11,
        }
    }

    /// The variant's name, as records and summaries spell it.
    pub open spec fn name_spec(self) -> Seq<char> {
        match self {
            Key::Ab => "Ab"@,
            Key::A => "A"@,
            Key::B => "B"@,
            Key::Bb => "Bb"@,
            Key::C => "C"@,
            Key::D => "D"@,
            Key::Db => "Db"@,
            Key::E => "E"@,
            Key::Eb => "Eb"@,
            Key::F => "F"@,
            Key::G => "G"@,
            Key::Gb => "Gb"@,
        }
    }

    /// The variant whose name is `s`, if any.
    pub open spec fn from_name_spec(s: Seq<char>) -> Option<Key> {
        if s == "Ab"@ {
            Some(Key::Ab)
        } else if s == "A"@ {
            Some(Key::A)
        } else if s == "B"@ {
            Some(Key::B)
        } else if s == "Bb"@ {
            Some(Key::Bb)
        } else if s == "C"@ {
            Some(Key::C)
        } else if s == "D"@ {
            Some(Key::D)
        } else if s == "Db"@ {
            Some(Key::Db)
        } else if s == "E"@ {
            Some(Key::E)
        } else if s == "Eb"@ {
            Some(Key::Eb)
        } else if s == "F"@ {
            Some(Key::F)
        } else if s == "G"@ {
            Some(Key::G)
        } else if s == "Gb"@ {
            Some(Key::Gb)
        } else {
            None
        }
    }

    /// The variant at position `i` in declaration order.
    pub fn from_index(i: u64) -> (r: Key)
        requires
            i < 12,
        ensures
            r.index() == i,
    {
        if i == 0 {
            Key::Ab
        } else if i == 1 {
            Key::A
        } else if i == 2 {
            Key::B
        } else if i == 3 {
            Key::Bb
        } else if i == 4 {
            Key::C
        } else if i == 5 {
            Key::D
        } else if i == 6 {
            Key::Db
        } else if i == 7 {
            Key::E
        } else if i == 8 {
            Key::Eb
        } else if i == 9 {
            Key::F
        } else if i == 10 {
            Key::G
        } else {
            Key::Gb
        }
    }

    /// The variant's name.
    pub fn name(&self) -> (r: &'static str)
        ensures
            r@ == self.name_spec(),
    {
        match self {
            Key::Ab => "Ab",
            Key::A => "A",
            Key::B => "B",
            Key::Bb => "Bb",
            Key::C => "C",
            Key::D => "D",
            Key::Db => "Db",
            Key::E => "E",
            Key::Eb => "Eb",
            Key::F => "F",
            Key::G => "G",
            Key::Gb => "Gb",
        }
    }

    /// The variant named `s`, if any.
    pub fn from_name(s: &str) -> (r: Option<Key>)
        ensures
            r == Key::from_name_spec(s@),
    {
        if same_text(s, "Ab") {
            Some(Key::Ab)
        } else if same_text(s, "A") {
            Some(Key::A)
        } else if same_text(s, "B") {
            Some(Key::B)
        } else if same_text(s, "Bb") {
            Some(Key::Bb)
        } else if same_text(s, "C") {
            Some(Key::C)
        } else if same_text(s, "D") {
            Some(Key::D)
        } else if same_text(s, "Db") {
            Some(Key::Db)
        } else if same_text(s, "E") {
            Some(Key::E)
        } else if same_text(s, "Eb") {
            Some(Key::Eb)
        } else if same_text(s, "F") {
            Some(Key::F)
        } else if same_text(s, "G") {
            Some(Key::G)
        } else if same_text(s, "Gb") {
            Some(Key::Gb)
        } else {
            None
        }
    }

    /// Reading a variant's name gives the variant back.
    pub proof fn lemma_name_round_trip(self)
        ensures
            Key::from_name_spec(self.name_spec()) == Some(self),
    {
        reveal_strlit("Ab");
        assert("Ab"@ =~= seq!['A','b']);
        reveal_strlit("A");
        assert("A"@ =~= seq!['A']);
        reveal_strlit("B");
        assert("B"@ =~= seq!['B']);
        reveal_strlit("Bb");
        assert("Bb"@ =~= seq!['B','b']);
        reveal_strlit("C");
        assert("C"@ =~= seq!['C']);
        reveal_strlit("D");
        assert("D"@ =~= seq!['D']);
        reveal_strlit("Db");
        assert("Db"@ =~= seq!['D','b']);
        reveal_strlit("E");
        assert("E"@ =~= seq!['E']);
        reveal_strlit("Eb");
        assert("Eb"@ =~= seq!['E','b']);
        reveal_strlit("F");
        assert("F"@ =~= seq!['F']);
        reveal_strlit("G");
        assert("G"@ =~= seq!['G']);
        reveal_strlit("Gb");
        assert("Gb"@ =~= seq!['G','b']);
        match self {
            Key::Ab => {},
            Key::A => {},
            Key::B => {
                lemma_differ_at("B"@, "A"@, 0);
            },
            Key::Bb => {
                lemma_differ_at("Bb"@, "Ab"@, 0);
            },
            Key::C => {
                lemma_differ_at("C"@, "A"@, 0);
                lemma_differ_at("C"@, "B"@, 0);
            },
            Key::D => {
                lemma_differ_at("D"@, "A"@, 0);
                lemma_differ_at("D"@, "B"@, 0);
                lemma_differ_at("D"@, "C"@, 0);
            },
            Key::Db => {
                lemma_differ_at("Db"@, "Ab"@, 0);
                lemma_differ_at("Db"@, "Bb"@, 0);
            },
            Key::E => {
                lemma_differ_at("E"@, "A"@, 0);
                lemma_differ_at("E"@, "B"@, 0);
                lemma_differ_at("E"@, "C"@, 0);
                lemma_differ_at("E"@, "D"@, 0);
            },
            Key::Eb => {
                lemma_differ_at("Eb"@, "Ab"@, 0);
                lemma_differ_at("Eb"@, "Bb"@, 0);
                lemma_differ_at("Eb"@, "Db"@, 0);
            },
            Key::F => {
                lemma_differ_at("F"@, "A"@, 0);
                lemma_differ_at("F"@, "B"@, 0);
                lemma_differ_at("F"@, "C"@, 0);
                lemma_differ_at("F"@, "D"@, 0);
                lemma_differ_at("F"@, "E"@, 0);
            },
            Key::G => {
                lemma_differ_at("G"@, "A"@, 0);
                lemma_differ_at("G"@, "B"@, 0);
                lemma_differ_at("G"@, "C"@, 0);
                lemma_differ_at("G"@, "D"@, 0);
                lemma_differ_at("G"@, "E"@, 0);
                lemma_differ_at("G"@, "F"@, 0);
            },
            Key::Gb => {
                lemma_differ_at("Gb"@, "Ab"@, 0);
                lemma_differ_at("Gb"@, "Bb"@, 0);
                lemma_differ_at("Gb"@, "Db"@, 0);
                lemma_differ_at("Gb"@, "Eb"@, 0);
            },
        }
    }
}

/// A musical scale.
#[derive(Clone, Copy, Debug, PartialEq, Eq, Structural)]
pub enum Scale {
    Major,
    Dorian,
    Lydian,
    Lydian7,
    Mixolydian,
    Minor,
    MelodicMinor,
    Altered,
    HalfWholeDim,
    WholeHalfDim,
    BebopMajor,
    Bebop7,
    BluesMajor,
    BluesMinor,
    FullDim,
    Chromatic,
}

impl Scale {
    /// Position of the variant in declaration order.
    pub open spec fn index(self) -> nat {
        match self {
            Scale::Major => 0,
            Scale::Dorian => 1,
            Scale::Lydian => 2,
            Scale::Lydian7 => 3,
            Scale::Mixolydian => 4,
            Scale::Minor => 5,
            Scale::MelodicMinor => 6,
            Scale::Altered => 7,
            Scale::HalfWholeDim => 8,
            Scale::WholeHalfDim => 9,
            Scale::BebopMajor => 10,
            Scale::Bebop7 => 11,
            Scale::BluesMajor => 12,
            Scale::BluesMinor => 13,
            Scale::FullDim => 14,
            Scale::Chromatic => 15,
        }
    }

    /// The variant's name, as records and summaries spell it.
    pub open spec fn name_spec(self) -> Seq<char> {
        match self {
            Scale::Major => "Major"@,
            Scale::Dorian => "Dorian"@,
            Scale::Lydian => "Lydian"@,
            Scale::Lydian7 => "Lydian7"@,
            Scale::Mixolydian => "Mixolydian"@,
            Scale::Minor => "Minor"@,
            Scale::MelodicMinor => "MelodicMinor"@,
            Scale::Altered => "Altered"@,
            Scale::HalfWholeDim => "HalfWholeDim"@,
            Scale::WholeHalfDim => "WholeHalfDim"@,
            Scale::BebopMajor => "BebopMajor"@,
            Scale::Bebop7 => "Bebop7"@,
            Scale::BluesMajor => "BluesMajor"@,
            Scale::BluesMinor => "BluesMinor"@,
            Scale::FullDim => "FullDim"@,
            Scale::Chromatic => "Chromatic"@,
        }
    }

    /// The variant whose name is `s`, if any.
    pub open spec fn from_name_spec(s: Seq<char>) -> Option<Scale> {
        if s == "Major"@ {
            Some(Scale::Major)
        } else if s == "Dorian"@ {
            Some(Scale::Dorian)
        } else if s == "Lydian"@ {
            Some(Scale::Lydian)
        } else if s == "Lydian7"@ {
            Some(Scale::Lydian7)
        } else if s == "Mixolydian"@ {
            Some(Scale::Mixolydian)
        } else if s == "Minor"@ {
            Some(Scale::Minor)
        } else if s == "MelodicMinor"@ {
            Some(Scale::MelodicMinor)
        } else if s == "Altered"@ {
            Some(Scale::Altered)
        } else if s == "HalfWholeDim"@ {
            Some(Scale::HalfWholeDim)
        } else if s == "WholeHalfDim"@ {
            Some(Scale::WholeHalfDim)
        } else if s == "BebopMajor"@ {
            Some(Scale::BebopMajor)
        } else if s == "Bebop7"@ {
            Some(Scale::Bebop7)
        } else if s == "BluesMajor"@ {
            Some(Scale::BluesMajor)
        } else if s == "BluesMinor"@ {
            Some(Scale::BluesMinor)
        } else if s == "FullDim"@ {
            Some(Scale::FullDim)
        } else if s == "Chromatic"@ {
            Some(Scale::Chromatic)
        } else {
            None
        }
    }

    /// The variant at position `i` in declaration order.
    pub fn from_index(i: u64) -> (r: Scale)
        requires
            i < 16,
        ensures
            r.index() == i,
    {
        if i == 0 {
            Scale::Major
        } else if i == 1 {
            Scale::Dorian
        } else if i == 2 {
            Scale::Lydian
        } else if i == 3 {
            Scale::Lydian7
        } else if i == 4 {
            Scale::Mixolydian
        } else if i == 5 {
            Scale::Minor
        } else if i == 6 {
            Scale::MelodicMinor
        } else if i == 7 {
            Scale::Altered
        } else if i == 8 {
            Scale::HalfWholeDim
        } else if i == 9 {
            Scale::WholeHalfDim
        } else if i == 10 {
            Scale::BebopMajor
        } else if i == 11 {
            Scale::Bebop7
        } else if i == 12 {
            Scale::BluesMajor
        } else if i == 13 {
            Scale::BluesMinor
        } else if i == 14 {
            Scale::FullDim
        } else {
            Scale::Chromatic
        }
    }

    /// The variant's name.
    pub fn name(&self) -> (r: &'static str)
        ensures
            r@ == self.name_spec(),
    {
        match self {
            Scale::Major => "Major",
            Scale::Dorian => "Dorian",
            Scale::Lydian => "Lydian",
            Scale::Lydian7 => "Lydian7",
            Scale::Mixolydian => "Mixolydian",
            Scale::Minor => "Minor",
            Scale::MelodicMinor => "MelodicMinor",
            Scale::Altered => "Altered",
            Scale::HalfWholeDim => "HalfWholeDim",
            Scale::WholeHalfDim => "WholeHalfDim",
            Scale::BebopMajor => "BebopMajor",
            Scale::Bebop7 => "Bebop7",
            Scale::BluesMajor => "BluesMajor",
            Scale::BluesMinor => "BluesMinor",
            Scale::FullDim => "FullDim",
            Scale::Chromatic => "Chromatic",
        }
    }

    /// The variant named `s`, if any.
    pub fn from_name(s: &str) -> (r: Option<Scale>)
        ensures
            r == Scale::from_name_spec(s@),
    {
        if same_text(s, "Major") {
            Some(Scale::Major)
        } else if same_text(s, "Dorian") {
            Some(Scale::Dorian)
        } else if same_text(s, "Lydian") {
            Some(Scale::Lydian)
        } else if same_text(s, "Lydian7") {
            Some(Scale::Lydian7)
        } else if same_text(s, "Mixolydian") {
            Some(Scale::Mixolydian)
        } else if same_text(s, "Minor") {
            Some(Scale::Minor)
        } else if same_text(s, "MelodicMinor") {
            Some(Scale::MelodicMinor)
        } else if same_text(s, "Altered") {
            Some(Scale::Altered)
        } else if same_text(s, "HalfWholeDim") {
            Some(Scale::HalfWholeDim)
        } else if same_text(s, "WholeHalfDim") {
            Some(Scale::WholeHalfDim)
        } else if same_text(s, "BebopMajor") {
            Some(Scale::BebopMajor)
        } else if same_text(s, "Bebop7") {
            Some(Scale::Bebop7)
        } else if same_text(s, "BluesMajor") {
            Some(Scale::BluesMajor)
        } else if same_text(s, "BluesMinor") {
            Some(Scale::BluesMinor)
        } else if same_text(s, "FullDim") {
            Some(Scale::FullDim)
        } else if same_text(s, "Chromatic") {
            Some(Scale::Chromatic)
        } else {
            None
        }
    }

    /// Reading a variant's name gives the variant back.
    pub proof fn lemma_name_round_trip(self)
        ensures
            Scale::from_name_spec(self.name_spec()) == Some(self),
    {
        reveal_strlit("Major");
        assert("Major"@ =~= seq!['M','a','j','o','r']);
        reveal_strlit("Dorian");
        assert("Dorian"@ =~= seq!['D','o','r','i','a','n']);
        reveal_strlit("Lydian");
        assert("Lydian"@ =~= seq!['L','y','d','i','a','n']);
        reveal_strlit("Lydian7");
        assert("Lydian7"@ =~= seq!['L','y','d','i','a','n','7']);
        reveal_strlit("Mixolydian");
        assert("Mixolydian"@ =~= seq!['M','i','x','o','l','y','d','i','a','n']);
        reveal_strlit("Minor");
        assert("Minor"@ =~= seq!['M','i','n','o','r']);
        reveal_strlit("MelodicMinor");
        assert("MelodicMinor"@ =~= seq!['M','e','l','o','d','i','c','M','i','n','o','r']);
        reveal_strlit("Altered");
        assert("Altered"@ =~= seq!['A','l','t','e','r','e','d']);
        reveal_strlit("HalfWholeDim");
        assert("HalfWholeDim"@ =~= seq!['H','a','l','f','W','h','o','l','e','D','i','m']);
        reveal_strlit("WholeHalfDim");
        assert("WholeHalfDim"@ =~= seq!['W','h','o','l','e','H','a','l','f','D','i','m']);
        reveal_strlit("BebopMajor");
        assert("BebopMajor"@ =~= seq!['B','e','b','o','p','M','a','j','o','r']);
        reveal_strlit("Bebop7");
        assert("Bebop7"@ =~= seq!['B','e','b','o','p','7']);
        reveal_strlit("BluesMajor");
        assert("BluesMajor"@ =~= seq!['B','l','u','e','s','M','a','j','o','r']);
        reveal_strlit("BluesMinor");
        assert("BluesMinor"@ =~= seq!['B','l','u','e','s','M','i','n','o','r']);
        reveal_strlit("FullDim");
        assert("FullDim"@ =~= seq!['F','u','l','l','D','i','m']);
        reveal_strlit("Chromatic");
        assert("Chromatic"@ =~= seq!['C','h','r','o','m','a','t','i','c']);
        match self {
            Scale::Major => {},
            Scale::Dorian => {},
            Scale::Lydian => {
                lemma_differ_at("Lydian"@, "Dorian"@, 0);
            },
            Scale::Lydian7 => {},
            Scale::Mixolydian => {},
            Scale::Minor => {
                lemma_differ_at("Minor"@, "Major"@, 1);
            },
            Scale::MelodicMinor => {},
            Scale::Altered => {
                lemma_differ_at("Altered"@, "Lydian7"@, 0);
            },
            Scale::HalfWholeDim => {
                lemma_differ_at("HalfWholeDim"@, "MelodicMinor"@, 0);
            },
            Scale::WholeHalfDim => {
                lemma_differ_at("WholeHalfDim"@, "MelodicMinor"@, 0);
                lemma_differ_at("WholeHalfDim"@, "HalfWholeDim"@, 0);
            },
            Scale::BebopMajor => {
                lemma_differ_at("BebopMajor"@, "Mixolydian"@, 0);
            },
            Scale::Bebop7 => {
                lemma_differ_at("Bebop7"@, "Dorian"@, 0);
                lemma_differ_at("Bebop7"@, "Lydian"@, 0);
            },
            Scale::BluesMajor => {
                lemma_differ_at("BluesMajor"@, "Mixolydian"@, 0);
                lemma_differ_at("BluesMajor"@, "BebopMajor"@, 1);
            },
            Scale::BluesMinor => {
                lemma_differ_at("BluesMinor"@, "Mixolydian"@, 0);
                lemma_differ_at("BluesMinor"@, "BebopMajor"@, 1);
                lemma_differ_at("BluesMinor"@, "BluesMajor"@, 6);
            },
            Scale::FullDim => {
                lemma_differ_at("FullDim"@, "Lydian7"@, 0);
                lemma_differ_at("FullDim"@, "Altered"@, 0);
            },
            Scale::Chromatic => {},
        }
    }
}

/// A rhythmic feel.
#[derive(Clone, Copy, Debug, PartialEq, Eq, Structural)]
pub enum Rythm {
    Samba,
    BossaNova,
    Baiao,
    PartidoAlto,
    Bebop,
    Blues,
    Waltz,
    Ballad,
}

impl Rythm {
    /// Position of the variant in declaration order.
    pub open spec fn index(self) -> nat {
        match self {
            Rythm::Samba => 0,
            Rythm::BossaNova => 1,
            Rythm::Baiao => 2,
            Rythm::PartidoAlto => 3,
            Rythm::Bebop => 4,
            Rythm::Blues => 5,
            Rythm::Waltz => 6,
            Rythm::Ballad => 7,
        }
    }

    /// The variant's name, as records and summaries spell it.
    pub open spec fn name_spec(self) -> Seq<char> {
        match self {
            Rythm::Samba => "Samba"@,
            Rythm::BossaNova => "BossaNova"@,
            Rythm::Baiao => "Baiao"@,
            Rythm::PartidoAlto => "PartidoAlto"@,
            Rythm::Bebop => "Bebop"@,
            Rythm::Blues => "Blues"@,
            Rythm::Waltz => "Waltz"@,
            Rythm::Ballad => "Ballad"@,
        }
    }

    /// The variant whose name is `s`, if any.
    pub open spec fn from_name_spec(s: Seq<char>) -> Option<Rythm> {
        if s == "Samba"@ {
            Some(Rythm::Samba)
        } else if s == "BossaNova"@ {
            Some(Rythm::BossaNova)
        } else if s == "Baiao"@ {
            Some(Rythm::Baiao)
        } else if s == "PartidoAlto"@ {
            Some(Rythm::PartidoAlto)
        } else if s == "Bebop"@ {
            Some(Rythm::Bebop)
        } else if s == "Blues"@ {
            Some(Rythm::Blues)
        } else if s == "Waltz"@ {
            Some(Rythm::Waltz)
        } else if s == "Ballad"@ {
            Some(Rythm::Ballad)
        } else {
            None
        }
    }

    /// The variant at position `i` in declaration order.
    pub fn from_index(i: u64) -> (r: Rythm)
        requires
            i < 8,
        ensures
            r.index() == i,
    {
        if i == 0 {
            Rythm::Samba
        } else if i == 1 {
            Rythm::BossaNova
        } else if i == 2 {
            Rythm::Baiao
        } else if i == 3 {
            Rythm::PartidoAlto
        } else if i == 4 {
            Rythm::Bebop
        } else if i == 5 {
            Rythm::Blues
        } else if i == 6 {
            Rythm::Waltz
        } else {
            Rythm::Ballad
        }
    }

    /// The variant's name.
    pub fn name(&self) -> (r: &'static str)
        ensures
            r@ == self.name_spec(),
    {
        match self {
            Rythm::Samba => "Samba",
            Rythm::BossaNova => "BossaNova",
            Rythm::Baiao => "Baiao",
            Rythm::PartidoAlto => "PartidoAlto",
            Rythm::Bebop => "Bebop",
            Rythm::Blues => "Blues",
            Rythm::Waltz => "Waltz",
            Rythm::Ballad => "Ballad",
        }
    }

    /// The variant named `s`, if any.
    pub fn from_name(s: &str) -> (r: Option<Rythm>)
        ensures
            r == Rythm::from_name_spec(s@),
    {
        if same_text(s, "Samba") {
            Some(Rythm::Samba)
        } else if same_text(s, "BossaNova") {
            Some(Rythm::BossaNova)
        } else if same_text(s, "Baiao") {
            Some(Rythm::Baiao)
        } else if same_text(s, "PartidoAlto") {
            Some(Rythm::PartidoAlto)
        } else if same_text(s, "Bebop") {
            Some(Rythm::Bebop)
        } else if same_text(s, "Blues") {
            Some(Rythm::Blues)
        } else if same_text(s, "Waltz") {
            Some(Rythm::Waltz)
        } else if same_text(s, "Ballad") {
            Some(Rythm::Ballad)
        } else {
            None
        }
    }

    /// Reading a variant's name gives the variant back.
    pub proof fn lemma_name_round_trip(self)
        ensures
            Rythm::from_name_spec(self.name_spec()) == Some(self),
    {
        reveal_strlit("Samba");
        assert("Samba"@ =~= seq!['S','a','m','b','a']);
        reveal_strlit("BossaNova");
        assert("BossaNova"@ =~= seq!['B','o','s','s','a','N','o','v','a']);
        reveal_strlit("Baiao");
        assert("Baiao"@ =~= seq!['B','a','i','a','o']);
        reveal_strlit("PartidoAlto");
        assert("PartidoAlto"@ =~= seq!['P','a','r','t','i','d','o','A','l','t','o']);
        reveal_strlit("Bebop");
        assert("Bebop"@ =~= seq!['B','e','b','o','p']);
        reveal_strlit("Blues");
        assert("Blues"@ =~= seq!['B','l','u','e','s']);
        reveal_strlit("Waltz");
        assert("Waltz"@ =~= seq!['W','a','l','t','z']);
        reveal_strlit("Ballad");
        assert("Ballad"@ =~= seq!['B','a','l','l','a','d']);
        match self {
            Rythm::Samba => {},
            Rythm::BossaNova => {},
            Rythm::Baiao => {
                lemma_differ_at("Baiao"@, "Samba"@, 0);
            },
            Rythm::PartidoAlto => {},
            Rythm::Bebop => {
                lemma_differ_at("Bebop"@, "Samba"@, 0);
                lemma_differ_at("Bebop"@, "Baiao"@, 1);
            },
            Rythm::Blues => {
                lemma_differ_at("Blues"@, "Samba"@, 0);
                lemma_differ_at("Blues"@, "Baiao"@, 1);
                lemma_differ_at("Blues"@, "Bebop"@, 1);
            },
            Rythm::Waltz => {
                lemma_differ_at("Waltz"@, "Samba"@, 0);
                lemma_differ_at("Waltz"@, "Baiao"@, 0);
                lemma_differ_at("Waltz"@, "Bebop"@, 0);
                lemma_differ_at("Waltz"@, "Blues"@, 0);
            },
            Rythm::Ballad => {},
        }
    }
}

/// The kind of a practice exercise.
#[derive(Clone, Copy, Debug, PartialEq, Eq, Structural)]
pub enum PracticeType {
    Song,
    Scale,
    Improv,
}

impl PracticeType {
    /// Position of the variant in declaration order.
    pub open spec fn index(self) -> nat {
        match self {
            PracticeType::Song => 0,
            PracticeType::Scale => 1,
            PracticeType::Improv => 2,
        }
    }

    /// The variant's name, as records and summaries spell it.
    pub open spec fn name_spec(self) -> Seq<char> {
        match self {
            PracticeType::Song => "Song"@,
            PracticeType::Scale => "Scale"@,
            PracticeType::Improv => "Improv"@,
        }
    }

    /// The variant whose name is `s`, if any.
    pub open spec fn from_name_spec(s: Seq<char>) -> Option<PracticeType> {
        if s == "Song"@ {
            Some(PracticeType::Song)
        } else if s == "Scale"@ {
            Some(PracticeType::Scale)
        } else if s == "Improv"@ {
            Some(PracticeType::Improv)
        } else {
            None
        }
    }

    /// The variant at position `i` in declaration order.
    pub fn from_index(i: u64) -> (r: PracticeType)
        requires
            i < 3,
        ensures
            r.index() == i,
    {
        if i == 0 {
            PracticeType::Song
        } else if i == 1 {
            PracticeType::Scale
        } else {
            PracticeType::Improv
        }
    }

    /// The variant's name.
    pub fn name(&self) -> (r: &'static str)
        ensures
            r@ == self.name_spec(),
    {
        match self {
            PracticeType::Song => "Song",
            PracticeType::Scale => "Scale",
            PracticeType::Improv => "Improv",
        }
    }

    /// The variant named `s`, if any.
    pub fn from_name(s: &str) -> (r: Option<PracticeType>)
        ensures
            r == PracticeType::from_name_spec(s@),
    {
        if same_text(s, "Song") {
            Some(PracticeType::Song)
        } else if same_text(s, "Scale") {
            Some(PracticeType::Scale)
        } else if same_text(s, "Improv") {
            Some(PracticeType::Improv)
        } else {
            None
        }
    }

    /// Reading a variant's name gives the variant back.
    pub proof fn lemma_name_round_trip(self)
        ensures
            PracticeType::from_name_spec(self.name_spec()) == Some(self),
    {
        reveal_strlit("Song");
        assert("Song"@ =~= seq!['S','o','n','g']);
        reveal_strlit("Scale");
        assert("Scale"@ =~= seq!['S','c','a','l','e']);
        reveal_strlit("Improv");
        assert("Improv"@ =~= seq!['I','m','p','r','o','v']);
        match self {
            PracticeType::Song => {},
            PracticeType::Scale => {},
            PracticeType::Improv => {},
        }
    }
}

/// A rung of the spaced-repetition ladder.
#[derive(Clone, Copy, Debug, PartialEq, Eq, Structural)]
pub enum SpacedRepetition {
    New,
    One,
    Seven,
    Sixteen,
    ThirtyFive,
    Done,
}

impl SpacedRepetition {
    /// Position of the variant in declaration order.
    pub open spec fn index(self) -> nat {
        match self {
            SpacedRepetition::New => 0,
            SpacedRepetition::One => 1,
            SpacedRepetition::Seven => 2,
            SpacedRepetition::Sixteen => 3,
            SpacedRepetition::ThirtyFive => 4,
            SpacedRepetition::Done => 5,
        }
    }

    /// The variant's name, as records and summaries spell it.
    pub open spec fn name_spec(self) -> Seq<char> {
        match self {
            SpacedRepetition::New => "New"@,
            SpacedRepetition::One => "One"@,
            SpacedRepetition::Seven => "Seven"@,
            SpacedRepetition::Sixteen => "Sixteen"@,
            SpacedRepetition::ThirtyFive => "ThirtyFive"@,
            SpacedRepetition::Done => "Done"@,
        }
    }

    /// The variant whose name is `s`, if any. `ThrityFive`, a spelling that
    /// existing stores hold, is read as `ThirtyFive` too.
    pub open spec fn from_name_spec(s: Seq<char>) -> Option<SpacedRepetition> {
        if s == "New"@ {
            Some(SpacedRepetition::New)
        } else if s == "One"@ {
            Some(SpacedRepetition::One)
        } else if s == "Seven"@ {
            Some(SpacedRepetition::Seven)
        } else if s == "Sixteen"@ {
            Some(SpacedRepetition::Sixteen)
        } else if s == "ThirtyFive"@ {
            Some(SpacedRepetition::ThirtyFive)
        } else if s == "Done"@ {
            Some(SpacedRepetition::Done)
        } else if s == "ThrityFive"@ {
            Some(SpacedRepetition::ThirtyFive)
        } else {
            None
        }
    }

    /// The variant at position `i` in declaration order.
    pub fn from_index(i: u64) -> (r: SpacedRepetition)
        requires
            i < 6,
        ensures
            r.index() == i,
    {
        if i == 0 {
            SpacedRepetition::New
        } else if i == 1 {
            SpacedRepetition::One
        } else if i == 2 {
            SpacedRepetition::Seven
        } else if i == 3 {
            SpacedRepetition::Sixteen
        } else if i == 4 {
            SpacedRepetition::ThirtyFive
        } else {
            SpacedRepetition::Done
        }
    }

    /// The variant's name.
    pub fn name(&self) -> (r: &'static str)
        ensures
            r@ == self.name_spec(),
    {
        match self {
            SpacedRepetition::New => "New",
            SpacedRepetition::One => "One",
            SpacedRepetition::Seven => "Seven",
            SpacedRepetition::Sixteen => "Sixteen",
            SpacedRepetition::ThirtyFive => "ThirtyFive",
            SpacedRepetition::Done => "Done",
        }
    }

    /// The variant named `s`, if any.
    pub fn from_name(s: &str) -> (r: Option<SpacedRepetition>)
        ensures
            r == SpacedRepetition::from_name_spec(s@),
    {
        if same_text(s, "New") {
            Some(SpacedRepetition::New)
        } else if same_text(s, "One") {
            Some(SpacedRepetition::One)
        } else if same_text(s, "Seven") {
            Some(SpacedRepetition::Seven)
        } else if same_text(s, "Sixteen") {
            Some(SpacedRepetition::Sixteen)
        } else if same_text(s, "ThirtyFive") {
            Some(SpacedRepetition::ThirtyFive)
        } else if same_text(s, "Done") {
            Some(SpacedRepetition::Done)
        } else if same_text(s, "ThrityFive") {
            Some(SpacedRepetition::ThirtyFive)
        } else {
            None
        }
    }

    /// Reading a variant's name gives the variant back.
    pub proof fn lemma_name_round_trip(self)
        ensures
            SpacedRepetition::from_name_spec(self.name_spec()) == Some(self),
    {
        reveal_strlit("New");
        assert("New"@ =~= seq!['N','e','w']);
        reveal_strlit("One");
        assert("One"@ =~= seq!['O','n','e']);
        reveal_strlit("Seven");
        assert("Seven"@ =~= seq!['S','e','v','e','n']);
        reveal_strlit("Sixteen");
        assert("Sixteen"@ =~= seq!['S','i','x','t','e','e','n']);
        reveal_strlit("ThirtyFive");
        assert("ThirtyFive"@ =~= seq!['T','h','i','r','t','y','F','i','v','e']);
        reveal_strlit("Done");
        assert("Done"@ =~= seq!['D','o','n','e']);
        match self {
            SpacedRepetition::New => {},
            SpacedRepetition::One => {
                lemma_differ_at("One"@, "New"@, 0);
            },
            SpacedRepetition::Seven => {},
            SpacedRepetition::Sixteen => {},
            SpacedRepetition::ThirtyFive => {},
            SpacedRepetition::Done => {},
        }
    }
}
impl SpacedRepetition {
    /// The next rung of the ladder; `Done` stays `Done`.
    pub open spec fn successor(self) -> SpacedRepetition {
        match self {
            SpacedRepetition::New => SpacedRepetition::One,
            SpacedRepetition::One => SpacedRepetition::Seven,
            SpacedRepetition::Seven => SpacedRepetition::Sixteen,
            SpacedRepetition::Sixteen => SpacedRepetition::ThirtyFive,
            SpacedRepetition::ThirtyFive => SpacedRepetition::Done,
            SpacedRepetition::Done => SpacedRepetition::Done,
        }
    }

    /// Whether an item at this rung is due after `elapsed` whole days.
    pub open spec fn due_after(self, elapsed: int) -> bool {
        match self {
            SpacedRepetition::New => true,
            SpacedRepetition::One => elapsed >= 1,
            SpacedRepetition::Seven => elapsed >= 7,
            SpacedRepetition::Sixteen => elapsed >= 16,
            SpacedRepetition::ThirtyFive => elapsed >= 35,
            SpacedRepetition::Done => false,
        }
    }

    /// The progress marker that a summary starts with.
    pub open spec fn marker_spec(self) -> Seq<char> {
        match self {
            SpacedRepetition::New => "[NEW]"@,
            SpacedRepetition::One => "*"@,
            SpacedRepetition::Seven => "**"@,
            SpacedRepetition::Sixteen => "***"@,
            SpacedRepetition::ThirtyFive => "****"@,
            SpacedRepetition::Done => "[DONE]"@,
        }
    }

    /// The next rung of the ladder.
    pub fn next(self) -> (r: SpacedRepetition)
        ensures
            r == self.successor(),
    {
        match self {
            SpacedRepetition::New => SpacedRepetition::One,
            SpacedRepetition::One => SpacedRepetition::Seven,
            SpacedRepetition::Seven => SpacedRepetition::Sixteen,
            SpacedRepetition::Sixteen => SpacedRepetition::ThirtyFive,
            SpacedRepetition::ThirtyFive => SpacedRepetition::Done,
            SpacedRepetition::Done => SpacedRepetition::Done,
        }
    }

    /// The progress marker that a summary starts with.
    pub fn marker(&self) -> (r: &'static str)
        ensures
            r@ == self.marker_spec(),
    {
        match self {
            SpacedRepetition::New => "[NEW]",
            SpacedRepetition::One => "*",
            SpacedRepetition::Seven => "**",
            SpacedRepetition::Sixteen => "***",
            SpacedRepetition::ThirtyFive => "****",
            SpacedRepetition::Done => "[DONE]",
        }
    }
}

/// One practice item: what to practise, and where it stands on the ladder.
#[derive(Clone, Copy, Debug, PartialEq, Eq, Structural)]
pub struct Practice {
    pub practice_type: PracticeType,
    pub scale: Scale,
    pub key: Key,
    pub rythm: Rythm,
    pub created: Timestamp,
    pub repetition_lvl: SpacedRepetition,
    pub last_practiced: Timestamp,
}

/// Relies on rand::thread_rng and Rng::gen_range: a number drawn from
/// `0..n`, which is not empty.
#[verifier::external_body]
fn random_below(n: u64) -> (r: u64)
    requires
        n > 0,
    ensures
        r < n,
{
    rand::Rng::gen_range(&mut rand::thread_rng(), 0..n)
}

impl Practice {
    /// Whether the item is due at `now`.
    pub open spec fn is_due_spec(self, now: Timestamp) -> bool {
        self.repetition_lvl.due_after(elapsed_days(now, self.last_practiced))
    }

    /// The one-line summary: the level's marker, then the four attributes.
    pub open spec fn summary_spec(self) -> Seq<char> {
        self.repetition_lvl.marker_spec() + " "@ + self.practice_type.name_spec() + " - "@
            + self.scale.name_spec() + " - "@ + self.key.name_spec() + " - "@
            + self.rythm.name_spec()
    }

    /// A new item with the given attributes, created and last practised at
    /// `now`, at the bottom of the ladder.
    pub fn create(
        practice_type: PracticeType,
        scale: Scale,
        key: Key,
        rythm: Rythm,
        now: Timestamp,
    ) -> (r: Practice)
        ensures
            r == (Practice {
                practice_type,
                scale,
                key,
                rythm,
                created: now,
                repetition_lvl: SpacedRepetition::New,
                last_practiced: now,
            }),
    {
        Practice {
            practice_type,
            scale,
            key,
            rythm,
            created: now,
            repetition_lvl: SpacedRepetition::New,
            last_practiced: now,
        }
    }

    /// A new item whose four attributes are drawn uniformly at random, created
    /// and last practised now, at the bottom of the ladder.
    pub fn new() -> (r: Practice)
        ensures
            r.repetition_lvl == SpacedRepetition::New,
            r.created == r.last_practiced,
    {
        let practice_type = PracticeType::from_index(random_below(3));
        let scale = Scale::from_index(random_below(16));
        let rythm = Rythm::from_index(random_below(8));
        let key = Key::from_index(random_below(12));
        Practice::create(practice_type, scale, key, rythm, now())
    }

    /// The item once practised at `now`.
    pub open spec fn practised_at(self, now: Timestamp) -> Practice {
        Practice { repetition_lvl: self.repetition_lvl.successor(), last_practiced: now, ..self }
    }

    /// Records a practice at `now`: one rung up the ladder, and `now` as the
    /// last practice.
    pub fn record_practice(&mut self, now: Timestamp)
        ensures
            *final(self) == old(self).practised_at(now),
    {
        self.last_practiced = now;
        self.repetition_lvl = self.repetition_lvl.next();
    }

    /// Records a practice now: one rung up the ladder, and the clock's time as
    /// the last practice.
    pub fn update_practice(&mut self)
        ensures
            final(self).repetition_lvl == old(self).repetition_lvl.successor(),
            final(self).practice_type == old(self).practice_type,
            final(self).scale == old(self).scale,
            final(self).key == old(self).key,
            final(self).rythm == old(self).rythm,
            final(self).created == old(self).created,
    {
        self.record_practice(now());
    }

    /// Whether the item is due at `now`.
    pub fn is_due(&self, now: Timestamp) -> (r: bool)
        ensures
            r == self.is_due_spec(now),
    {
        match self.repetition_lvl {
            SpacedRepetition::New => true,
            SpacedRepetition::One => at_least_days_between(now, self.last_practiced, 1),
            SpacedRepetition::Seven => at_least_days_between(now, self.last_practiced, 7),
            SpacedRepetition::Sixteen => at_least_days_between(now, self.last_practiced, 16),
            SpacedRepetition::ThirtyFive => at_least_days_between(now, self.last_practiced, 35),
            SpacedRepetition::Done => false,
        }
    }

    /// Whether the item is due at the clock's time.
    pub fn needs_training(&self) -> (r: bool)
        ensures
            self.repetition_lvl == SpacedRepetition::New ==> r,
            self.repetition_lvl == SpacedRepetition::Done ==> !r,
    {
        self.is_due(now())
    }

    /// The one-line summary, such as `** Scale - Major - Ab - Samba`.
    pub fn summary(&self) -> (r: String)
        ensures
            r@ == self.summary_spec(),
    {
        let mut s = self.repetition_lvl.marker().to_owned();
        s.append(" ");
        s.append(self.practice_type.name());
        s.append(" - ");
        s.append(self.scale.name());
        s.append(" - ");
        s.append(self.key.name());
        s.append(" - ");
        s.append(self.rythm.name());
        s
    }

    /// A fresh dataset of `dataset_num` new random items.
    pub fn init_dataset(dataset_num: i32) -> (r: Vec<Practice>)
        requires
            dataset_num >= 0,
        ensures
            r@.len() == dataset_num,
            forall|i: int|
                0 <= i < r@.len() ==> r@[i].repetition_lvl == SpacedRepetition::New && r@[i].created
                    == r@[i].last_practiced,
    {
        fresh_items(dataset_num as usize)
    }
}

/// `n` new random items.
pub fn fresh_items(n: usize) -> (r: Vec<Practice>)
    ensures
        r@.len() == n,
        forall|i: int|
            0 <= i < r@.len() ==> r@[i].repetition_lvl == SpacedRepetition::New && r@[i].created
                == r@[i].last_practiced,
{
    let mut r: Vec<Practice> = Vec::new();
    let mut i: usize = 0;
    while i < n
        invariant
            i <= n,
            r@.len() == i,
            forall|j: int|
                0 <= j < r@.len() ==> r@[j].repetition_lvl == SpacedRepetition::New && r@[j].created
                    == r@[j].last_practiced,
        decreases n - i,
    {
        r.push(Practice::new());
        i = i + 1;
    }
    r
}

/// A finished item is never due.
pub proof fn lemma_done_never_due(p: Practice, now: Timestamp)
    requires
        p.repetition_lvl == SpacedRepetition::Done,
    ensures
        !p.is_due_spec(now),
{
}

/// A new item is always due.
pub proof fn lemma_new_always_due(p: Practice, now: Timestamp)
    requires
        p.repetition_lvl == SpacedRepetition::New,
    ensures
        p.is_due_spec(now),
{
}

/// An item that has just been practised is due again only if it is new,
/// which it no longer is.
pub proof fn lemma_not_due_right_after_practice(p: Practice, now: Timestamp)
    ensures
        !p.practised_at(now).is_due_spec(now),
{
}

/// Practising never moves an item down the ladder, and, at a time no
/// earlier than its last practice, keeps the last practice no earlier than
/// its creation.
pub proof fn lemma_practice_moves_forward(p: Practice, now: Timestamp)
    requires
        now.total_nanos() >= p.last_practiced.total_nanos(),
    ensures
        p.practised_at(now).repetition_lvl.index() >= p.repetition_lvl.index(),
        p.practised_at(now).last_practiced.total_nanos() >= p.last_practiced.total_nanos(),
        p.created.total_nanos() <= p.last_practiced.total_nanos() ==> p.practised_at(now).created.total_nanos()
            <= p.practised_at(now).last_practiced.total_nanos(),
{
}

} // verus!
