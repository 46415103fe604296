//! The enumerated protocol types and their discriminant tables.
//!
//! Each type is a closed set of named variants bound to explicit integer
//! discriminants. The discriminant spaces are not dense: conversion from an
//! integer fails cleanly for any value with no matching variant.

use vstd::prelude::*;
use crate::enum_codec::WireEnum;

verus! {

/// The world dimension, wire-coded as a signed 8-bit discriminant:
/// Nether = -1, Overworld = 0, End = 1.
#[derive(Clone, Copy, Debug, PartialEq, Eq, Structural)]
pub enum Dimension {
    Nether,
    Overworld,
    End,
}

/// The dimension a signed discriminant names, if any.
pub open spec fn dimension_from_int(n: int) -> Option<Dimension> {
    if n == -1 {
        Some(Dimension::Nether)
    } else if n == 0 {
        Some(Dimension::Overworld)
    } else if n == 1 {
        Some(Dimension::End)
    } else {
        None
    }
}

impl Dimension {
    /// The signed 8-bit discriminant of this dimension.
    pub open spec fn discriminant_spec(self) -> i8 {
        match self {
            Dimension::Nether => -1i8,
            Dimension::Overworld => 0,
            Dimension::End => 1,
        }
    }

    /// Computes the signed 8-bit discriminant.
    pub fn discriminant(self) -> (d: i8)
        ensures
            d == self.discriminant_spec(),
    {
        match self {
            Dimension::Nether => -1,
            Dimension::Overworld => 0,
            Dimension::End => 1,
        }
    }

    /// The dimension a signed integer names: -1, 0 and 1 and no other.
    pub fn from_i64(n: i64) -> (r: Option<Dimension>)
        ensures
            r == dimension_from_int(n as int),
    {
        if n == -1 {
            Some(Dimension::Nether)
        } else if n == 0 {
            Some(Dimension::Overworld)
        } else if n == 1 {
            Some(Dimension::End)
        } else {
            None
        }
    }

    /// The dimension an unsigned integer names: 0 and 1 and no other
    /// (the Nether's discriminant is negative, out of unsigned range).
    pub fn from_u64(n: u64) -> (r: Option<Dimension>)
        ensures
            r == dimension_from_int(n as int),
    {
        if n == 0 {
            Some(Dimension::Overworld)
        } else if n == 1 {
            Some(Dimension::End)
        } else {
            None
        }
    }
}

impl WireEnum for Dimension {
    /// The discriminant byte: the two's-complement byte of the signed
    /// discriminant, so the Nether is 0xFF.
    open spec fn wire_byte(self) -> u8 {
        match self {
            Dimension::Nether => 0xff,
            Dimension::Overworld => 0x00,
            Dimension::End => 0x01,
        }
    }

    open spec fn from_wire_byte(b: u8) -> Option<Dimension> {
        if b == 0xff {
            Some(Dimension::Nether)
        } else if b == 0x00 {
            Some(Dimension::Overworld)
        } else if b == 0x01 {
            Some(Dimension::End)
        } else {
            None
        }
    }

    proof fn lemma_round_trip(self) {
    }

    proof fn lemma_from_inverse(b: u8) {
    }

    fn to_wire_byte(self) -> u8 {
        match self {
            Dimension::Nether => 0xff,
            Dimension::Overworld => 0x00,
            Dimension::End => 0x01,
        }
    }

    fn of_wire_byte(b: u8) -> Option<Dimension> {
        if b == 0xff {
            Some(Dimension::Nether)
        } else if b == 0x00 {
            Some(Dimension::Overworld)
        } else if b == 0x01 {
            Some(Dimension::End)
        } else {
            None
        }
    }
}

/// Rejection bound for dimensions: a discriminant byte is accepted exactly
/// when its signed reading is -1, 0 or 1; every other byte is rejected.
pub proof fn lemma_dimension_accepts(b: u8)
    ensures
        Dimension::from_wire_byte(b) is Some <==> (b == 0xff || b == 0x00 || b == 0x01),
{
}

/// The world difficulty, wire-coded as an unsigned 8-bit discriminant:
/// Peaceful = 0, Easy = 1, Medium = 2, Hard = 3.
#[derive(Clone, Copy, Debug, PartialEq, Eq, Structural)]
pub enum Difficulty {
    Peaceful,
    Easy,
    Medium,
    Hard,
}

/// The difficulty an integer names, if any.
pub open spec fn difficulty_from_int(n: int) -> Option<Difficulty> {
    if n == 0 {
        Some(Difficulty::Peaceful)
    } else if n == 1 {
        Some(Difficulty::Easy)
    } else if n == 2 {
        Some(Difficulty::Medium)
    } else if n == 3 {
        Some(Difficulty::Hard)
    } else {
        None
    }
}

impl Difficulty {
    /// The unsigned 8-bit discriminant of this difficulty.
    pub open spec fn discriminant_spec(self) -> u8 {
        match self {
            Difficulty::Peaceful => 0,
            Difficulty::Easy => 1,
            Difficulty::Medium => 2,
            Difficulty::Hard => 3,
        }
    }

    /// Computes the unsigned 8-bit discriminant.
    pub fn discriminant(self) -> (d: u8)
        ensures
            d == self.discriminant_spec(),
    {
        match self {
            Difficulty::Peaceful => 0,
            Difficulty::Easy => 1,
            Difficulty::Medium => 2,
            Difficulty::Hard => 3,
        }
    }

    /// The difficulty an unsigned integer names: 0 through 3 and no other.
    pub fn from_u64(n: u64) -> (r: Option<Difficulty>)
        ensures
            r == difficulty_from_int(n as int),
    {
        if n == 0 {
            Some(Difficulty::Peaceful)
        } else if n == 1 {
            Some(Difficulty::Easy)
        } else if n == 2 {
            Some(Difficulty::Medium)
        } else if n == 3 {
            Some(Difficulty::Hard)
        } else {
            None
        }
    }

    /// The difficulty a signed integer names: 0 through 3 and no other.
    pub fn from_i64(n: i64) -> (r: Option<Difficulty>)
        ensures
            r == difficulty_from_int(n as int),
    {
        if 0 <= n && n <= 3 {
            Self::from_u64(n as u64)
        } else {
            None
        }
    }
}

impl WireEnum for Difficulty {
    open spec fn wire_byte(self) -> u8 {
        self.discriminant_spec()
    }

    open spec fn from_wire_byte(b: u8) -> Option<Difficulty> {
        difficulty_from_int(b as int)
    }

    proof fn lemma_round_trip(self) {
    }

    proof fn lemma_from_inverse(b: u8) {
    }

    fn to_wire_byte(self) -> u8 {
        self.discriminant()
    }

    fn of_wire_byte(b: u8) -> Option<Difficulty> {
        if b <= 3 {
            Self::from_u64(b as u64)
        } else {
            None
        }
    }
}

/// Rejection bound for difficulties: a discriminant byte is accepted
/// exactly when it is at most 3.
pub proof fn lemma_difficulty_accepts(b: u8)
    ensures
        Difficulty::from_wire_byte(b) is Some <==> b <= 3,
{
}

/// The player gamemode, wire-coded as an unsigned 8-bit discriminant:
/// Survival = 0, Creative = 1, Adventure = 2, Spectator = 3.
#[derive(Clone, Copy, Debug, PartialEq, Eq, Structural)]
pub enum Gamemode {
    Survival,
    Creative,
    Adventure,
    Spectator,
}

/// The gamemode an integer names, if any.
pub open spec fn gamemode_from_int(n: int) -> Option<Gamemode> {
    if n == 0 {
        Some(Gamemode::Survival)
    } else if n == 1 {
        Some(Gamemode::Creative)
    } else if n == 2 {
        Some(Gamemode::Adventure)
    } else if n == 3 {
        Some(Gamemode::Spectator)
    } else {
        None
    }
}

/// The capability flag set of a gamemode, for the player-abilities packet.
/// From the high bit down, the four flags are creative-inventory, can-fly,
/// is-flying and invulnerable.
pub open spec fn abilities_spec(g: Gamemode) -> i8 {
    match g {
        Gamemode::Survival => 0x0,
        Gamemode::Creative => 0xd,
        Gamemode::Adventure => 0x1,
        Gamemode::Spectator => 0x5,
    }
}

impl Gamemode {
    /// The unsigned 8-bit discriminant of this gamemode.
    pub open spec fn discriminant_spec(self) -> u8 {
        match self {
            Gamemode::Survival => 0,
            Gamemode::Creative => 1,
            Gamemode::Adventure => 2,
            Gamemode::Spectator => 3,
        }
    }

    /// Computes the unsigned 8-bit discriminant.
    pub fn discriminant(self) -> (d: u8)
        ensures
            d == self.discriminant_spec(),
    {
        match self {
            Gamemode::Survival => 0,
            Gamemode::Creative => 1,
            Gamemode::Adventure => 2,
            Gamemode::Spectator => 3,
        }
    }

    /// The 4-bit capability flag set of a gamemode, used by the
    /// player-abilities packet of the layer above, not by the wire codec.
    pub fn abilities(me: Self) -> (r: i8)
        ensures
            r == abilities_spec(me),
    {
        match me {
            Gamemode::Survival => 0x0,
            Gamemode::Creative => 0xd,
            Gamemode::Adventure => 0x1,
            Gamemode::Spectator => 0x5,
        }
    }

    /// The gamemode an unsigned integer names: 0 through 3 and no other.
    pub fn from_u64(n: u64) -> (r: Option<Gamemode>)
        ensures
            r == gamemode_from_int(n as int),
    {
        if n == 0 {
            Some(Gamemode::Survival)
        } else if n == 1 {
            Some(Gamemode::Creative)
        } else if n == 2 {
            Some(Gamemode::Adventure)
        } else if n == 3 {
            Some(Gamemode::Spectator)
        } else {
            None
        }
    }

    /// The gamemode a signed integer names: 0 through 3 and no other.
    pub fn from_i64(n: i64) -> (r: Option<Gamemode>)
        ensures
            r == gamemode_from_int(n as int),
    {
        if 0 <= n && n <= 3 {
            Self::from_u64(n as u64)
        } else {
            None
        }
    }
}

impl WireEnum for Gamemode {
    open spec fn wire_byte(self) -> u8 {
        self.discriminant_spec()
    }

    open spec fn from_wire_byte(b: u8) -> Option<Gamemode> {
        gamemode_from_int(b as int)
    }

    proof fn lemma_round_trip(self) {
    }

    proof fn lemma_from_inverse(b: u8) {
    }

    fn to_wire_byte(self) -> u8 {
        self.discriminant()
    }

    fn of_wire_byte(b: u8) -> Option<Gamemode> {
        if b <= 3 {
            Self::from_u64(b as u64)
        } else {
            None
        }
    }
}

/// Rejection bound for gamemodes: a discriminant byte is accepted exactly
/// when it is at most 3.
pub proof fn lemma_gamemode_accepts(b: u8)
    ensures
        Gamemode::from_wire_byte(b) is Some <==> b <= 3,
{
}

/// A chat color. Its discriminants 0x0 through 0xF order the variants, but
/// on the wire a color travels as its canonical lowercase/underscore text
/// identifier, in strict bijection with the variant: an unrecognized
/// identifier is a parse failure, never a default color.
#[derive(Clone, Copy, Debug, PartialEq, Eq, Structural)]
pub enum Color {
    Black,
    DarkBlue,
    DarkGreen,
    DarkCyan,
    DarkRed,
    Purple,
    Gold,
    Gray,
    DarkGray,
    Blue,
    BrightGreen,
    Cyan,
    Red,
    Pink,
    Yellow,
    White,
}

/// The canonical text identifier of a color.
pub open spec fn color_text(c: Color) -> Seq<char> {
    match c {
        Color::Black => "black"@,
        Color::DarkBlue => "dark_blue"@,
        Color::DarkGreen => "dark_green"@,
        Color::DarkCyan => "dark_aqua"@,
        Color::DarkRed => "dark_red"@,
        Color::Purple => "dark_purple"@,
        Color::Gold => "gold"@,
        Color::Gray => "gray"@,
        Color::DarkGray => "dark_gray"@,
        Color::Blue => "blue"@,
        Color::BrightGreen => "green"@,
        Color::Cyan => "aqua"@,
        Color::Red => "red"@,
        Color::Pink => "light_purple"@,
        Color::Yellow => "yellow"@,
        Color::White => "white"@,
    }
}

/// The color a text identifier names, if any.
pub open spec fn color_from_text(s: Seq<char>) -> Option<Color> {
    if s == color_text(Color::Black) {
        Some(Color::Black)
    } else if s == color_text(Color::DarkBlue) {
        Some(Color::DarkBlue)
    } else if s == color_text(Color::DarkGreen) {
        Some(Color::DarkGreen)
    } else if s == color_text(Color::DarkCyan) {
        Some(Color::DarkCyan)
    } else if s == color_text(Color::DarkRed) {
        Some(Color::DarkRed)
    } else if s == color_text(Color::Purple) {
        Some(Color::Purple)
    } else if s == color_text(Color::Gold) {
        Some(Color::Gold)
    } else if s == color_text(Color::Gray) {
        Some(Color::Gray)
    } else if s == color_text(Color::DarkGray) {
        Some(Color::DarkGray)
    } else if s == color_text(Color::Blue) {
        Some(Color::Blue)
    } else if s == color_text(Color::BrightGreen) {
        Some(Color::BrightGreen)
    } else if s == color_text(Color::Cyan) {
        Some(Color::Cyan)
    } else if s == color_text(Color::Red) {
        Some(Color::Red)
    } else if s == color_text(Color::Pink) {
        Some(Color::Pink)
    } else if s == color_text(Color::Yellow) {
        Some(Color::Yellow)
    } else if s == color_text(Color::White) {
        Some(Color::White)
    } else {
        None
    }
}

/// Relies on str's `PartialEq`: two string slices are equal exactly when
/// they hold the same bytes, that is the same character sequences.
#[verifier::external_body]
fn str_eq(a: &str, b: &str) -> (r: bool)
    ensures
        r == (a@ == b@),
{
    a == b
}

impl Color {
    /// The 4-bit discriminant that orders the color table, 0x0 through
    /// 0xF. It names the color in legacy formatting codes; the structured
    /// text path uses the text identifier instead.
    pub open spec fn discriminant_spec(self) -> u8 {
        match self {
            Color::Black => 0x0,
            Color::DarkBlue => 0x1,
            Color::DarkGreen => 0x2,
            Color::DarkCyan => 0x3,
            Color::DarkRed => 0x4,
            Color::Purple => 0x5,
            Color::Gold => 0x6,
            Color::Gray => 0x7,
            Color::DarkGray => 0x8,
            Color::Blue => 0x9,
            Color::BrightGreen => 0xa,
            Color::Cyan => 0xb,
            Color::Red => 0xc,
            Color::Pink => 0xd,
            Color::Yellow => 0xe,
            Color::White => 0xf,
        }
    }

    /// Computes the 4-bit table discriminant.
    pub fn discriminant(self) -> (d: u8)
        ensures
            d == self.discriminant_spec(),
    {
        match self {
            Color::Black => 0x0,
            Color::DarkBlue => 0x1,
            Color::DarkGreen => 0x2,
            Color::DarkCyan => 0x3,
            Color::DarkRed => 0x4,
            Color::Purple => 0x5,
            Color::Gold => 0x6,
            Color::Gray => 0x7,
            Color::DarkGray => 0x8,
            Color::Blue => 0x9,
            Color::BrightGreen => 0xa,
            Color::Cyan => 0xb,
            Color::Red => 0xc,
            Color::Pink => 0xd,
            Color::Yellow => 0xe,
            Color::White => 0xf,
        }
    }

    /// The canonical text identifier of this color.
    pub fn to_text(self) -> (r: &'static str)
        ensures
            r@ == color_text(self),
    {
        match self {
            Color::Black => "black",
            Color::DarkBlue => "dark_blue",
            Color::DarkGreen => "dark_green",
            Color::DarkCyan => "dark_aqua",
            Color::DarkRed => "dark_red",
            Color::Purple => "dark_purple",
            Color::Gold => "gold",
            Color::Gray => "gray",
            Color::DarkGray => "dark_gray",
            Color::Blue => "blue",
            Color::BrightGreen => "green",
            Color::Cyan => "aqua",
            Color::Red => "red",
            Color::Pink => "light_purple",
            Color::Yellow => "yellow",
            Color::White => "white",
        }
    }

    /// The color a text identifier names; fails on any identifier outside
    /// the sixteen-entry table.
    pub fn from_text(s: &str) -> (r: Result<Color, ()>)
        ensures
            match r {
                Ok(c) => color_from_text(s@) == Some(c),
                Err(_) => color_from_text(s@) is None,
            },
    {
        if str_eq(s, "black") {
            Ok(Color::Black)
        } else if str_eq(s, "dark_blue") {
            Ok(Color::DarkBlue)
        } else if str_eq(s, "dark_green") {
            Ok(Color::DarkGreen)
        } else if str_eq(s, "dark_aqua") {
            Ok(Color::DarkCyan)
        } else if str_eq(s, "dark_red") {
            Ok(Color::DarkRed)
        } else if str_eq(s, "dark_purple") {
            Ok(Color::Purple)
        } else if str_eq(s, "gold") {
            Ok(Color::Gold)
        } else if str_eq(s, "gray") {
            Ok(Color::Gray)
        } else if str_eq(s, "dark_gray") {
            Ok(Color::DarkGray)
        } else if str_eq(s, "blue") {
            Ok(Color::Blue)
        } else if str_eq(s, "green") {
            Ok(Color::BrightGreen)
        } else if str_eq(s, "aqua") {
            Ok(Color::Cyan)
        } else if str_eq(s, "red") {
            Ok(Color::Red)
        } else if str_eq(s, "light_purple") {
            Ok(Color::Pink)
        } else if str_eq(s, "yellow") {
            Ok(Color::Yellow)
        } else if str_eq(s, "white") {
            Ok(Color::White)
        } else {
            Err(())
        }
    }
}

/// Color bijection: parsing the canonical identifier of any color yields
/// that same color back, so `from_text` inverts `to_text` on every variant.
pub proof fn lemma_color_text_round_trip(c: Color)
    ensures
        color_from_text(color_text(c)) == Some(c),
{
    reveal_strlit("black");
    reveal_strlit("dark_blue");
    reveal_strlit("dark_green");
    reveal_strlit("dark_aqua");
    reveal_strlit("dark_red");
    reveal_strlit("dark_purple");
    reveal_strlit("gold");
    reveal_strlit("gray");
    reveal_strlit("dark_gray");
    reveal_strlit("blue");
    reveal_strlit("green");
    reveal_strlit("aqua");
    reveal_strlit("red");
    reveal_strlit("light_purple");
    reveal_strlit("yellow");
    reveal_strlit("white");
    // Identifiers of equal length are told apart by one character each.
    assert("black"@.len() == 5 && "green"@.len() == 5 && "white"@.len() == 5);
    assert("black"@[0] == 'b' && "green"@[0] == 'g' && "white"@[0] == 'w');
    assert("gold"@.len() == 4 && "gray"@.len() == 4 && "blue"@.len() == 4 && "aqua"@.len() == 4);
    assert("gold"@[1] == 'o' && "gray"@[1] == 'r' && "blue"@[1] == 'l' && "aqua"@[1] == 'q');
    assert("dark_blue"@.len() == 9 && "dark_aqua"@.len() == 9 && "dark_gray"@.len() == 9);
    assert("dark_blue"@[5] == 'b' && "dark_aqua"@[5] == 'a' && "dark_gray"@[5] == 'g');
    assert("dark_green"@.len() == 10 && "dark_red"@.len() == 8 && "dark_purple"@.len() == 11);
    assert("red"@.len() == 3 && "light_purple"@.len() == 12 && "yellow"@.len() == 6);
}

/// The identifier table is injective: two colors with the same canonical
/// identifier are the same color.
pub proof fn lemma_color_text_injective(c1: Color, c2: Color)
    ensures
        color_text(c1) == color_text(c2) ==> c1 == c2,
{
    lemma_color_text_round_trip(c1);
    lemma_color_text_round_trip(c2);
}

impl core::str::FromStr for Color {
    type Err = ();

    fn from_str(s: &str) -> Result<Color, ()> {
        Color::from_text(s)
    }
}

} // verus!
