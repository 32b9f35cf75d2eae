//! The playfield editor's model: a list of writes to the registers of the
//! TIA that draw the playfield.

use vstd::prelude::*;

verus! {

/// A register of the TIA that takes part in drawing the playfield.
#[derive(Clone, Copy, Debug, PartialEq, Eq, Structural)]
pub enum Register {
    /// Background colour.
    Colubk,
    /// Playfield colour.
    Colupf,
    /// Playfield control: reflection, score mode, priority.
    Ctrlpf,
    /// Playfield bits 0 to 3.
    Pf0,
    /// Playfield bits 4 to 11.
    Pf1,
    /// Playfield bits 12 to 19.
    Pf2,
}

impl Register {
    /// The name of the register as the editor shows it.
    pub open spec fn label_text(self) -> Seq<char> {
        match self {
            Register::Colubk => "Colubk"@,
            Register::Colupf => "Colupf"@,
            Register::Ctrlpf => "Ctrlpf"@,
            Register::Pf0 => "Pf0"@,
            Register::Pf1 => "Pf1"@,
            Register::Pf2 => "Pf2"@,
        }
    }

    /// The name of the register as the editor shows it.
    pub fn label(&self) -> (label: &'static str)
        ensures
            label@ == self.label_text(),
    {
        match self {
            Register::Colubk => "Colubk",
            Register::Colupf => "Colupf",
            Register::Ctrlpf => "Ctrlpf",
            Register::Pf0 => "Pf0",
            Register::Pf1 => "Pf1",
            Register::Pf2 => "Pf2",
        }
    }
}

/// The playfield a new definition starts from: background and playfield
/// colour, both black.
pub fn initial_playfield() -> (playfield: Vec<(Register, u8)>)
    ensures
        playfield@ == seq![(Register::Colubk, 0u8), (Register::Colupf, 0u8)],
{
    let mut playfield: Vec<(Register, u8)> = Vec::new();
    playfield.push((Register::Colubk, 0));
    playfield.push((Register::Colupf, 0));
    assert(playfield@ =~= seq![(Register::Colubk, 0u8), (Register::Colupf, 0u8)]);
    playfield
}

} // verus!
