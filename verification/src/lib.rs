//! Tools that turn artwork and text into data for programs on the Atari 2600.
//!
//! The heart of the crate is the sprite encoder. [`palette`] matches the
//! colours of the artwork against the palette of the console, [`row`]
//! encodes one scan line of eight samples into a bitmask and a colour,
//! [`sprite`] does so for all the scan lines of a sprite, reading them from an
//! image through [`source`], and [`colorspace`] gives the PAL value of an
//! NTSC colour. [`table`], [`output`] and [`batch`] write the encoded sprites
//! as C source in one of three layouts, with [`emit`] for the numbers.
//!
//! Beside it stand the glyph font of the text tool, [`font`], with the
//! lines of text it renders, [`text`], and the model of the playfield
//! editor, [`playfield`]. [`error`] holds what can go wrong.
//!
//! Every function states what it returns in its contract, and the contracts
//! are proved. The few functions that call into the `image` crate or into
//! parts of the standard library without a specification carry contracts that
//! are believed; each says above it what it claims.

pub mod batch;
pub mod colorspace;
pub mod emit;
pub mod error;
pub mod font;
pub mod output;
pub mod palette;
pub mod playfield;
pub mod row;
pub mod source;
pub mod sprite;
pub mod table;
pub mod text;
