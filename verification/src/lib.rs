//! The textual tuple format `(x,y,z)`: locating the coordinate literals of a
//! tuple in a string, and the errors that reading one can end in.

pub mod axis;
pub mod error;
pub mod pattern;
pub mod text;
