//! Translation of absolute SVG path data into a TikZ `\draw` statement.
//!
//! Coordinates are held as fixed-point decimals with four fraction digits,
//! path segments and style attributes as closed sum types, and every piece
//! of rendered text is stated by a spec function over those values.
pub mod coord;
pub mod draw;
pub mod scan;
pub mod translate;

pub use coord::{Coord, Point};
pub use draw::{attributes_to_tikz, sections_to_tikz, Attribute, PathSection, TikzDraw};
pub use translate::{draw_from_commands, CommandKind, SvgCommand, TranslateError};
pub use scan::{find_path_data, first_path_data, SvgNode};
