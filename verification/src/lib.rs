//! The drawing rules of a tile world, and the composition of the brushes
//! that its sprites are painted with.
//!
//! A cell of the map is drawn from its terrain, the terrain of the eight
//! cells around it and the things that stand on it:
//!
//! - [`kernel`] samples the neighbourhood of a cell,
//! - [`resolver`] turns a neighbourhood into draw operations, with
//!   [`wallform`] picking the wall sprites that join up with the
//!   neighbours,
//! - [`entity`] adds the things on the cell, items under creatures,
//! - [`draw`] recolors the operations for cells that are only remembered,
//! - [`worldview`] draws the cells of the chart one by one.
//!
//! A brush is put together by the builder in [`brush`] from the parts of
//! a texture sheet that [`geom`] lays out.  [`text`] breaks words into
//! lines.
//!
//! Nothing here touches a screen: what is drawn is a list of operations,
//! and time comes in as an argument.

pub mod brush;
pub mod color;
pub mod draw;
pub mod entity;
pub mod geom;
pub mod kernel;
pub mod resolver;
pub mod terrain;
pub mod text;
pub mod tile;
pub mod wallform;
pub mod worldview;
