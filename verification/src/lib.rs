//! Band-coloured rasters of scalar fields over the plane, the calibration grid
//! drawn over them, and the bookkeeping of frame sequences.

pub mod canvas;
pub mod color;
pub mod grid;
pub mod palette;
pub mod parameters;
pub mod render;
pub mod sequence;
pub mod sequencer;
pub mod text;
pub mod view;
