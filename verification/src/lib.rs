//! A small geometry-to-markup compiler for a pen plotter.
//!
//! Points are accumulated into a [`drawer::Path`], paths are added to a
//! [`drawer::SvgGraph`], and the graph compiles to an SVG document string.
//! Coordinates are exact whole-number units, so translation is exact and
//! invertible, and every rendered string is pinned down character by
//! character by the contracts.
//!
//! Handing a finished document to the plotting hardware is the business of
//! an external transport around this library; [`axidraw`] holds only the
//! transport's plain data.

pub mod axidraw;
pub mod decimal;
pub mod drawer;
