//! Geometric layout for tabular data and linear barcodes destined for a
//! paginated document.
//!
//! The crate answers "where does element X go" given a page size, margins,
//! proportional column widths and a row height: it computes cell anchor
//! points, border rectangles and the full pagination plan for a table, and
//! rasterizes Code128 barcodes into a pixel buffer. It does not render;
//! a thin unverified layer hands the computed placements to a PDF library.
//!
//! All coordinates are integer layout units of one eighth of a millimetre,
//! so the default row height of 7.5 mm, its half and quarter paddings and
//! the 1 mm cell padding are all exact.


pub mod barcode;
pub mod errors;
pub mod geometry;
pub mod grid;
pub mod locator;
pub mod paginate;



pub mod units;
