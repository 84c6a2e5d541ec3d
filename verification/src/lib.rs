//! A verified model of a FITS file opened through cfitsio: its list of
//! header-data units (HDUs), the current HDU, and the operations that move
//! between HDUs, describe them and append new images and tables.

pub mod error;
pub mod types;
pub mod text;
pub mod model;
pub mod fitsfile;
pub mod laws;
