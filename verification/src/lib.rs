//! Imposes batches of PDF documents into a single print-ready booklet: each
//! source page becomes a raster image, consecutive pages form recto/verso
//! leaves, and the leaves are laid out chunk by chunk into typesetting markup
//! that an external engine compiles back to one PDF.
pub mod compile;
pub mod errors;
pub mod extract;
pub mod layout;
pub mod numerals;
pub mod pairing;
pub mod pipeline;
pub mod request;
