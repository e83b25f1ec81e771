//! Verified core of a small image-metadata reporting tool.
//!
//! The library renders image dimensions, file sizes and EXIF fields as
//! display text, and decides which report sections a menu selection asks
//! for.  Image decoding, EXIF container parsing and table layout are done
//! by outside crates behind a few trusted declarations; everything around
//! those calls is verified.

pub mod exifdata;
pub mod external;
pub mod report;
pub mod text;
