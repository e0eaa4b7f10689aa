use image::ImageError;
use palette::rgb::FromHexError;
use vstd::prelude::*;

verus! {

#[verifier::external_type_specification]
#[verifier::external_body]
pub struct ExIoError(std::io::Error);

#[verifier::external_type_specification]
#[verifier::external_body]
pub struct ExImageError(ImageError);

/// What can go wrong in a palette transfer.
#[derive(Debug)]
pub enum TransferError {
    /// A file could not be read or written.
    IoError(std::io::Error),
    /// An image could not be decoded or encoded.
    ImgError(ImageError),
    /// A palette color is not a hex code.
    HexError(FromHexError),
    /// The palette spans no region of positive volume.
    ConvexHullError,
    /// A nearest-point query found the palette's region farther away than
    /// the search margin, which no color of the RGB cube can be.
    GeometryInvariant,
}

} // verus!
