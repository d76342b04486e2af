//! The catalogue of games the hub offers.
use vstd::prelude::*;
use crate::preview::{AnimatedPreview, Cell};

verus! {

/// A game's preview picture.
pub enum Preview {
    Static(Vec<Vec<Cell>>),
    Animated(AnimatedPreview),
}

/// One game of the catalogue: how it is shown and where it runs.
pub struct GameMetadata {
    /// Short identifier, used in messages.
    pub key: String,
    pub name: String,
    pub description: String,
    pub host: String,
    pub port: u16,
    /// Preview image file, relative to the catalogue file.
    pub image: Option<String>,
    /// The loaded preview, when the image could be read.
    pub preview: Option<Preview>,
}

} // verus!
