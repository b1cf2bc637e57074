//! The typed shapes of the service's responses, one module per resource.

pub mod aes;
pub mod banners;
pub mod cosmetics;
pub mod creatorcode;
pub mod map;
pub mod news;
pub mod playlists;
pub mod shop;
pub mod stats;
