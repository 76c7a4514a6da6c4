pub mod admin;
pub mod contact;
pub mod form;
pub mod metadata;
pub mod newsletter;
pub mod posts;
pub mod short;
pub mod sitemap;
pub mod upload;
