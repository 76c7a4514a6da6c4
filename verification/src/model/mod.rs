pub mod aws_object;
pub mod cdn;
pub mod contact;
pub mod experience;
pub mod metadata;
pub mod newsletter;
pub mod post;
pub mod project;
pub mod r2;
pub mod short;
