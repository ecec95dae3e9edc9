pub mod movies;
pub mod names;
pub mod crews;
pub mod episodes;
pub mod ratings;
pub mod principals;
pub mod misc;
