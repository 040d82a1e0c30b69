//! Verified core of a discussion board: topics, closed questions answered on a
//! circle, open questions answered in free text, and the users who vote.

pub mod model;
pub mod keyed;
pub mod decimal;
pub mod db;
pub mod db_laws;
pub mod change_laws;
pub mod calendar;
pub mod text;
pub mod route;
pub mod client;
pub mod live;
