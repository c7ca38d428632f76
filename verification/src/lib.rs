//! Room booking for a shared auditorium: roles, identity resolution and the
//! rules that decide which reservations may be created, edited and approved.

pub mod admin;
pub mod auth;
pub mod booking;
pub mod db;
pub mod models;
pub mod text;
