//! State and authorization core of a small university service: who holds which
//! role, and how a course moves from draft through proposal and voting to
//! approval and enrollment.
//!
//! A `University` holds the whole state. Every operation takes the caller's
//! principal and, where it needs one, the host's clock value as plain
//! arguments, and answers with a value or a `ServiceError`; it never panics,
//! and a refused request changes nothing.
//!
//! `model` says what each operation does, as a function on the mathematical
//! state `UniversityView`; the operations are proved against it, and `laws`
//! states what follows for every run of the service. What is taken on trust is
//! marked as such: two statements about `candid::Principal`, both in
//! `principal`.

pub mod course;
pub mod enrollment;
pub mod error;
pub mod guard;
pub mod history;
pub mod laws;
pub mod lifecycle;
pub mod model;
pub mod preservation;
pub mod principal;
pub mod principal_map;
pub mod profile;
pub mod registry;
pub mod role;
pub mod roles;
pub mod state;

pub use course::{Course, CourseStatus};
pub use error::ServiceError;
pub use profile::UserProfile;
pub use role::Role;
pub use state::University;
