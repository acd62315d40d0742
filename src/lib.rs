//! Verified core of a command line uploader for the ILIAS learning platform:
//! querypath handling, the portal's date format, filename transforms,
//! classification of folder entries, deletion preselection and the
//! single-sign-on handshake as a state machine.

pub mod text;
pub mod querypath;
pub mod date;
pub mod pattern;
pub mod transform;
pub mod upload;
pub mod file;
pub mod form;
pub mod sections;
pub mod assignment;
pub mod folder;
pub mod exercise;
pub mod auth;
pub mod html;
pub mod pages;
