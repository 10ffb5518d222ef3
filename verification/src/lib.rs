//! Line-oriented terminal prompts: free text, bounded integers, validated
//! strings, and single or multiple choice from a fixed list.
//!
//! The crate holds the editing and navigation engine. Every prompt is a state
//! machine: it is started once, is fed one key at a time, and answers each key
//! with the terminal commands to carry out and, at the end, with the value.
//! Reading keys and writing to the terminal are left to the caller.

pub mod buffer;
pub mod chars;
pub mod decimal;
pub mod editor;
pub mod email;
pub mod error;
pub mod input;
pub mod integer;
pub mod keys;
pub mod multiselect;
pub mod navigator;
pub mod screen;
pub mod select;
pub mod text;

pub use crate::email::{Email, EmailAddress};
pub use crate::error::Error;
pub use crate::input::{Input, NoValidator, Validator};
pub use crate::integer::{IntError, IntErrorKind, Integer};
pub use crate::keys::Key;
pub use crate::multiselect::MultiSelect;
pub use crate::screen::Command;
pub use crate::select::{Select, SelectEnum};
pub use crate::text::Text;
