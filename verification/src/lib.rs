//! Input completion for an IRC client: command suggestions with argument
//! hints, and nickname / channel completion of the word being typed.

pub mod strings;
pub mod isupport;
pub mod command;
pub mod catalog;
pub mod commands;
pub mod text;
pub mod completion;
pub mod laws;
pub mod catalogue_laws;
pub mod editing_laws;

pub use crate::command::{ArgHint, Command, CommandHint};
pub use crate::commands::{CompletionView, ListedCommand};
pub use crate::completion::{Completion, Entry};
pub use crate::isupport::{CaseMap, ChannelLimit, CommandTargetLimit, Isupport, Kind, Parameter};
