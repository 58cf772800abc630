//! Installation, update and removal of the Eiyah environment.
//!
//! Every decision that the installer takes is a function of this library with a
//! proved contract. What touches the machine (files, processes, the network) is
//! asked for as a value and performed elsewhere.

pub mod accounts;
pub mod acts;
pub mod archive;
pub mod arrival;
pub mod backup;
pub mod backup_index;
pub mod beginnings;
pub mod binary;
pub mod bytes;
pub mod checks;
pub mod checksum;
pub mod clearance;
pub mod cli;
pub mod config;
pub mod conflicts;
pub mod copies;
pub mod creation;
pub mod deployment;
pub mod device;
pub mod directories;
pub mod doctor;
pub mod dotfiles;
pub mod effects;
pub mod failure;
pub mod handoff;
pub mod host;
pub mod install;
pub mod installed;
pub mod journey;
pub mod judgements;
pub mod lock;
pub mod passages;
pub mod paths;
pub mod pixi;
pub mod preflight;
pub mod private_release;
pub mod progress;
pub mod release;
pub mod removal;
pub mod restoration;
pub mod restore;
pub mod scaffold;
pub mod script;
pub mod settings;
pub mod ssh;
pub mod state;
pub mod storage;
pub mod stow;
pub mod survey;
pub mod surveys;
pub mod system;
pub mod text;
pub mod transaction;
pub mod ui;
pub mod undo;
pub mod uninstall;
pub mod update;
pub mod verify;
pub mod withdrawal;
