//! Commands on the git worktrees that a storage keeps for several repositories: one
//! tells where a worktree is, the other removes one together with its branch.
//!
//! Everything that a command decides is decided here; everything that it has to look
//! up or carry out is left to whoever drives it. A command is a session
//! ([`jump::Jump`], [`remove::Remove`]): it asks for one thing at a time
//! ([`protocol::Request`]) and is told what came of it ([`protocol::Reply`]).
//!
//! * [`jump`] and [`remove`] are the commands, [`goal`] what they are after;
//! * [`listing`] collects the worktrees that are there, [`recency`] puts them in order,
//!   [`worktrees`] offers them for choice and finds them by name;
//! * [`resolve`] finds out what the target of a removal means, [`removal`] carries the
//!   removal out, [`head`] tells the branch that is checked out;
//! * [`world`] tells what a command comes to in given surroundings, and [`laws`] proves
//!   it, along with what holds in any surroundings; [`inventory`] says what a listing
//!   holds, [`course`] what the commands do from end to end, and [`models`] that the
//!   models in which all this is told keep what the values hold;
//! * [`paths`] and [`text`] are what the commands know of paths and of text.
#![allow(unused_imports)]

pub mod course;
pub mod goal;
pub mod head;
pub mod inventory;
pub mod jump;
pub mod laws;
pub mod listing;
pub mod models;
pub mod paths;
pub mod protocol;
pub mod recency;
pub mod removal;
pub mod remove;
pub mod resolve;
pub mod text;
pub mod world;
pub mod worktrees;
