[package]
name = "worktree_commands"
version = "0.1.0"
edition = "2021"
publish = false

[dependencies]
anyhow = "1"
git2 = { version = "0.20", default-features = false }
