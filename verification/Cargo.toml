[package]
name = "diff_grep"
version = "0.1.0"
edition = "2021"
publish = false

[dependencies]
anyhow = "1"
argh = "0.1"
atty = "0.2"
git2 = { version = "0.13", default-features = false }
regex = "1"
