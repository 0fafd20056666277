[package]
name = "tree_stump"
version = "0.1.0"
edition = "2021"
publish = false

[dependencies]
tree-sitter = "0.22"
libloading = "0.8"
magnus = "0.7"

[dev-dependencies]
tree-sitter-json = "0.21"
