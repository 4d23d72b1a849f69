[package]
name = "gpui_component"
version = "0.1.0"
edition = "2021"
publish = false

[dependencies]
ropey = { version = "=1.6.1", default-features = false }
uuid = { version = "1", features = ["v4"] }
lsp-types = "=0.97.0"
tree-sitter = "=0.27.1"
tree-sitter-highlight = "=0.27.1"
tree-sitter-json = "=0.24.8"
tree-sitter-md = "=0.5.4"
tree-sitter-toml-ng = "=0.7.0"
tree-sitter-yaml = "=0.7.2"
tree-sitter-rust = "=0.24.2"
tree-sitter-go = "=0.25.0"
tree-sitter-c = "=0.24.2"
tree-sitter-cpp = "=0.23.4"
tree-sitter-javascript = "=0.25.0"
tree-sitter-zig = "=1.1.2"
tree-sitter-java = "=0.23.5"
tree-sitter-python = "=0.25.0"
tree-sitter-ruby = "=0.23.1"
tree-sitter-bash = "=0.25.1"
tree-sitter-html = "=0.23.2"
tree-sitter-css = "=0.25.0"
tree-sitter-swift = "=0.7.4"
tree-sitter-scala = "=0.26.4"
tree-sitter-c-sharp = "=0.23.5"
tree-sitter-graphql = "=0.3.0"
tree-sitter-proto = "=0.6.0"
tree-sitter-make = "=1.1.1"
tree-sitter-cmake = "=0.7.6"
