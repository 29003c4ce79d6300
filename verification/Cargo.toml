[package]
name = "greenmerald_markdown_renderer"
version = "0.1.0"
edition = "2021"
publish = false

[dependencies]
crossterm = "0.29"
ratatui = "0.30"
tui-markdown = { version = "0.3", default-features = false }
