[package]
name = "ross_dsl"
version = "0.1.0"
edition = "2021"
publish = false

[dependencies]
parse_int = "=0.6.0"
cron-parser = "=0.7.11"
regex-lexer = "=0.1.1"
regex = "=1.13.1"
indent_write = "=2.2.0"
