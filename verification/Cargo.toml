[package]
name = "bootcore"
version = "0.1.0"
edition = "2021"
publish = false

[dependencies]
pc-keyboard = "=0.9.0"
chrono = "=0.4.45"
spin = "=0.12.3"
multiboot2 = "=0.28.0"
acpi = "=4.1.1"
linked_list_allocator = "=0.10.6"
