[package]
name = "hhkernel"
version = "0.1.0"
edition = "2021"
publish = false

[dependencies]
bit_field = "*"
multiboot2 = "*"
spin = "*"
x86 = "*"
linked_list_allocator = "*"
once = "*"
