[package]
name = "rllvm"
version = "0.1.0"
edition = "2021"
publish = false

[dependencies]
iced-x86 = { version = "=1.21.0", features = ["code_asm"] }
libc = "=0.2.191"
libloading = "=0.9.0"
object = { version = "=0.40.0", features = ["write"] }
target-lexicon = "=0.13.5"
winapi = { version = "=0.3.9", features = ["memoryapi", "winnt"] }
