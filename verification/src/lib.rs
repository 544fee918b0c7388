//! Static safeguard against ill-formed transactions, and the pause system call
//! used to interrupt a virtual machine run at a chosen point.
//!
//! The safeguard scans the data of every transaction output. Data that parses
//! as an ELF binary has its executable sections decoded instruction by
//! instruction; a register-indirect jump-and-link whose link register is also
//! its base register (and is not the zero register) is rejected.

pub mod bytes;
pub mod consensus;
pub mod elf;
pub mod error;
pub mod ill_transaction_checker;
pub mod machine;
pub mod riscv;
pub mod syscalls;
pub mod transaction;
pub mod verify_env;
