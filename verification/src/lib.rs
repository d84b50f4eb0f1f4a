pub mod text;
pub mod selection;
pub mod app;
pub mod arch;
pub mod key;
pub mod edit;
pub mod meminfo;
pub mod distro;
pub mod firmware;
pub mod network;
pub mod graphics;
pub mod fs;
pub mod storage;
pub mod disk;
pub mod access;
pub mod notification;
pub mod cloudinit;
pub mod confirmation;
pub mod vm;
pub mod qemu;
pub mod vmbuilder;
pub mod vmedit;
