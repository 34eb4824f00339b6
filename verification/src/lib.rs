//! Verified core of a virtual machine monitor front end.

pub mod acceptance_laws;
pub mod attachment_laws;
pub mod bytes;
pub mod capture;
pub mod capture_write;
pub mod chipset;
pub mod config;
pub mod console;
pub mod controller;
pub mod create;
pub mod create_devices;
pub mod create_laws;
pub mod create_plan;
pub mod create_plan_laws;
pub mod create_request;
pub mod create_restore;
pub mod device_laws;
pub mod devices;
pub mod entropy;
pub mod filesystem;
pub mod grouping;
pub mod guest;
pub mod guest_laws;
pub mod install;
pub mod launch;
pub mod launch_boot;
pub mod launch_config;
pub mod launch_device_laws;
pub mod launch_devices;
pub mod launch_firmware;
pub mod launch_front;
pub mod launch_host_laws;
pub mod launch_laws;
pub mod launch_lists;
pub mod launch_net;
pub mod launch_pcie;
pub mod launch_plan;
pub mod launch_plan_laws;
pub mod launch_serial;
pub mod launch_storage;
pub mod machine;
pub mod machine_laws;
pub mod microvm;
pub mod microvm_laws;
pub mod microvm_network;
pub mod net;
pub mod network_attachment;
pub mod numa;
pub mod numeral;
pub mod option_laws;
pub mod path;
pub mod pcie;
pub mod pcie_laws;
pub mod profile;
pub mod pvh;
pub mod record_laws;
pub mod refusal;
pub mod restore;
pub mod rpc;
pub mod run;
pub mod serial;
pub mod service;
pub mod service_laws;
pub mod smbios;
pub mod snapshot;
pub mod snapshot_laws;
pub mod snapshot_rpc;
pub mod text;
pub mod text_laws;
pub mod transport;
pub mod vtl2;
pub mod worker;
