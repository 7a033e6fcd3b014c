[package]
name = "oci_config_writer"
version = "0.1.0"
edition = "2021"
publish = false

[dependencies]
directories = "5.0.1"
