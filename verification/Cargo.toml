[package]
name = "nih_plug_egui_test"
version = "0.1.0"
edition = "2021"
publish = false

[dependencies]
egui = "0.31"
crossbeam = "0.8"
parking_lot = "0.12"
raw-window-handle = "0.5"
