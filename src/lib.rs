#![allow(non_camel_case_types)]

pub mod command;
pub mod layout;
pub mod store;
pub mod scene;
