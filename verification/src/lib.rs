//! Byte-order codec: conversion between fixed-width integers and their
//! raw byte blocks, parameterized over endianness.

pub mod aliases;
pub mod codec;
pub mod laws;
pub mod model;
pub mod native;
pub mod order;

pub use model::{
    be_bytes_of, be_value_of, bits_of_i16, bits_of_i32, bits_of_i64, bits_of_i8, bytes_of,
    le_bytes_of, le_value_of, pow256, value_of,
};
pub use native::NativeEndian;
pub use order::{BigEndian, ByteOrder, LittleEndian};
