use vstd::prelude::*;

pub mod boolu32;
pub mod status;
pub mod error;
pub mod nvid;
pub mod version;
pub mod clock_mask;
pub mod array;
pub mod types;
pub mod debug_array;
pub mod sys_thermal;
pub mod sys_cooler;
pub mod sys_power;
pub mod sys_clock;
pub mod gpu;
pub mod thermal;
pub mod hi;
pub mod clock;
pub mod pstate;
pub mod gsync;
pub mod info;
pub mod i2c;
pub mod nvapi;
pub mod string;
pub mod ecc;
pub mod value;
pub mod power;
pub mod text;
pub mod declare;

verus! {
} // verus!
