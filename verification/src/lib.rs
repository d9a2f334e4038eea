//! Build-time binding-generation pipeline for a precompiled wireless-stack
//! library, together with the value types of its safe interface layer.
//!
//! The pipeline logic here is pure: it rewrites generated source text,
//! assembles compiler argument lists from probed toolchain facts, plans
//! artifact relocation, and emits module indexes. All input/output sits
//! outside this crate and hands plain values in and out.

pub mod aggregate;
pub mod ble_sys_if;
pub mod catalog;
pub mod compile;
pub mod linklayer_plat;
pub mod ll_sys_if;
pub mod mac_sys_if;
pub mod normalize;
pub mod paths;
pub mod pipeline;
pub mod relocate;
pub mod text;
pub mod toolchain;
