//! Reading and writing of GoldSrc demo network messages.

pub mod le;
pub mod bits;
pub mod writer;
pub mod types;
pub mod netmsg_doer;
pub mod utils;
pub mod demo;
pub mod demo_writer;
