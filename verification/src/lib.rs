//! A declaration-to-declaration generator of test stand-ins ("mocks").
//!
//! Given the shape of a type, an interface, or a method-set binding, the
//! library synthesizes a parallel stand-in type, a recording method for each
//! original method, and a configuration method (`expect_<name>`) through which
//! a test programs what each call returns.

pub mod assemble;
pub mod manual;
pub mod model;
pub mod naming;
pub mod out;
pub mod render;
pub mod synth;

pub use assemble::{mock_impl, mock_item, mock_struct, mock_trait, mock_trait_methods};
pub use manual::do_mock;
pub use naming::{gen_mock_ident, gen_mock_path};
pub use synth::{classify_receiver, gen_mock_method, gen_struct};
