//! Decoding of the SpecTec intermediate representation from its textual,
//! parenthesized ("s-expression") encoding.
//!
//! The crate has two layers, consumed top-down but built bottom-up.  The
//! reader ([`reader`], [`sexpr`]) scans a text buffer into a forest of
//! items: bare atoms, quoted text literals, and named nodes with ordered
//! children.  The decode engine ([`decode`], [`spectec`]) walks such a
//! forest against the statically known shape of each target type and
//! produces typed values, or a chained error that names the exact point
//! of failure.  Every decodable type offers a non-consuming probe beside
//! its decoder, and the probe agrees with the decoder on every item; the
//! greedy list and optional operations are built on that agreement and
//! never backtrack the stream.

pub mod decode;
pub mod reader;
pub mod sexpr;
pub mod spectec;
pub mod wasm;

pub use decode::DecodeError;
pub use sexpr::SExprError;
pub use spectec::parse_spectec_stream;
pub use wasm::get_wasm_spectec_ast;
