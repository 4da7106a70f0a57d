//! Checks that a value's encoding produces a scripted list of tokens, and
//! replays such a list as a decoding source.
//!
//! [`Serializer`] stands in for an output format: each call an encoder makes
//! is checked against the next token of the script. [`Deserializer`] stands in
//! for an input format: each request a decoder makes is answered, from the
//! tokens, with the [`Visit`] that the decoder's visitor is to perform.

pub mod de;
pub mod error;
pub mod lemmas;
pub mod ser;
pub mod text;
pub mod token;

pub use de::{CompositeAccess, Deserializer, EnumFormat, EnumMapVisitor, VariantTag, Visit};
pub use error::{Error, ErrorKind};
pub use ser::{ComplexSerializer, Serializer};
pub use token::{EndToken, Token};
