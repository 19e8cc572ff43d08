//! A collector of sensor-network telemetry: it turns the frames of a gateway
//! feed into line-protocol records for a metrics database.
//!
//! The bytes of the feed are cut into frames ([`frame`]). A frame is decoded
//! into an [`envelope::Envelope`] ([`decoder`], reading JSON through
//! [`json`]), and the packet that the envelope's sentence was parsed into
//! ([`packet`]) is encoded as a [`record::Record`] and written as one line of
//! text ([`encoder`], [`names`], [`timestamp`], [`decimal`]). [`rate`] counts what was
//! published, minute by minute. [`supervisor`] holds the state of the
//! connection and decides, event by event, what is done next; the program
//! around it does the reading, parsing, sending and waiting. [`schema`] names
//! the protocol version and [`config`] the settings that the program starts
//! with. [`limits`] bounds the texts that are handed to outside readers.

pub mod config;
pub mod decimal;
pub mod decoder;
pub mod encoder;
pub mod envelope;
pub mod frame;
pub mod json;
pub mod limits;
pub mod names;
pub mod packet;
pub mod rate;
pub mod record;
pub mod schema;
pub mod supervisor;
pub mod timestamp;
