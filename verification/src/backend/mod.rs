pub mod perfetto;
pub mod protobuf;
