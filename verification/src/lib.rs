//! The control protocol of a remote command session: an endpoint that starts
//! remotes, commands and files and keeps the books on them, a backend that
//! routes what the endpoint asks for, and the messages between the two.

pub mod backend;
pub mod command;
pub mod decimal;
pub mod decode;
pub mod endpoint;
pub mod ids;
pub mod json;
pub mod message;
pub mod registry;
pub mod roundtrip;
pub mod transport;
pub mod wire;

pub use backend::{Backend, BackendHandler};
pub use command::{Command, Condition, ExitStatus, ReadProcess, WriteProcess};
pub use endpoint::{Endpoint, EndpointHandler};
pub use ids::{Handle, Ids, ProcessId, ReadPipe, RemoteId, WritePipe};
pub use message::{
    RemoteRequestEnvelope, RemoteResponse, RemoteResponseEnvelope, Request, Response,
};
pub use decode::DecodeError;
pub use transport::{Outbox, Transport};
