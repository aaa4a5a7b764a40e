//! Shared data structures and functionality for inter-node communication:
//! messages made of bytes and handles, the traits that turn values into
//! messages and back, and the encodings of sums and of initialisation wrappers.
//! Beside them stand a hasher and a signature module that compute nothing, with
//! the interfaces of `sha2` and `ring`.

pub mod codec;
pub mod either;
pub mod error;
pub mod handle;
pub mod init_wrapper;
pub mod message;
pub mod receiver;
pub mod stub_ring;
pub mod stub_sha2;
pub mod text;

pub use codec::{Decodable, Encodable};
pub use either::Either;
pub use error::{OakError, OakStatus};
pub use handle::{Handle, ReadHandle};
pub use init_wrapper::InitWrapper;
pub use message::Message;
pub use receiver::Receiver;
