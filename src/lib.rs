pub mod error;
pub mod le;
pub mod reader;
pub mod traits;
pub mod utils;

pub use reader::Reader;
pub use solana_program_error::ProgramError;
pub use traits::{PeekIntoBytes, ReadBytes};
pub use utils::{
    read_bool_slice, read_bytes_slice, read_i16_slice, read_i32_slice, read_i64_slice,
    read_i8_slice, read_slice, read_u16_slice, read_u32_slice, read_u64_slice, read_u8_slice,
};
