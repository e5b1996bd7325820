pub mod block;
pub mod blocks;
pub mod options;
pub mod util;
