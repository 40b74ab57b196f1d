//! What each operation comes to, said of what it is given and of what it returns and leaves behind.

pub mod accounts;
pub mod calls;
pub mod fees;
pub mod first_block;
pub mod origins;
pub mod values;
