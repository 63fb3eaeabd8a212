//! What the engine asks of the code around it while a session negotiates.

pub mod pkey;
