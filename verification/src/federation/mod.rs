pub mod discipline;
pub mod http;
pub mod inbox;
pub mod outbox;
pub mod request_queue;
