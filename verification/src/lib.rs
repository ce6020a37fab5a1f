//! Supervision of one external command-line process per outgoing message:
//! the stream protocol it speaks, the session state machine that admits one
//! exchange at a time, and the conversation history index.

pub mod error;
pub mod json;
pub mod manager;
pub mod pty;
pub mod sessions;
pub mod stream;
pub mod text;

pub use error::ClaudeError;
pub use manager::claude_check_status;
pub use manager::claude_get_session_state;
pub use manager::claude_list_conversations;
pub use manager::claude_send_message;
pub use manager::claude_start_session;
pub use manager::claude_stop_session;
pub use manager::ClaudeManager;
