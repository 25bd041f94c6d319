pub mod error;
pub mod extensions;
pub mod model_id;
pub mod options;
pub mod reasoning;
pub mod request;
pub mod response;
pub mod stop;
pub mod tool_calls;
pub mod validation;
