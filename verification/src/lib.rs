pub mod adapter;
pub mod formats;

pub use adapter::EmbedError;
pub use adapter::ErrorModel;
pub use adapter::Token;
pub use adapter::TokenModel;
pub use adapter::deserialize_embedded;
pub use adapter::integrate;
pub use adapter::take_string_token;
pub use formats::deser_embedded_json;
pub use formats::deser_embedded_toml;
pub use formats::deser_embedded_yaml;
