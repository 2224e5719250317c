pub mod json_api;
pub mod json_text;
pub mod routes;
