pub mod admin_middleware;
pub mod auth_middleware;
