//! Instructions of the administrator.

pub mod accept_authority;
pub mod configure;
pub mod nominate_authority;
