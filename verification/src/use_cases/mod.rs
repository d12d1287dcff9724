pub mod role;
pub mod tracker;
pub mod project;
pub mod flow;
pub mod access;
pub mod attachment;
pub mod auth;
pub mod category;
pub mod enumeration;
pub mod issue_status;
pub mod member;
pub mod issue;
