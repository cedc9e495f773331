//! Verified core of a multi-language blog API: the document model, the
//! conversions between stored documents and transfer objects, excerpt
//! generation, query planning for post lists, pagination and the
//! authentication decisions.

pub mod auth;
mod clock;
pub mod dto;
pub mod text;
pub mod mapper;
pub mod model;
pub mod object_id;
pub mod query;
pub mod service;
