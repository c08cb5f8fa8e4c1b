pub mod auth_middleware;
pub mod auth_service;
pub mod config;
pub mod domain;
pub mod dto_analysis;
pub mod dto_auth;
pub mod dto_folder;
pub mod dto_image;
pub mod hasher;
pub mod ids;
pub mod image_service;
pub mod jobs;
pub mod keys;
pub mod models;
pub mod rate_limit;
pub mod security_headers;
pub mod storage;
pub mod text;
pub mod time;
pub mod token;
pub mod validation;
