//! Core logic of an anime-release aggregator: title normalisation, magnet
//! hashes, the crawler task lifecycle, the tiered metadata cache, the daily
//! harvest schedule, query paging rules and download status reconciliation.

pub mod bangumi;
pub mod cache;
pub mod chars;
pub mod config;
pub mod crawler;
pub mod download;
pub mod error;
pub mod magnet;
pub mod models;
pub mod parser;
pub mod query;
pub mod refresh;
pub mod subscription;
pub mod task;
pub mod text;
pub mod types;
