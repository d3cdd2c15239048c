//! Ingestion core for per-epoch reward parameters: extraction of raw chain
//! snapshots into records, an atomic and ordered upsert writer over an
//! in-memory store, and the decision logic of the crawl loop.

pub mod masp;
pub mod error;
pub mod repository;
pub mod storage;
pub mod decimal;
pub mod extract;
pub mod entity;
pub mod response;
pub mod config;
pub mod appstate;
pub mod masp_service;
pub mod hashing;
pub mod governance;
pub mod gas;
pub mod crawler;
pub mod simulation;
pub mod transaction;
