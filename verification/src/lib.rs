//! Verified core of an Ethereum indexer and transaction simulator.
pub mod block;
pub mod catalog;
pub mod config;
pub mod constants;
pub mod db;
pub mod error;
pub mod executor;
pub mod fetcher;
pub mod helpers;
pub mod http;
pub mod mocks;
pub mod pool;
pub mod repository;
pub mod response;
pub mod storage;
pub mod subscriber;
pub mod text;
pub mod word;
