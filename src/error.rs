//! Error kinds surfaced by the library, each carrying a human message.
use vstd::prelude::*;

verus! {

#[derive(Debug)]
pub enum DatabaseError {
    Query(String),
    Connection(String),
    Migration(String),
    SqlFileRead(String),
}

#[derive(Debug)]
pub enum ApiError {
    Request(String),
    Response(String),
    External(String),
}

#[derive(Debug)]
pub enum DomainError {
    NotFound { resource_type: String, resource_id: i64 },
    Conflict(String),
    Serialization(String),
    Other(String),
}

#[derive(Debug)]
pub enum CacheError {
    Operation(String),
}

#[derive(Debug)]
pub enum TaskError {
    Failed(String),
    Cancel(String),
}

#[derive(Debug)]
pub enum InputError {
    Invalid(String),
}

#[derive(Debug)]
pub enum DownloadTaskError {
    Failed(String),
}

#[derive(Debug)]
pub enum AppError {
    Database(DatabaseError),
    Api(ApiError),
    Domain(DomainError),
    Cache(CacheError),
    Task(TaskError),
    Input(InputError),
    DownloadTask(DownloadTaskError),
    Unknown(String),
}

} // verus!
