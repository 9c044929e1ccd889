//! The background worker that serves the browser's requests, and the file system
//! service it works with.

pub mod fs_light_service;
pub mod fs_light_worker;

pub use fs_light_service::FsLightService;
pub use fs_light_service::IoErrorKind;
pub use fs_light_service::IoFailure;
pub use fs_light_service::LightServiceError;
pub use fs_light_worker::FsLightWorker;
pub use fs_light_worker::LightWorkerAction;
pub use fs_light_worker::LightWorkerError;
pub use fs_light_worker::LightWorkerMessage;
pub use fs_light_worker::LightWorkerReply;
pub use fs_light_worker::LightWorkerResponse;
pub use fs_light_worker::WorkerEvent;
pub use fs_light_worker::WorkerState;
pub use fs_light_worker::WorkerStep;
