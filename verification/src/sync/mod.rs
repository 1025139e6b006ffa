//! Synchronization primitives shared between the host and the device.

pub mod external_semaphore_handle_type;
pub mod semaphore;

pub use self::external_semaphore_handle_type::ExternalSemaphoreHandleType;
pub use self::semaphore::Semaphore;
