//! Semaphores, and the pool that recycles their native handles.

use crate::device::Device;
use crate::sync::external_semaphore_handle_type::flag_bits;
use crate::sync::external_semaphore_handle_type::ExternalSemaphoreHandleType;
use crate::sync::external_semaphore_handle_type::OPAQUE_WIN32_BIT;
use crate::Error;
use crate::OomError;
use ash::vk::ExternalSemaphoreHandleTypeFlags;
use std::sync::Arc;
use vstd::prelude::*;

verus! {

/// The access rights that an exported Windows handle is created with: read
/// and write access to the shared resource.
pub const SHARED_RESOURCE_ACCESS: u32 = 2147483649;

/// The native semaphores of a device that are not in use and wait to be
/// taken again. The one that was put back last is taken first.
#[derive(Debug)]
pub struct SemaphorePool {
    free: Vec<u64>,
}

impl SemaphorePool {
    /// The handles in the pool, the one that was put back last at the end.
    pub closed spec fn view(&self) -> Seq<u64> {
        self.free@
    }

    /// Builds an empty pool.
    pub fn new() -> (r: SemaphorePool)
        ensures
            r@ == Seq::<u64>::empty(),
    {
        SemaphorePool { free: Vec::new() }
    }

    /// Returns the number of handles in the pool.
    pub fn len(&self) -> (r: usize)
        ensures
            r == self@.len(),
    {
        self.free.len()
    }
}

/// What the native layer is asked for when a semaphore is created.
pub struct SemaphoreCreateInfo {
    /// How the semaphore can be exported, if it can be.
    pub export: Option<ExportSemaphoreInfo>,
}

/// How the native layer is asked to make a semaphore exportable.
pub struct ExportSemaphoreInfo {
    /// The handle types that the semaphore can be exported as.
    pub handle_types: ExternalSemaphoreHandleTypeFlags,
    /// The access rights of an exported Windows handle.
    pub dw_access: u32,
}

/// What the native layer is asked for when the handle of a semaphore is
/// fetched.
pub struct SemaphoreGetHandleInfo {
    /// The number that identifies the native semaphore.
    pub semaphore: u64,
    /// The type of the handle that is asked for.
    pub handle_type: ExternalSemaphoreHandleTypeFlags,
}

/// Used to provide synchronization between command buffers during their
/// execution.
///
/// It is similar to a fence, except that it is purely on the device side.
/// The host can't query a semaphore's status or wait for it to be signaled.
#[derive(Debug)]
pub struct Semaphore {
    semaphore: u64,
    device: Arc<Device>,
    must_put_in_pool: bool,
}

/// What became of a request to take a semaphore from the pool.
#[derive(Debug)]
pub enum PoolLookup {
    /// A semaphore was taken from the pool.
    Reused(Semaphore),
    /// The pool is empty: a new native semaphore has to be created, and
    /// `Semaphore::alloc_impl` makes a pooled semaphore of it. The device
    /// that was handed in comes back.
    Empty(Arc<Device>),
}

/// What is to be done with the native semaphore of a `Semaphore` that is
/// given up.
#[derive(Debug, Copy, Clone, PartialEq, Eq, Structural)]
pub enum Disposal {
    /// The native semaphore is back in the pool and stays alive.
    Pooled,
    /// The native semaphore with this handle has to be destroyed.
    Destroy(u64),
}

impl Semaphore {
    /// The number that identifies the native semaphore.
    pub closed spec fn spec_internal_object(self) -> u64 {
        self.semaphore
    }

    /// The device that the semaphore belongs to.
    pub closed spec fn spec_device(self) -> Arc<Device> {
        self.device
    }

    /// Whether the native semaphore goes back to the pool when the
    /// semaphore is given up.
    pub closed spec fn spec_must_put_in_pool(self) -> bool {
        self.must_put_in_pool
    }

    /// Takes a semaphore from the pool of the device. Upon `release`, the
    /// semaphore is put back into the pool.
    ///
    /// If the pool is empty, nothing is taken, and a new semaphore has to be
    /// allocated for the pool.
    ///
    /// For most applications, using the pool should be preferred, in order
    /// to avoid creating new semaphores every frame.
    pub fn from_pool(device: Arc<Device>, pool: &mut SemaphorePool) -> (r: PoolLookup)
        ensures
            match pool_lookup(old(pool)@) {
                None => r == PoolLookup::Empty(device) && final(pool)@ == old(pool)@,
                Some((handle, rest)) => {
                    &&& r matches PoolLookup::Reused(sem)
                    &&& sem.spec_internal_object() == handle
                    &&& sem.spec_device() == device
                    &&& sem.spec_must_put_in_pool()
                    &&& final(pool)@ == rest
                },
            },
    {
        let maybe_raw_sem = pool.free.pop();
        match maybe_raw_sem {
            Some(raw_sem) => PoolLookup::Reused(
                Semaphore { device: device, semaphore: raw_sem, must_put_in_pool: true },
            ),
            None => PoolLookup::Empty(device),
        }
    }

    /// What the native layer is asked for to create a semaphore.
    pub fn create_info() -> (r: SemaphoreCreateInfo)
        ensures
            r.export is None,
    {
        SemaphoreCreateInfo { export: None }
    }

    /// What the native layer is asked for to create a semaphore that can be
    /// exported as a Windows handle, whatever `handle_types` asks for.
    pub fn exportable_create_info(handle_types: ExternalSemaphoreHandleType) -> (r:
        SemaphoreCreateInfo)
        ensures
            r.export matches Some(export) && flag_bits(export.handle_types) == OPAQUE_WIN32_BIT
                && export.dw_access == SHARED_RESOURCE_ACCESS,
    {
        let export = ExportSemaphoreInfo {
            handle_types: ExternalSemaphoreHandleTypeFlags::from(
                ExternalSemaphoreHandleType::win32(),
            ),
            dw_access: SHARED_RESOURCE_ACCESS,
        };
        assert(ExternalSemaphoreHandleType::spec_win32().bits() == OPAQUE_WIN32_BIT) by {
            ExternalSemaphoreHandleType::lemma_named_bits();
        }
        SemaphoreCreateInfo { export: Some(export) }
    }

    /// Builds a new semaphore from what the native layer returned when it
    /// was asked to create one: the handle of the new semaphore, or an
    /// error. The semaphore does not go back to the pool.
    ///
    /// The only error that is expected of the native layer, and the only
    /// one that is accepted here, is that memory ran out.
    #[inline]
    pub fn alloc_new(device: Arc<Device>, created: Result<u64, Error>) -> (r: Result<
        Semaphore,
        OomError,
    >)
        requires
            created matches Err(err) ==> err.spec_is_out_of_memory(),
        ensures
            alloc_outcome(device, false, created, r),
    {
        Semaphore::alloc_impl(device, false, created)
    }

    /// Builds a new semaphore from what the native layer returned when it
    /// was asked to create one: the handle of the new semaphore, or an
    /// error.
    ///
    /// The only error that is expected of the native layer, and the only
    /// one that is accepted here, is that memory ran out.
    pub fn alloc_impl(device: Arc<Device>, must_put_in_pool: bool, created: Result<u64, Error>) -> (r:
        Result<Semaphore, OomError>)
        requires
            created matches Err(err) ==> err.spec_is_out_of_memory(),
        ensures
            alloc_outcome(device, must_put_in_pool, created, r),
    {
        match created {
            Ok(semaphore) => Ok(
                Semaphore {
                    device: device,
                    semaphore: semaphore,
                    must_put_in_pool: must_put_in_pool,
                },
            ),
            Err(err) => Err(OomError::from_error(err)),
        }
    }

    /// Takes a semaphore from the pool of exportable semaphores of the
    /// device. If the pool is empty, nothing is taken, and a new exportable
    /// semaphore has to be allocated for the pool.
    pub fn from_exportable_pool(device: Arc<Device>, pool: &mut SemaphorePool) -> (r: PoolLookup)
        ensures
            match pool_lookup(old(pool)@) {
                None => r == PoolLookup::Empty(device) && final(pool)@ == old(pool)@,
                Some((handle, rest)) => {
                    &&& r matches PoolLookup::Reused(sem)
                    &&& sem.spec_internal_object() == handle
                    &&& sem.spec_device() == device
                    &&& sem.spec_must_put_in_pool()
                    &&& final(pool)@ == rest
                },
            },
    {
        Semaphore::from_pool(device, pool)
    }

    /// Builds a new exportable semaphore from what the native layer
    /// returned when it was asked to create one with
    /// `exportable_create_info`. The semaphore does not go back to the pool.
    ///
    /// The only error that is accepted is that memory ran out.
    #[inline]
    pub fn alloc_exportable(
        device: Arc<Device>,
        handle_type: ExternalSemaphoreHandleType,
        created: Result<u64, Error>,
    ) -> (r: Result<Semaphore, OomError>)
        requires
            created matches Err(err) ==> err.spec_is_out_of_memory(),
        ensures
            alloc_outcome(device, false, created, r),
    {
        Semaphore::alloc_exportable_impl(device, handle_type, false, created)
    }

    /// Builds a new exportable semaphore from what the native layer
    /// returned when it was asked to create one with
    /// `exportable_create_info`.
    ///
    /// The only error that is accepted is that memory ran out.
    pub fn alloc_exportable_impl(
        device: Arc<Device>,
        handle_types: ExternalSemaphoreHandleType,
        must_put_in_pool: bool,
        created: Result<u64, Error>,
    ) -> (r: Result<Semaphore, OomError>)
        requires
            created matches Err(err) ==> err.spec_is_out_of_memory(),
        ensures
            alloc_outcome(device, must_put_in_pool, created, r),
    {
        Semaphore::alloc_impl(device, must_put_in_pool, created)
    }

    /// What the native layer is asked for to hand out a Windows handle of
    /// the semaphore.
    pub fn get_handle_info(&self) -> (r: SemaphoreGetHandleInfo)
        ensures
            r.semaphore == self.spec_internal_object(),
            flag_bits(r.handle_type) == OPAQUE_WIN32_BIT,
    {
        assert(ExternalSemaphoreHandleType::spec_win32().bits() == OPAQUE_WIN32_BIT) by {
            ExternalSemaphoreHandleType::lemma_named_bits();
        }
        SemaphoreGetHandleInfo {
            semaphore: self.semaphore,
            handle_type: ExternalSemaphoreHandleTypeFlags::from(
                ExternalSemaphoreHandleType::win32(),
            ),
        }
    }

    /// Returns the address of the Windows handle of the semaphore, given
    /// what the native layer returned when it was asked for the handle with
    /// `get_handle_info`: the address of the handle, or an error.
    ///
    /// The native layer hands out a handle that is not null. The only error
    /// that is expected of it, and the only one that is accepted here, is
    /// that memory ran out.
    pub fn get_handle(
        &self,
        handle_type: ExternalSemaphoreHandleType,
        fetched: Result<usize, Error>,
    ) -> (r: Result<usize, OomError>)
        requires
            fetched matches Ok(handle) ==> handle != 0,
            fetched matches Err(err) ==> err.spec_is_out_of_memory(),
        ensures
            r == match fetched {
                Ok(handle) => Ok::<usize, OomError>(handle),
                Err(err) => Err(OomError::spec_from_error(err)),
            },
    {
        match fetched {
            Ok(handle) => Ok(handle),
            Err(err) => Err(OomError::from_error(err)),
        }
    }

    /// Returns the device that the semaphore belongs to.
    #[inline]
    pub fn device(&self) -> (r: &Arc<Device>)
        ensures
            *r == self.spec_device(),
    {
        &self.device
    }

    /// Returns the number that identifies the native semaphore.
    #[inline]
    pub fn internal_object(&self) -> (r: u64)
        ensures
            r == self.spec_internal_object(),
    {
        self.semaphore
    }

    /// Gives the semaphore up. The native semaphore goes back to the pool if
    /// the semaphore was made for the pool, and has to be destroyed if not.
    #[inline]
    pub fn release(self, pool: &mut SemaphorePool) -> (r: Disposal)
        ensures
            final(pool)@ == pool_after_release(
                old(pool)@,
                self.spec_internal_object(),
                self.spec_must_put_in_pool(),
            ),
            r == if self.spec_must_put_in_pool() {
                Disposal::Pooled
            } else {
                Disposal::Destroy(self.spec_internal_object())
            },
    {
        if self.must_put_in_pool {
            let raw_sem = self.semaphore;
            pool.free.push(raw_sem);
            Disposal::Pooled
        } else {
            Disposal::Destroy(self.semaphore)
        }
    }
}

/// Whether `r` is what becomes of a creation that ended with `created`: a
/// semaphore with the new handle after a success, and the out-of-memory
/// error that the native error stands for otherwise.
pub open spec fn alloc_outcome(
    device: Arc<Device>,
    must_put_in_pool: bool,
    created: Result<u64, Error>,
    r: Result<Semaphore, OomError>,
) -> bool {
    match created {
        Ok(handle) => {
            &&& r matches Ok(sem)
            &&& sem.spec_internal_object() == handle
            &&& sem.spec_device() == device
            &&& sem.spec_must_put_in_pool() == must_put_in_pool
        },
        Err(err) => r == Err::<Semaphore, OomError>(OomError::spec_from_error(err)),
    }
}

/// What a pool holds once the native semaphore `handle` was given up: the
/// handle comes last if it goes back to the pool, and nothing changes if it
/// does not.
pub open spec fn pool_after_release(pool: Seq<u64>, handle: u64, must_put_in_pool: bool) -> Seq<
    u64,
> {
    if must_put_in_pool {
        pool.push(handle)
    } else {
        pool
    }
}

/// What a request to a pool finds: the handle that the pool hands out and
/// what the pool holds afterwards, or nothing if the pool is empty.
pub open spec fn pool_lookup(pool: Seq<u64>) -> Option<(u64, Seq<u64>)> {
    if pool.len() == 0 {
        None
    } else {
        Some((pool.last(), pool.drop_last()))
    }
}

/// A semaphore that is released to the pool is the one that the next
/// request to the pool gets: the handle that was put back last is the first
/// to be taken again, and the pool is then as it was before. A semaphore
/// that does not belong to the pool leaves the pool as it is.
pub proof fn lemma_released_handle_is_reused(pool: Seq<u64>, handle: u64)
    ensures
        pool_lookup(pool_after_release(pool, handle, true)) == Some((handle, pool)),
        pool_after_release(pool, handle, false) == pool,
        pool_lookup(Seq::<u64>::empty()) is None,
{
    assert(pool.push(handle).drop_last() =~= pool);
}

} // verus!
