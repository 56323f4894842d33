//! Execution runtime environment: bounded memory accounting, spill
//! directories, and the configuration both are built from.

use vstd::prelude::*;
use crate::error::DataFusionError;

verus! {

/// Execution runtime configuration.
#[derive(Debug, Clone)]
pub struct RuntimeConfig {
    /// Default batch size when creating new batches.
    pub batch_size: usize,
    /// Maximum execution memory in bytes.
    pub max_memory: usize,
    /// Local directories for temporary files during execution.
    pub local_dirs: Vec<String>,
}

/// Relies on tempfile::tempdir: creates a fresh temporary directory and
/// deliberately leaks its handle, so the directory survives every runtime
/// value that might spill into it; yields the path when it is valid UTF-8.
#[verifier::external_body]
fn fresh_temp_dir() -> (r: Option<String>) {
    match tempfile::tempdir() {
        Err(_) => None,
        Ok(d) => {
            let path = d.path().to_str().map(|s| s.to_string());
            std::mem::forget(d);
            path
        },
    }
}

impl Default for RuntimeConfig {
    /// The default configuration: 8192-row batches, unbounded memory, and one
    /// ephemeral spill directory (none when the machine cannot provide one).
    fn default() -> (r: RuntimeConfig)
        ensures
            r.batch_size == 8192,
            r.max_memory == usize::MAX,
            r.local_dirs@.len() <= 1,
    {
        let local_dirs: Vec<String> = match fresh_temp_dir() {
            Some(path) => {
                let mut dirs: Vec<String> = Vec::new();
                dirs.push(path);
                dirs
            },
            None => Vec::new(),
        };
        RuntimeConfig { batch_size: 8192, max_memory: usize::MAX, local_dirs }
    }
}

impl RuntimeConfig {
    /// The default configuration.
    pub fn new() -> (r: RuntimeConfig)
        ensures
            r.batch_size == 8192,
            r.max_memory == usize::MAX,
            r.local_dirs@.len() <= 1,
    {
        Default::default()
    }

    /// Customize the batch size, which must be positive.
    pub fn with_batch_size(self, n: usize) -> (r: RuntimeConfig)
        requires
            n >= 1,
        ensures
            r.batch_size == n,
            r.max_memory == self.max_memory,
            r.local_dirs == self.local_dirs,
    {
        RuntimeConfig { batch_size: n, ..self }
    }

    /// Customize the memory bound, which must be positive.
    pub fn with_max_execution_memory(self, max_memory: usize) -> (r: RuntimeConfig)
        requires
            max_memory >= 1,
        ensures
            r.max_memory == max_memory,
            r.batch_size == self.batch_size,
            r.local_dirs == self.local_dirs,
    {
        RuntimeConfig { max_memory, ..self }
    }

    /// Customize the spill directories, which must be non-empty.
    pub fn with_local_dirs(self, local_dirs: Vec<String>) -> (r: RuntimeConfig)
        requires
            local_dirs@.len() >= 1,
        ensures
            r.local_dirs == local_dirs,
            r.batch_size == self.batch_size,
            r.max_memory == self.max_memory,
    {
        RuntimeConfig { local_dirs, ..self }
    }
}

/// Coordinates the memory of downstream operators: tracks at most
/// `max_memory` bytes in aggregate; registration is idempotent by consumer
/// identity.
#[derive(Debug, Clone)]
pub struct MemoryManager {
    /// The aggregate memory bound.
    pub max_memory: usize,
    /// Identities of the registered consumers, first registration first,
    /// each at most once.
    pub consumers: Vec<u64>,
}

/// No consumer identity appears twice.
pub open spec fn spec_consumers_unique(consumers: Seq<u64>) -> bool {
    forall|i: int, j: int| 0 <= i < j < consumers.len() ==> consumers[i] != consumers[j]
}

impl MemoryManager {
    /// A manager with the given bound and no consumers.
    pub fn new(max_memory: usize) -> (r: MemoryManager)
        ensures
            r.max_memory == max_memory,
            r.consumers@.len() == 0,
    {
        MemoryManager { max_memory, consumers: Vec::new() }
    }

    /// Register a consumer by identity; registering one already tracked
    /// changes nothing.
    pub fn register_consumer(&mut self, consumer: u64)
        ensures
            final(self).max_memory == old(self).max_memory,
            final(self).consumers@ == if old(self).consumers@.contains(consumer) {
                old(self).consumers@
            } else {
                old(self).consumers@.push(consumer)
            },
            spec_consumers_unique(old(self).consumers@) ==> spec_consumers_unique(
                final(self).consumers@,
            ),
    {
        let mut i: usize = 0;
        while i < self.consumers.len()
            invariant
                i <= self.consumers@.len(),
                forall|j: int| 0 <= j < i ==> self.consumers@[j] != consumer,
            decreases self.consumers@.len() - i,
        {
            if self.consumers[i] == consumer {
                return ;
            }
            i = i + 1;
        }
        assert(!self.consumers@.contains(consumer));
        self.consumers.push(consumer);
    }
}

/// Owns the writable spill directories; a runtime cannot be built without at
/// least one.
#[derive(Debug, Clone)]
pub struct DiskManager {
    /// The spill directories.
    pub local_dirs: Vec<String>,
}

impl DiskManager {
    /// A manager over `local_dirs`; an empty list is a configuration error.
    pub fn new(local_dirs: Vec<String>) -> (r: Result<DiskManager, DataFusionError>)
        ensures
            local_dirs@.len() == 0 ==> (r matches Err(e) && e is Config),
            local_dirs@.len() > 0 ==> (r matches Ok(d) && d.local_dirs == local_dirs),
    {
        if local_dirs.len() == 0 {
            Err(DataFusionError::Config("no spill directory is configured".to_owned()))
        } else {
            Ok(DiskManager { local_dirs })
        }
    }
}

/// Process-wide execution runtime: configuration plus the memory and disk
/// managers built from it.
#[derive(Debug, Clone)]
pub struct RuntimeEnv {
    /// Runtime configuration.
    pub config: RuntimeConfig,
    /// Runtime memory management.
    pub memory_manager: MemoryManager,
    /// Temporary-file management during query execution.
    pub disk_manager: DiskManager,
}

impl RuntimeEnv {
    /// Build the runtime from a configuration; fails exactly when the
    /// configuration names no spill directory.
    pub fn new(config: RuntimeConfig) -> (r: Result<RuntimeEnv, DataFusionError>)
        ensures
            config.local_dirs@.len() == 0 ==> (r matches Err(e) && e is Config),
            config.local_dirs@.len() > 0 ==> (r matches Ok(env) && env.config == config
                && env.memory_manager.max_memory == config.max_memory
                && env.memory_manager.consumers@.len() == 0
                && env.disk_manager.local_dirs@ == config.local_dirs@),
    {
        let mut dirs: Vec<String> = Vec::new();
        let mut i: usize = 0;
        while i < config.local_dirs.len()
            invariant
                i <= config.local_dirs@.len(),
                dirs@ == config.local_dirs@.take(i as int),
            decreases config.local_dirs@.len() - i,
        {
            dirs.push(config.local_dirs[i].clone());
            proof {
                assert(dirs@ =~= config.local_dirs@.take(i + 1int));
            }
            i = i + 1;
        }
        proof {
            assert(dirs@ =~= config.local_dirs@);
        }
        let disk_manager = DiskManager::new(dirs)?;
        let memory_manager = MemoryManager::new(config.max_memory);
        Ok(RuntimeEnv { config, memory_manager, disk_manager })
    }

    /// The execution batch size of this runtime.
    pub fn batch_size(&self) -> (r: usize)
        ensures
            r == self.config.batch_size,
    {
        self.config.batch_size
    }

    /// Register a memory consumer to have it tracked; idempotent by identity.
    pub fn register_consumer(&mut self, consumer: u64)
        ensures
            final(self).config == old(self).config,
            final(self).disk_manager == old(self).disk_manager,
            final(self).memory_manager.max_memory == old(self).memory_manager.max_memory,
            final(self).memory_manager.consumers@ == if old(
                self,
            ).memory_manager.consumers@.contains(consumer) {
                old(self).memory_manager.consumers@
            } else {
                old(self).memory_manager.consumers@.push(consumer)
            },
    {
        self.memory_manager.register_consumer(consumer);
    }
}

} // verus!
