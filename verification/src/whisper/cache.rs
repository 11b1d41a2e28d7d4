//! The cache that keeps one model loaded, and drops it when it has not been
//! used for a while.
//!
//! The cache does not load a model nor read a clock. The caller hands it a
//! way to load, and the time: a reading, in milliseconds, of a clock that
//! does not run backwards.

use vstd::prelude::*;
use vstd::string::*;

verus! {

/// Milliseconds without use after which a model is dropped: five minutes.
pub const DEFAULT_UNLOAD_TIMEOUT_MS: u64 = 300000;

/// A loaded model and the record of its use. `C` is the loaded model itself.
#[derive(Debug)]
pub struct CachedModel<C> {
    context: C,
    model_id: String,
    use_gpu: bool,
    last_used: u64,
}

/// Model of a [`CachedModel`].
pub struct EntryModel<C> {
    pub context: C,
    pub model_id: Seq<char>,
    /// Whether the model was loaded for the GPU.
    pub use_gpu: bool,
    /// The time of the last use.
    pub last_used: u64,
}

impl<C> View for CachedModel<C> {
    type V = EntryModel<C>;

    closed spec fn view(&self) -> EntryModel<C> {
        EntryModel {
            context: self.context,
            model_id: self.model_id@,
            use_gpu: self.use_gpu,
            last_used: self.last_used,
        }
    }
}

/// Why the cache has no model to work with.
#[derive(Debug, PartialEq, Eq, Structural)]
pub enum CacheError {
    NoModelLoaded,
}

impl CacheError {
    /// The message for the user.
    pub fn message(&self) -> (text: String)
        ensures
            text@ == "No model loaded"@,
    {
        String::from_str("No model loaded")
    }
}

/// Keeps at most one model loaded.
#[derive(Debug)]
pub struct ModelCache<C> {
    cached: Option<CachedModel<C>>,
    unload_timeout: u64,
}

/// The time that has passed at `now` since `last_used`.
pub open spec fn elapsed(last_used: u64, now: u64) -> int {
    if now >= last_used {
        now - last_used
    } else {
        0
    }
}

impl<C> ModelCache<C> {
    /// The model that is cached, if any.
    pub closed spec fn entry(&self) -> Option<EntryModel<C>> {
        match self.cached {
            Some(model) => Some(model@),
            None => None,
        }
    }

    /// The time without use after which the model is dropped.
    pub closed spec fn timeout(&self) -> u64 {
        self.unload_timeout
    }

    /// Whether the cached model is the model `model_id`, loaded with this
    /// setting for the GPU.
    pub open spec fn holds(&self, model_id: Seq<char>, use_gpu: bool) -> bool {
        self.entry() matches Some(model) && model.model_id == model_id && model.use_gpu == use_gpu
    }

    /// Whether the cached model has been out of use for too long at `now`.
    pub open spec fn is_idle(&self, now: u64) -> bool {
        self.entry() matches Some(model) && elapsed(model.last_used, now) > self.timeout()
    }

    /// An empty cache with the default timeout.
    pub fn new() -> (cache: Self)
        ensures
            cache.entry() is None,
            cache.timeout() == DEFAULT_UNLOAD_TIMEOUT_MS,
    {
        ModelCache { cached: None, unload_timeout: DEFAULT_UNLOAD_TIMEOUT_MS }
    }

    /// Sees to it that the model `model_id` is cached with this setting for
    /// the GPU, and notes its use at `now`.
    ///
    /// Where that model is cached already, nothing is loaded. Otherwise
    /// `load` is called: what it loads takes the place of the cached model,
    /// and where it fails, the error is passed on and the cache stays as it
    /// was.
    pub fn get_or_load<E, F: FnOnce() -> Result<C, E>>(&mut self, model_id: &str, use_gpu: bool, now: u64, load: F) -> (result: Result<(), E>)
        requires
            load.requires(()),
        ensures
            final(self).timeout() == old(self).timeout(),
            old(self).holds(model_id@, use_gpu) ==> result is Ok && final(self).entry() == Some(
                EntryModel { last_used: now, ..old(self).entry()->Some_0 },
            ),
            !old(self).holds(model_id@, use_gpu) ==> exists|loaded: Result<C, E>| #[trigger]
                load.ensures((), loaded) && match loaded {
                    Ok(context) => result is Ok && final(self).entry() == Some(
                        EntryModel { context: context, model_id: model_id@, use_gpu: use_gpu, last_used: now },
                    ),
                    Err(error) => result == Err::<(), E>(error) && final(self).entry() == old(self).entry(),
                },
    {
        let wanted = String::from_str(model_id);
        let hit = match &self.cached {
            Some(model) => model.model_id == wanted && model.use_gpu == use_gpu,
            None => false,
        };
        if hit {
            let model = self.cached.take().unwrap();
            self.cached = Some(
                CachedModel {
                    context: model.context,
                    model_id: model.model_id,
                    use_gpu: model.use_gpu,
                    last_used: now,
                },
            );
            return Ok(());
        }
        match load() {
            Ok(context) => {
                self.cached = Some(CachedModel { context, model_id: wanted, use_gpu, last_used: now });
                Ok(())
            },
            Err(error) => Err(error),
        }
    }

    /// Lets `f` work with the cached model.
    pub fn with_context<R, F: FnOnce(&C) -> R>(&self, f: F) -> (result: Result<R, CacheError>)
        requires
            self.entry() matches Some(model) ==> f.requires((&model.context,)),
        ensures
            match self.entry() {
                Some(model) => result matches Ok(value) && f.ensures((&model.context,), value),
                None => result == Err::<R, CacheError>(CacheError::NoModelLoaded),
            },
    {
        match &self.cached {
            Some(model) => Ok(f(&model.context)),
            None => Err(CacheError::NoModelLoaded),
        }
    }

    /// Drops the cached model if it has been out of use for longer than the
    /// timeout, and says whether it did.
    pub fn cleanup_if_idle(&mut self, now: u64) -> (unloaded: bool)
        ensures
            unloaded == old(self).is_idle(now),
            final(self).timeout() == old(self).timeout(),
            final(self).entry() == if unloaded {
                None
            } else {
                old(self).entry()
            },
    {
        let idle = match &self.cached {
            Some(model) => now >= model.last_used && now - model.last_used > self.unload_timeout,
            None => false,
        };
        if idle {
            self.cached = None;
        }
        idle
    }

    /// Drops the cached model, if there is one.
    pub fn unload(&mut self)
        ensures
            final(self).entry() is None,
            final(self).timeout() == old(self).timeout(),
    {
        self.cached = None;
    }

    /// The identifier of the cached model and the time since its last use.
    pub fn get_cached_info(&self, now: u64) -> (info: Option<(String, u64)>)
        ensures
            match self.entry() {
                Some(model) => info matches Some(pair) && pair.0@ == model.model_id && pair.1 == elapsed(
                    model.last_used,
                    now,
                ),
                None => info is None,
            },
    {
        match &self.cached {
            Some(model) => {
                let idle_for: u64 = if now >= model.last_used {
                    now - model.last_used
                } else {
                    0
                };
                Some((model.model_id.clone(), idle_for))
            },
            None => None,
        }
    }
}

impl<C> Default for ModelCache<C> {
    fn default() -> (cache: Self)
        ensures
            cache.entry() is None,
            cache.timeout() == DEFAULT_UNLOAD_TIMEOUT_MS,
    {
        ModelCache::new()
    }
}

} // verus!
