//! The bindings of a channel that queues its units for one worker.

use crate::channel::EventRouter;
use crate::channel::RouterTable;
use crate::format::Formatter;
use crate::level::LevelTable;
use crate::level::LogLevel;
use crate::level::LogLevelFilter;
use crate::output::Output;
use vstd::prelude::*;

pub use crate::channel::EventRouterBuilder;

verus! {

/// Assembles the bindings of a channel whose units are queued and worked off
/// by one worker, in the order in which they were queued.
pub struct EventRouterFilterBuilder<F: Formatter, O: Output> {
    router: LevelTable<EventRouter<F, O>>,
}

impl<F: Formatter, O: Output> EventRouterFilterBuilder<F, O> {
    pub closed spec fn bindings(&self) -> LevelTable<EventRouter<F, O>> {
        self.router
    }

    pub fn new() -> (builder: EventRouterFilterBuilder<F, O>)
        ensures
            builder.bindings().is_empty(),
    {
        EventRouterFilterBuilder { router: LevelTable::new() }
    }

    /// Binds what `router` holds as one more binding of the level that
    /// `level` names. `Off` names none and cannot be bound.
    pub fn add(&mut self, level: LogLevelFilter, router: &mut EventRouterBuilder<F, O>) -> (ret: &mut Self)
        requires
            level != LogLevelFilter::Off,
        ensures
            ({
                let key = level.level();
                let added = ret.bindings().bound(key).last();
                &&& ret.bindings().bound(key).len() == old(self).bindings().bound(key).len() + 1
                &&& ret.bindings().bound(key).drop_last() == old(self).bindings().bound(key)
                &&& added.renderer() == old(router).renderer()
                &&& added.sinks() == old(router).sinks()
            }),
            forall|key: Option<LogLevel>|
                key != level.level() ==> #[trigger] ret.bindings().bound(key) == old(
                    self,
                ).bindings().bound(key),
            *final(router) == *old(router),
            *final(self) == *final(ret),
    {
        let ghost before = self.router.bound(level.level());
        self.router.add(level.to_log_level(), router.build());
        assert(self.router.bound(level.level()).drop_last() =~= before);
        self
    }

    /// Binds what `router` holds as one more default binding.
    pub fn default(&mut self, router: &mut EventRouterBuilder<F, O>) -> (ret: &mut Self)
        ensures
            ({
                let added = ret.bindings().bound(None).last();
                &&& ret.bindings().bound(None).len() == old(self).bindings().bound(None).len() + 1
                &&& ret.bindings().bound(None).drop_last() == old(self).bindings().bound(None)
                &&& added.renderer() == old(router).renderer()
                &&& added.sinks() == old(router).sinks()
            }),
            forall|key: Option<LogLevel>|
                key.is_some() ==> #[trigger] ret.bindings().bound(key) == old(self).bindings().bound(key),
            *final(router) == *old(router),
            *final(self) == *final(ret),
    {
        let ghost before = self.router.bound(None);
        self.router.add(None, router.build());
        assert(self.router.bound(None).drop_last() =~= before);
        self
    }

    /// Whether a default binding was made, as `build` asks.
    pub fn has_default(&self) -> (b: bool)
        ensures
            b == self.bindings().has_default(),
    {
        self.router.default_is_bound()
    }

    /// Freezes the bindings and leaves the builder without any. Bindings
    /// without a default are a configuration error.
    pub fn build(&mut self) -> (table: RouterTable<F, O>)
        requires
            old(self).bindings().has_default(),
        ensures
            table.bindings() == old(self).bindings(),
            final(self).bindings().is_empty(),
    {
        let mut router: LevelTable<EventRouter<F, O>> = LevelTable::new();
        core::mem::swap(&mut self.router, &mut router);
        RouterTable::new(router)
    }
}

} // verus!
