//! Channels: from one event to the units of work that deliver it.

use crate::format::Formatter;
use crate::level::LevelTable;
use crate::level::LogLevel;
use crate::level::LogLevelFilter;
use crate::output::Output;
use crate::policy::Channeled;
use crate::record::LogEntry;
use crate::share::share;
use std::sync::Arc;
use vstd::prelude::*;

pub mod single_channel;

verus! {

/// One unit of dispatch work: an event, the sink that is to receive it, and
/// the formatter that renders it for that sink.
pub struct OutputEntry<F: Formatter, O: Output> {
    pub entry: Arc<LogEntry>,
    pub output: Arc<O>,
    pub formatter: Arc<F>,
}

impl<F: Formatter, O: Output> OutputEntry<F, O> {
    /// The text that the unit delivers.
    pub fn text(&self) -> (data: String)
        ensures
            data@ == self.formatter.rendering(self.entry@),
    {
        self.formatter.parse(&self.entry)
    }

    /// Does the unit's work: renders the event and pushes the text to the
    /// sink, once.
    pub fn work(&self) {
        let data = self.text();
        self.output.push(data.as_str());
    }
}

/// One output binding: a formatter and the sinks that it renders for.
pub struct EventRouter<F: Formatter, O: Output> {
    formatter: Arc<F>,
    output: Vec<Arc<O>>,
}

/// The units that deliver `record` to `sinks` through `formatter`: one for
/// each sink, in the order of the sinks.
pub open spec fn units_for<F: Formatter, O: Output>(
    formatter: Arc<F>,
    sinks: Seq<Arc<O>>,
    record: Arc<LogEntry>,
) -> Seq<OutputEntry<F, O>> {
    Seq::new(sinks.len(), |i: int| OutputEntry { entry: record, output: sinks[i], formatter })
}

/// The units that deliver `record` through each of `routers` in turn.
pub open spec fn fan_out<F: Formatter, O: Output>(
    routers: Seq<EventRouter<F, O>>,
    record: Arc<LogEntry>,
) -> Seq<OutputEntry<F, O>>
    decreases routers.len(),
{
    if routers.len() == 0 {
        Seq::empty()
    } else {
        fan_out(routers.drop_last(), record) + routers.last().planned(record)
    }
}

/// The number of sinks that `routers` bind, each counted as often as it is
/// bound.
pub open spec fn sink_count<F: Formatter, O: Output>(routers: Seq<EventRouter<F, O>>) -> nat
    decreases routers.len(),
{
    if routers.len() == 0 {
        0
    } else {
        sink_count(routers.drop_last()) + routers.last().sinks().len()
    }
}

impl<F: Formatter, O: Output> EventRouter<F, O> {
    pub closed spec fn renderer(&self) -> Arc<F> {
        self.formatter
    }

    pub closed spec fn sinks(&self) -> Seq<Arc<O>> {
        self.output@
    }

    /// The units that deliver `record` through this binding.
    pub open spec fn planned(&self, record: Arc<LogEntry>) -> Seq<OutputEntry<F, O>> {
        units_for(self.renderer(), self.sinks(), record)
    }

    /// Makes the units of work that deliver `record`: one for each sink of
    /// the binding, in order, each with the binding's formatter.
    pub fn gateway(&self, record: &Arc<LogEntry>) -> (units: Vec<OutputEntry<F, O>>)
        ensures
            units@ == self.planned(*record),
            units@.len() == self.sinks().len(),
    {
        let mut units: Vec<OutputEntry<F, O>> = Vec::new();
        let mut i: usize = 0;
        while i < self.output.len()
            invariant
                i <= self.output@.len(),
                units@ == units_for(self.formatter, self.output@.take(i as int), *record),
            decreases self.output@.len() - i,
        {
            let unit = OutputEntry {
                entry: share(record),
                output: share(&self.output[i]),
                formatter: share(&self.formatter),
            };
            units.push(unit);
            assert(units@ =~= units_for(self.formatter, self.output@.take(i + 1), *record));
            i += 1;
        }
        assert(self.output@.take(i as int) =~= self.output@);
        units
    }
}

/// Assembles an output binding.
pub struct EventRouterBuilder<F: Formatter, O: Output> {
    formatter: Arc<F>,
    output: Vec<Arc<O>>,
}

impl<F: Formatter, O: Output> EventRouterBuilder<F, O> {
    pub closed spec fn renderer(&self) -> Arc<F> {
        self.formatter
    }

    pub closed spec fn sinks(&self) -> Seq<Arc<O>> {
        self.output@
    }

    pub fn new(formater: Arc<F>) -> (builder: Self)
        ensures
            builder.renderer() == formater,
            builder.sinks().len() == 0,
    {
        EventRouterBuilder { formatter: formater, output: Vec::new() }
    }

    /// Binds one more sink.
    pub fn add(&mut self, output: Arc<O>) -> (ret: &mut Self)
        ensures
            ret.sinks() == old(self).sinks().push(output),
            ret.renderer() == old(self).renderer(),
            *final(self) == *final(ret),
    {
        self.output.push(output);
        self
    }

    /// The binding assembled so far. The builder keeps what it holds.
    pub fn build(&mut self) -> (router: EventRouter<F, O>)
        ensures
            router.renderer() == old(self).renderer(),
            router.sinks() == old(self).sinks(),
            *final(self) == *old(self),
    {
        let mut output: Vec<Arc<O>> = Vec::new();
        let mut i: usize = 0;
        while i < self.output.len()
            invariant
                i <= self.output@.len(),
                output@ == self.output@.take(i as int),
            decreases self.output@.len() - i,
        {
            output.push(share(&self.output[i]));
            assert(output@ =~= self.output@.take(i + 1));
            i += 1;
        }
        assert(self.output@.take(i as int) =~= self.output@);
        EventRouter { formatter: share(&self.formatter), output }
    }
}

/// Each sink that `routers` bind gets exactly one unit.
pub proof fn lemma_fan_out_count<F: Formatter, O: Output>(
    routers: Seq<EventRouter<F, O>>,
    record: Arc<LogEntry>,
)
    ensures
        fan_out(routers, record).len() == sink_count(routers),
    decreases routers.len(),
{
    if routers.len() > 0 {
        lemma_fan_out_count(routers.drop_last(), record);
    }
}

/// The frozen bindings of a channel, by level. There is always at least one
/// default binding.
pub struct RouterTable<F: Formatter, O: Output> {
    router: LevelTable<EventRouter<F, O>>,
}

impl<F: Formatter, O: Output> RouterTable<F, O> {
    #[verifier::type_invariant]
    spec fn well_formed(self) -> bool {
        self.router.has_default()
    }

    pub closed spec fn bindings(&self) -> LevelTable<EventRouter<F, O>> {
        self.router
    }

    /// The units that deliver `data`: those of the bindings of its level, or
    /// of the default bindings where its level has none.
    pub open spec fn planned(&self, data: Arc<LogEntry>) -> Seq<OutputEntry<F, O>> {
        fan_out(self.bindings().selected(data@.level), data)
    }

    /// Freezes `router`. Bindings without a default are a configuration
    /// error.
    pub fn new(router: LevelTable<EventRouter<F, O>>) -> (table: Self)
        requires
            router.has_default(),
        ensures
            table.bindings() == router,
    {
        RouterTable { router }
    }

    /// The bindings that serve `level`. There is always at least one.
    pub fn select(&self, level: LogLevel) -> (routers: &Vec<EventRouter<F, O>>)
        ensures
            routers@ == self.bindings().selected(level),
            routers@.len() > 0,
    {
        proof {
            use_type_invariant(self);
        }
        self.router.select(level)
    }

    /// Makes the units of work that deliver `data`, in the order of the
    /// bindings and, within one binding, of its sinks. Each bound sink gets
    /// exactly one unit.
    pub fn units(&self, data: &Arc<LogEntry>) -> (units: Vec<OutputEntry<F, O>>)
        ensures
            units@ == self.planned(*data),
            units@.len() == sink_count(self.bindings().selected(data@.level)),
    {
        let routers = self.select(data.level());
        let mut units: Vec<OutputEntry<F, O>> = Vec::new();
        let mut i: usize = 0;
        assert(routers@.take(0) =~= Seq::<EventRouter<F, O>>::empty());
        while i < routers.len()
            invariant
                i <= routers@.len(),
                units@ == fan_out(routers@.take(i as int), *data),
            decreases routers@.len() - i,
        {
            let mut more = routers[i].gateway(data);
            units.append(&mut more);
            proof {
                assert(routers@.take(i + 1).drop_last() =~= routers@.take(i as int));
                assert(routers@.take(i + 1).last() == routers@[i as int]);
            }
            i += 1;
        }
        proof {
            assert(routers@.take(i as int) =~= routers@);
            lemma_fan_out_count(routers@, *data);
        }
        units
    }
}

/// A channel that delivers on the calling thread: `send` renders the event
/// for each sink and pushes it before it returns, in the order of the units.
pub struct SyncChannel<F: Formatter, O: Output> {
    router: RouterTable<F, O>,
}

impl<F: Formatter, O: Output> SyncChannel<F, O> {
    pub closed spec fn table(&self) -> RouterTable<F, O> {
        self.router
    }

    pub fn new(router: RouterTable<F, O>) -> (channel: Self)
        ensures
            channel.table() == router,
    {
        SyncChannel { router }
    }

    /// Delivers `data` to every sink that is bound for it and returns the
    /// number of pushes made: one for each such sink.
    pub fn deliver(&self, data: &Arc<LogEntry>) -> (pushed: usize)
        ensures
            pushed == sink_count(self.table().bindings().selected(data@.level)),
    {
        let units = self.router.units(data);
        let mut i: usize = 0;
        while i < units.len()
            invariant
                i <= units@.len(),
            decreases units@.len() - i,
        {
            units[i].work();
            i += 1;
        }
        i
    }
}

impl<F: Formatter, O: Output> Channeled for SyncChannel<F, O> {
    fn send(&self, strings: Arc<LogEntry>) {
        let _ = self.deliver(&strings);
    }
}

/// Assembles the bindings of a channel that hands its units to a pool of
/// worker threads.
pub struct EventPoolBuilder<F: Formatter, O: Output> {
    router: LevelTable<EventRouter<F, O>>,
    worker: usize,
}

impl<F: Formatter, O: Output> EventPoolBuilder<F, O> {
    pub closed spec fn bindings(&self) -> LevelTable<EventRouter<F, O>> {
        self.router
    }

    /// The number of workers asked for; zero asks for the default number.
    pub closed spec fn workers(&self) -> usize {
        self.worker
    }

    pub fn new(worker_num: usize) -> (builder: EventPoolBuilder<F, O>)
        ensures
            builder.bindings().is_empty(),
            builder.workers() == worker_num,
    {
        EventPoolBuilder { router: LevelTable::new(), worker: worker_num }
    }

    /// Binds what `router` holds as one more binding of the level that
    /// `level` names. `Off` names none and cannot be bound.
    pub fn add(&mut self, level: LogLevelFilter, router: &mut EventRouterBuilder<F, O>) -> (ret: &mut Self)
        requires
            level != LogLevelFilter::Off,
        ensures
            ({
                let key = level.level();
                let added = ret.bindings().bound(key).last();
                &&& ret.bindings().bound(key).len() == old(self).bindings().bound(key).len() + 1
                &&& ret.bindings().bound(key).drop_last() == old(self).bindings().bound(key)
                &&& added.renderer() == old(router).renderer()
                &&& added.sinks() == old(router).sinks()
            }),
            forall|key: Option<LogLevel>|
                key != level.level() ==> #[trigger] ret.bindings().bound(key) == old(
                    self,
                ).bindings().bound(key),
            ret.workers() == old(self).workers(),
            *final(router) == *old(router),
            *final(self) == *final(ret),
    {
        let ghost before = self.router.bound(level.level());
        self.router.add(level.to_log_level(), router.build());
        assert(self.router.bound(level.level()).drop_last() =~= before);
        self
    }

    /// Binds what `router` holds as one more default binding.
    pub fn default(&mut self, router: &mut EventRouterBuilder<F, O>) -> (ret: &mut Self)
        ensures
            ({
                let added = ret.bindings().bound(None).last();
                &&& ret.bindings().bound(None).len() == old(self).bindings().bound(None).len() + 1
                &&& ret.bindings().bound(None).drop_last() == old(self).bindings().bound(None)
                &&& added.renderer() == old(router).renderer()
                &&& added.sinks() == old(router).sinks()
            }),
            forall|key: Option<LogLevel>|
                key.is_some() ==> #[trigger] ret.bindings().bound(key) == old(self).bindings().bound(key),
            ret.workers() == old(self).workers(),
            *final(router) == *old(router),
            *final(self) == *final(ret),
    {
        let ghost before = self.router.bound(None);
        self.router.add(None, router.build());
        assert(self.router.bound(None).drop_last() =~= before);
        self
    }

    /// Whether a default binding was made, as `build` asks.
    pub fn has_default(&self) -> (b: bool)
        ensures
            b == self.bindings().has_default(),
    {
        self.router.default_is_bound()
    }

    /// The size of the pool to create: the number of workers asked for, or
    /// `None` for the default number where zero was given.
    pub fn pool_size(&self) -> (size: Option<usize>)
        ensures
            size == if self.workers() == 0 {
                None
            } else {
                Some(self.workers())
            },
    {
        if self.worker == 0 {
            None
        } else {
            Some(self.worker)
        }
    }

    /// Freezes the bindings and leaves the builder without any. Bindings
    /// without a default are a configuration error.
    pub fn build(&mut self) -> (table: RouterTable<F, O>)
        requires
            old(self).bindings().has_default(),
        ensures
            table.bindings() == old(self).bindings(),
            final(self).bindings().is_empty(),
            final(self).workers() == old(self).workers(),
    {
        let mut router: LevelTable<EventRouter<F, O>> = LevelTable::new();
        core::mem::swap(&mut self.router, &mut router);
        RouterTable::new(router)
    }
}

} // verus!
