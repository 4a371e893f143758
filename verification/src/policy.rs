//! Execution policies: which events pass, and which channels receive them.

use crate::clock::Timestamp;
use crate::level::LevelTable;
use crate::level::LogLevel;
use crate::level::LogLevelFilter;
use crate::record::entry_of;
use crate::record::LogEntry;
use crate::record::LogRecord;
use crate::record::RecordView;
use crate::share::share;
use crate::text::has_prefix;
use crate::text::same_text;
use crate::text::starts_with;
use std::sync::Arc;
use vstd::prelude::*;

verus! {

/// The delivery mechanism between a policy and output sinks. `send` hands one
/// event over; nothing comes back, and nothing is known of the delivery.
pub trait Channeled: Send + Sync {
    fn send(&self, strings: Arc<LogEntry>);
}

/// A rule on which events pass: a scope and a threshold. A directive without
/// a scope name covers every event; one with a name covers the events whose
/// target begins with the name.
#[derive(Debug)]
pub struct LogDirective {
    name: Option<String>,
    level: LogLevelFilter,
}

pub struct DirectiveView {
    pub name: Option<Seq<char>>,
    pub level: LogLevelFilter,
}

impl View for LogDirective {
    type V = DirectiveView;

    closed spec fn view(&self) -> DirectiveView {
        DirectiveView {
            name: match self.name {
                Some(n) => Some(n@),
                None => None,
            },
            level: self.level,
        }
    }
}

impl DirectiveView {
    /// Whether the directive's scope holds an event of `target`.
    pub open spec fn covers(self, target: Seq<char>) -> bool {
        match self.name {
            Some(n) => starts_with(target, n),
            None => true,
        }
    }
}

/// The views of `directives`, one for one.
pub open spec fn directive_views(directives: Seq<LogDirective>) -> Seq<DirectiveView> {
    Seq::new(directives.len(), |i: int| directives[i]@)
}

/// Whether an event of `level` and `target` passes the directives. The last
/// directive that covers the event decides: the event passes where its level
/// is at or below the directive's threshold. Where no directive covers it, and
/// so where there is none at all, the event is dropped.
pub open spec fn verdict(directives: Seq<DirectiveView>, target: Seq<char>, level: LogLevel) -> bool
    decreases directives.len(),
{
    if directives.len() == 0 {
        false
    } else if directives.last().covers(target) {
        level.within(directives.last().level)
    } else {
        verdict(directives.drop_last(), target, level)
    }
}

impl LogDirective {
    pub fn new(name: Option<String>, level: LogLevelFilter) -> (directive: LogDirective)
        ensures
            directive@.level == level,
            directive@.name == match name {
                Some(n) => Some(n@),
                None => None,
            },
    {
        LogDirective { name, level }
    }

    pub fn level(&self) -> (level: LogLevelFilter)
        ensures
            level == self@.level,
    {
        self.level
    }

    /// Whether the directive's scope holds an event of `target`.
    pub fn covers(&self, target: &str) -> (b: bool)
        ensures
            b == self@.covers(target@),
    {
        match &self.name {
            Some(n) => has_prefix(target, n.as_str()),
            None => true,
        }
    }
}

impl Clone for LogDirective {
    fn clone(&self) -> (copy: Self)
        ensures
            copy@ == self@,
    {
        LogDirective { name: self.name.clone(), level: self.level }
    }
}

impl PartialEq for LogDirective {
    fn eq(&self, other: &LogDirective) -> (same: bool) {
        let names = match (&self.name, &other.name) {
            (Some(a), Some(b)) => same_text(a.as_str(), b.as_str()),
            (None, None) => true,
            _ => false,
        };
        names && self.level == other.level
    }
}

impl vstd::std_specs::cmp::PartialEqSpecImpl for LogDirective {
    open spec fn obeys_eq_spec() -> bool {
        true
    }

    open spec fn eq_spec(&self, other: &LogDirective) -> bool {
        self@ == other@
    }
}

/// Decides whether an event of `level` and `target` passes `directives`.
pub fn passes(directives: &Vec<LogDirective>, target: &str, level: LogLevel) -> (pass: bool)
    ensures
        pass == verdict(directive_views(directives@), target@, level),
{
    let mut i: usize = directives.len();
    assert(directive_views(directives@).take(i as int) =~= directive_views(directives@));
    while i > 0
        invariant
            i <= directives@.len(),
            verdict(directive_views(directives@), target@, level) == verdict(
                directive_views(directives@).take(i as int),
                target@,
                level,
            ),
        decreases i,
    {
        let ghost scanned = directive_views(directives@).take(i as int);
        assert(scanned.last() == directives@[i - 1]@);
        assert(scanned.drop_last() =~= directive_views(directives@).take(i - 1));
        if directives[i - 1].covers(target) {
            return level.is_within(directives[i - 1].level());
        }
        i -= 1;
    }
    false
}

/// The most recently registered directive is consulted first: where it covers
/// the event, it alone decides, whatever was registered before it.
pub proof fn lemma_last_directive_decides(
    earlier: Seq<DirectiveView>,
    last: DirectiveView,
    target: Seq<char>,
    level: LogLevel,
)
    requires
        last.covers(target),
    ensures
        verdict(earlier.push(last), target, level) == level.within(last.level),
{
    assert(earlier.push(last).last() == last);
}

/// A directive that does not cover the event leaves the decision to those
/// registered before it.
pub proof fn lemma_uncovering_directive_is_skipped(
    earlier: Seq<DirectiveView>,
    last: DirectiveView,
    target: Seq<char>,
    level: LogLevel,
)
    requires
        !last.covers(target),
    ensures
        verdict(earlier.push(last), target, level) == verdict(earlier, target, level),
{
    assert(earlier.push(last).last() == last);
    assert(earlier.push(last).drop_last() =~= earlier);
}

/// Thresholds are closed downwards: where an event passes, every event of
/// the same target that is less severe passes too.
pub proof fn lemma_less_severe_passes_too(
    directives: Seq<DirectiveView>,
    target: Seq<char>,
    level: LogLevel,
    milder: LogLevel,
)
    requires
        verdict(directives, target, level),
        milder.severity() <= level.severity(),
    ensures
        verdict(directives, target, milder),
    decreases directives.len(),
{
    if directives.len() > 0 && !directives.last().covers(target) {
        lemma_less_severe_passes_too(directives.drop_last(), target, level, milder);
    }
}

/// An event passes only where some directive covers it whose threshold is at
/// least as severe as the event.
pub proof fn lemma_passing_needs_a_directive(
    directives: Seq<DirectiveView>,
    target: Seq<char>,
    level: LogLevel,
)
    requires
        verdict(directives, target, level),
    ensures
        exists|i: int|
            0 <= i < directives.len() && (#[trigger] directives[i]).covers(target) && level.within(
                directives[i].level,
            ),
    decreases directives.len(),
{
    if directives.last().covers(target) {
        assert(directives[directives.len() - 1].covers(target));
    } else {
        lemma_passing_needs_a_directive(directives.drop_last(), target, level);
        let i = choose|i: int|
            0 <= i < directives.drop_last().len() && (#[trigger] directives.drop_last()[i]).covers(target)
                && level.within(directives.drop_last()[i].level);
        assert(directives[i] == directives.drop_last()[i]);
    }
}

/// A frozen policy: the channels bound to each level, the default channels,
/// and the directives. It always has at least one default channel.
pub struct LogExecute<C: Channeled> {
    channels: LevelTable<Arc<C>>,
    directives: Vec<LogDirective>,
}

impl<C: Channeled> LogExecute<C> {
    #[verifier::type_invariant]
    spec fn well_formed(self) -> bool {
        self.channels.has_default()
    }

    /// The channel bindings of the policy.
    pub closed spec fn bindings(&self) -> LevelTable<Arc<C>> {
        self.channels
    }

    /// The directives of the policy, in the order of their registration.
    pub closed spec fn rules(&self) -> Seq<DirectiveView> {
        directive_views(self.directives@)
    }

    /// Whether the policy lets `record` pass.
    pub open spec fn admits(&self, record: RecordView) -> bool {
        verdict(self.rules(), record.target, record.level)
    }

    /// The channels that receive `record`: none where the directives drop it,
    /// and else those bound to its level, or the default ones where its level
    /// has none.
    pub open spec fn receivers(&self, record: RecordView) -> Seq<Arc<C>> {
        if self.admits(record) {
            self.bindings().selected(record.level)
        } else {
            Seq::empty()
        }
    }

    /// Decides whether `record` passes the directives.
    pub fn accepts(&self, record: &LogRecord) -> (pass: bool)
        ensures
            pass == self.admits(record@),
    {
        passes(&self.directives, record.target(), record.level())
    }

    /// The channels bound to `level`, or the default ones where it has none.
    /// There is always at least one.
    pub fn select(&self, level: LogLevel) -> (list: &Vec<Arc<C>>)
        ensures
            list@ == self.bindings().selected(level),
            list@.len() > 0,
    {
        proof {
            use_type_invariant(self);
        }
        self.channels.select(level)
    }

    /// The default channels. There is always at least one.
    pub fn default_channels(&self) -> (list: &Vec<Arc<C>>)
        ensures
            list@ == self.bindings().bound(None),
            list@.len() > 0,
    {
        proof {
            use_type_invariant(self);
        }
        self.channels.get(None)
    }

    /// Decides where `record` goes: nowhere (`None`) where the directives
    /// drop it, and else to the channels bound to its level, or to the
    /// default ones where its level has none.
    pub fn destinations(&self, record: &LogRecord) -> (found: Option<&Vec<Arc<C>>>)
        ensures
            found is Some <==> self.admits(record@),
            found matches Some(list) ==> list@ == self.receivers(record@) && list@.len() > 0,
    {
        if self.accepts(record) {
            Some(self.select(record.level()))
        } else {
            None
        }
    }

    /// Sends the event of `record`, created at `time`, to each channel that
    /// receives it, in the order of their binding, and returns how many
    /// channels that were.
    pub fn control_at(&self, record: &LogRecord, time: Timestamp) -> (sent: usize)
        ensures
            sent == self.receivers(record@).len(),
            self.admits(record@) <==> sent > 0,
    {
        match self.destinations(record) {
            None => 0,
            Some(channels) => {
                let entry = Arc::new(LogEntry::from_record(record, time));
                let mut i: usize = 0;
                while i < channels.len()
                    invariant
                        i <= channels@.len(),
                        entry@ == entry_of(record@, time@),
                    decreases channels@.len() - i,
                {
                    channels[i].send(share(&entry));
                    i += 1;
                }
                i
            },
        }
    }

    /// Sends the event of `record`, created now, to each channel that
    /// receives it, and returns how many channels that were.
    pub fn control(&self, record: &LogRecord) -> (sent: usize)
        ensures
            sent == self.receivers(record@).len(),
            self.admits(record@) <==> sent > 0,
    {
        self.control_at(record, Timestamp::now())
    }
}

/// Assembles a policy.
pub struct LogExecuteBuilder<C: Channeled> {
    channels: LevelTable<Arc<C>>,
    directives: Vec<LogDirective>,
}

impl<C: Channeled> LogExecuteBuilder<C> {
    /// The channel bindings made so far.
    pub closed spec fn bindings(&self) -> LevelTable<Arc<C>> {
        self.channels
    }

    /// The directives registered so far, in order.
    pub closed spec fn rules(&self) -> Seq<DirectiveView> {
        directive_views(self.directives@)
    }

    pub fn new() -> (builder: LogExecuteBuilder<C>)
        ensures
            builder.bindings().is_empty(),
            builder.rules().len() == 0,
    {
        LogExecuteBuilder { channels: LevelTable::new(), directives: Vec::new() }
    }

    /// Binds `channeled` as one more default channel.
    pub fn default_channels(&mut self, channeled: Arc<C>) -> (ret: &mut Self)
        ensures
            ret.bindings().bound(None) == old(self).bindings().bound(None).push(channeled),
            forall|key: Option<LogLevel>|
                key.is_some() ==> #[trigger] ret.bindings().bound(key) == old(self).bindings().bound(key),
            ret.rules() == old(self).rules(),
            *final(self) == *final(ret),
    {
        self.channels.add(None, channeled);
        self
    }

    /// Binds `channeled` as one more channel of the level that `level` names.
    /// `Off` names none and cannot be bound.
    pub fn add_channels(&mut self, level: LogLevelFilter, channeled: Arc<C>) -> (ret: &mut Self)
        requires
            level != LogLevelFilter::Off,
        ensures
            ret.bindings().bound(level.level()) == old(self).bindings().bound(level.level()).push(
                channeled,
            ),
            forall|key: Option<LogLevel>|
                key != level.level() ==> #[trigger] ret.bindings().bound(key) == old(
                    self,
                ).bindings().bound(key),
            ret.rules() == old(self).rules(),
            *final(self) == *final(ret),
    {
        self.channels.add(level.to_log_level(), channeled);
        self
    }

    /// Registers one more directive; it is consulted before all earlier ones.
    pub fn directive(&mut self, name: Option<String>, level: LogLevelFilter) -> (ret: &mut Self)
        ensures
            ret.rules() == old(self).rules().push(
                DirectiveView {
                    name: match name {
                        Some(n) => Some(n@),
                        None => None,
                    },
                    level,
                },
            ),
            ret.bindings() == old(self).bindings(),
            *final(self) == *final(ret),
    {
        let ghost before = directive_views(self.directives@);
        let d = LogDirective::new(name, level);
        self.directives.push(d);
        assert(directive_views(self.directives@) =~= before.push(d@));
        self
    }

    /// Whether a default channel is bound, as `build` asks.
    pub fn has_default(&self) -> (b: bool)
        ensures
            b == self.bindings().has_default(),
    {
        self.channels.default_is_bound()
    }

    /// Freezes what was assembled into a policy and leaves the builder empty.
    /// A policy without a default channel is a configuration error.
    pub fn build(&mut self) -> (policy: LogExecute<C>)
        requires
            old(self).bindings().has_default(),
        ensures
            policy.bindings() == old(self).bindings(),
            policy.rules() == old(self).rules(),
            final(self).bindings().is_empty(),
            final(self).rules().len() == 0,
    {
        let mut channels: LevelTable<Arc<C>> = LevelTable::new();
        let mut directives: Vec<LogDirective> = Vec::new();
        core::mem::swap(&mut self.channels, &mut channels);
        core::mem::swap(&mut self.directives, &mut directives);
        LogExecute { channels, directives }
    }
}

} // verus!
