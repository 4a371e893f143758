//! The router: policies registered by module and target, and their lookup.

use crate::level::LogLevelFilter;
use crate::policy::Channeled;
use crate::policy::LogExecute;
use crate::policy::LogExecuteBuilder;
use crate::record::LogRecord;
use crate::text::same_text;
use vstd::prelude::*;

verus! {

/// What a policy is registered for: a module, a target, or both.
pub struct Scope {
    pub module: Option<Seq<char>>,
    pub target: Option<Seq<char>>,
}

/// One registration of the router.
pub struct Registration<C: Channeled> {
    module: Option<String>,
    target: Option<String>,
    policy: LogExecute<C>,
}

impl<C: Channeled> Registration<C> {
    pub closed spec fn scope(&self) -> Scope {
        Scope {
            module: match self.module {
                Some(m) => Some(m@),
                None => None,
            },
            target: match self.target {
                Some(t) => Some(t@),
                None => None,
            },
        }
    }

    pub closed spec fn policy(&self) -> LogExecute<C> {
        self.policy
    }

    fn serves(&self, module: Option<&str>, target: Option<&str>) -> (b: bool)
        ensures
            b == (self.scope() == scope_of(module, target)),
    {
        let module_fits = match (&self.module, module) {
            (Some(own), Some(asked)) => same_text(own.as_str(), asked),
            (None, None) => true,
            _ => false,
        };
        let target_fits = match (&self.target, target) {
            (Some(own), Some(asked)) => same_text(own.as_str(), asked),
            (None, None) => true,
            _ => false,
        };
        module_fits && target_fits
    }
}

/// The scope of the given names.
pub open spec fn scope_of(module: Option<&str>, target: Option<&str>) -> Scope {
    Scope {
        module: match module {
            Some(m) => Some(m@),
            None => None,
        },
        target: match target {
            Some(t) => Some(t@),
            None => None,
        },
    }
}

/// The policies that `entries` register, by scope. A later registration for a
/// scope replaces an earlier one.
pub open spec fn index_of<C: Channeled>(entries: Seq<Registration<C>>) -> Map<Scope, LogExecute<C>>
    decreases entries.len(),
{
    if entries.len() == 0 {
        Map::empty()
    } else {
        index_of(entries.drop_last()).insert(entries.last().scope(), entries.last().policy())
    }
}

/// The policy that serves an event of `module` and `target`: the one
/// registered for both, else the one for the target alone, else the one for
/// the module alone, else the default.
pub open spec fn route<C: Channeled>(
    index: Map<Scope, LogExecute<C>>,
    default: LogExecute<C>,
    module: Seq<char>,
    target: Seq<char>,
) -> LogExecute<C> {
    let exact = Scope { module: Some(module), target: Some(target) };
    let by_target = Scope { module: None, target: Some(target) };
    let by_module = Scope { module: Some(module), target: None };
    if index.contains_key(exact) {
        index[exact]
    } else if index.contains_key(by_target) {
        index[by_target]
    } else if index.contains_key(by_module) {
        index[by_module]
    } else {
        default
    }
}

/// The most specific registration wins: one for module and target together
/// before one for the target alone, that before one for the module alone, and
/// the default policy where there is none of them.
pub proof fn lemma_route_priority<C: Channeled>(
    index: Map<Scope, LogExecute<C>>,
    default: LogExecute<C>,
    module: Seq<char>,
    target: Seq<char>,
)
    ensures
        ({
            let exact = Scope { module: Some(module), target: Some(target) };
            let by_target = Scope { module: None, target: Some(target) };
            let by_module = Scope { module: Some(module), target: None };
            let chosen = route(index, default, module, target);
            &&& index.contains_key(exact) ==> chosen == index[exact]
            &&& !index.contains_key(exact) && index.contains_key(by_target) ==> chosen
                == index[by_target]
            &&& !index.contains_key(exact) && !index.contains_key(by_target) && index.contains_key(
                by_module,
            ) ==> chosen == index[by_module]
            &&& !index.contains_key(exact) && !index.contains_key(by_target) && !index.contains_key(
                by_module,
            ) ==> chosen == default
        }),
{
}

fn find<'a, C: Channeled>(
    entries: &'a Vec<Registration<C>>,
    module: Option<&str>,
    target: Option<&str>,
) -> (found: Option<&'a LogExecute<C>>)
    ensures
        found is Some <==> index_of(entries@).contains_key(scope_of(module, target)),
        found matches Some(policy) ==> *policy == index_of(entries@)[scope_of(module, target)],
{
    let ghost scope = scope_of(module, target);
    let mut i: usize = entries.len();
    assert(entries@.take(i as int) =~= entries@);
    while i > 0
        invariant
            i <= entries@.len(),
            scope == scope_of(module, target),
            index_of(entries@).contains_key(scope) == index_of(entries@.take(i as int)).contains_key(
                scope,
            ),
            index_of(entries@).contains_key(scope) ==> index_of(entries@)[scope] == index_of(
                entries@.take(i as int),
            )[scope],
        decreases i,
    {
        let ghost scanned = entries@.take(i as int);
        assert(scanned.last() == entries@[i - 1]);
        assert(scanned.drop_last() =~= entries@.take(i - 1));
        if entries[i - 1].serves(module, target) {
            return Some(&entries[i - 1].policy);
        }
        i -= 1;
    }
    None
}

/// The frozen router. It always has a default policy.
pub struct Logger<C: Channeled> {
    default: LogExecute<C>,
    entries: Vec<Registration<C>>,
}

impl<C: Channeled> Logger<C> {
    /// The registered policies, by scope.
    pub closed spec fn index(&self) -> Map<Scope, LogExecute<C>> {
        index_of(self.entries@)
    }

    /// The default policy.
    pub closed spec fn fallback(&self) -> LogExecute<C> {
        self.default
    }

    /// The policy that serves an event of `module` and `target`.
    pub open spec fn resolved(&self, module: Seq<char>, target: Seq<char>) -> LogExecute<C> {
        route(self.index(), self.fallback(), module, target)
    }

    /// The policy registered for `module` and `target` together.
    pub fn find_exact(&self, module: &str, target: &str) -> (found: Option<&LogExecute<C>>)
        ensures
            found is Some <==> self.index().contains_key(scope_of(Some(module), Some(target))),
            found matches Some(policy) ==> *policy == self.index()[scope_of(Some(module), Some(target))],
    {
        find(&self.entries, Some(module), Some(target))
    }

    /// The policy registered for `target` alone.
    pub fn find_target(&self, target: &str) -> (found: Option<&LogExecute<C>>)
        ensures
            found is Some <==> self.index().contains_key(scope_of(None, Some(target))),
            found matches Some(policy) ==> *policy == self.index()[scope_of(None, Some(target))],
    {
        find(&self.entries, None, Some(target))
    }

    /// The policy registered for `module` alone.
    pub fn find_module(&self, module: &str) -> (found: Option<&LogExecute<C>>)
        ensures
            found is Some <==> self.index().contains_key(scope_of(Some(module), None)),
            found matches Some(policy) ==> *policy == self.index()[scope_of(Some(module), None)],
    {
        find(&self.entries, Some(module), None)
    }

    /// The default policy.
    pub fn find_default(&self) -> (found: Option<&LogExecute<C>>)
        ensures
            found == Some(&self.fallback()),
    {
        Some(&self.default)
    }

    /// Selects the policy for an event of `module` and `target`, the most
    /// specific registration first.
    pub fn resolve(&self, module: &str, target: &str) -> (policy: &LogExecute<C>)
        ensures
            *policy == self.resolved(module@, target@),
    {
        match self.find_exact(module, target) {
            Some(policy) => policy,
            None => match self.find_target(target) {
                Some(policy) => policy,
                None => match self.find_module(module) {
                    Some(policy) => policy,
                    None => &self.default,
                },
            },
        }
    }

    /// Routes `record` to its policy and lets the policy dispatch it. Returns
    /// the number of channels that received the event.
    pub fn control(&self, record: &LogRecord) -> (sent: usize)
        ensures
            sent == self.resolved(record@.location.module, record@.target).receivers(record@).len(),
    {
        let policy = self.resolve(record.location().module(), record.target());
        policy.control(record)
    }
}

/// Assembles a router.
pub struct LoggerBuilder<C: Channeled> {
    default: Option<LogExecute<C>>,
    entries: Vec<Registration<C>>,
    max_level: LogLevelFilter,
}

impl<C: Channeled> LoggerBuilder<C> {
    /// The policies registered so far, by scope.
    pub closed spec fn index(&self) -> Map<Scope, LogExecute<C>> {
        index_of(self.entries@)
    }

    /// The default policy, once one was registered.
    pub closed spec fn fallback(&self) -> Option<LogExecute<C>> {
        self.default
    }

    /// The most verbose level that the logger is to be asked for.
    pub closed spec fn ceiling(&self) -> LogLevelFilter {
        self.max_level
    }

    pub fn new() -> (builder: Self)
        ensures
            builder.index() == Map::<Scope, LogExecute<C>>::empty(),
            builder.fallback().is_none(),
            builder.ceiling() == LogLevelFilter::Trace,
    {
        LoggerBuilder { default: None, entries: Vec::new(), max_level: LogLevelFilter::Trace }
    }

    fn register(&mut self, module: Option<String>, target: Option<String>, policy: LogExecute<C>)
        ensures
            final(self).index() == old(self).index().insert(
                Scope {
                    module: match module {
                        Some(m) => Some(m@),
                        None => None,
                    },
                    target: match target {
                        Some(t) => Some(t@),
                        None => None,
                    },
                },
                policy,
            ),
            final(self).fallback() == old(self).fallback(),
            final(self).ceiling() == old(self).ceiling(),
    {
        let ghost before = self.entries@;
        let entry = Registration { module, target, policy };
        self.entries.push(entry);
        assert(self.entries@.drop_last() =~= before);
    }

    /// Registers the policy that `builder` holds as the default policy, in
    /// place of an earlier one, and leaves `builder` empty.
    pub fn default(&mut self, builder: &mut LogExecuteBuilder<C>) -> (ret: &mut Self)
        requires
            old(builder).bindings().has_default(),
        ensures
            ret.fallback() matches Some(policy) && policy.bindings() == old(builder).bindings()
                && policy.rules() == old(builder).rules(),
            ret.index() == old(self).index(),
            ret.ceiling() == old(self).ceiling(),
            final(builder).bindings().is_empty(),
            final(builder).rules().len() == 0,
            *final(self) == *final(ret),
    {
        self.default = Some(builder.build());
        self
    }

    /// Registers the policy that `builder` holds for the events of `target`
    /// from any module, and leaves `builder` empty.
    pub fn target(&mut self, target: &str, builder: &mut LogExecuteBuilder<C>) -> (ret: &mut Self)
        requires
            old(builder).bindings().has_default(),
        ensures
            ({
                let scope = Scope { module: None, target: Some(target@) };
                &&& ret.index().contains_key(scope)
                &&& ret.index()[scope].bindings() == old(builder).bindings()
                &&& ret.index()[scope].rules() == old(builder).rules()
                &&& ret.index().remove(scope) == old(self).index().remove(scope)
            }),
            ret.fallback() == old(self).fallback(),
            ret.ceiling() == old(self).ceiling(),
            final(builder).bindings().is_empty(),
            final(builder).rules().len() == 0,
            *final(self) == *final(ret),
    {
        let ghost scope = Scope { module: None, target: Some(target@) };
        let policy = builder.build();
        self.register(None, Some(target.to_owned()), policy);
        assert(self.index().remove(scope) =~= old(self).index().remove(scope));
        self
    }

    /// Registers the policy that `builder` holds for the events of `module`
    /// with any target, and leaves `builder` empty.
    pub fn module(&mut self, module: &str, builder: &mut LogExecuteBuilder<C>) -> (ret: &mut Self)
        requires
            old(builder).bindings().has_default(),
        ensures
            ({
                let scope = Scope { module: Some(module@), target: None };
                &&& ret.index().contains_key(scope)
                &&& ret.index()[scope].bindings() == old(builder).bindings()
                &&& ret.index()[scope].rules() == old(builder).rules()
                &&& ret.index().remove(scope) == old(self).index().remove(scope)
            }),
            ret.fallback() == old(self).fallback(),
            ret.ceiling() == old(self).ceiling(),
            final(builder).bindings().is_empty(),
            final(builder).rules().len() == 0,
            *final(self) == *final(ret),
    {
        let ghost scope = Scope { module: Some(module@), target: None };
        let policy = builder.build();
        self.register(Some(module.to_owned()), None, policy);
        assert(self.index().remove(scope) =~= old(self).index().remove(scope));
        self
    }

    /// Registers the policy that `builder` holds for the events of `module`
    /// and `target` together, and leaves `builder` empty.
    pub fn exact(&mut self, module: &str, target: &str, builder: &mut LogExecuteBuilder<C>) -> (ret:
        &mut Self)
        requires
            old(builder).bindings().has_default(),
        ensures
            ({
                let scope = Scope { module: Some(module@), target: Some(target@) };
                &&& ret.index().contains_key(scope)
                &&& ret.index()[scope].bindings() == old(builder).bindings()
                &&& ret.index()[scope].rules() == old(builder).rules()
                &&& ret.index().remove(scope) == old(self).index().remove(scope)
            }),
            ret.fallback() == old(self).fallback(),
            ret.ceiling() == old(self).ceiling(),
            final(builder).bindings().is_empty(),
            final(builder).rules().len() == 0,
            *final(self) == *final(ret),
    {
        let ghost scope = Scope { module: Some(module@), target: Some(target@) };
        let policy = builder.build();
        self.register(Some(module.to_owned()), Some(target.to_owned()), policy);
        assert(self.index().remove(scope) =~= old(self).index().remove(scope));
        self
    }

    /// Sets the most verbose level that the logger is to be asked for.
    pub fn set_max_logger(&mut self, max: LogLevelFilter) -> (ret: &mut Self)
        ensures
            ret.ceiling() == max,
            ret.index() == old(self).index(),
            ret.fallback() == old(self).fallback(),
            *final(self) == *final(ret),
    {
        self.max_level = max;
        self
    }

    pub fn max_level(&self) -> (max: LogLevelFilter)
        ensures
            max == self.ceiling(),
    {
        self.max_level
    }

    /// Whether a default policy is registered, as `build` asks.
    pub fn has_default(&self) -> (b: bool)
        ensures
            b == self.fallback().is_some(),
    {
        self.default.is_some()
    }

    /// Freezes what was assembled into a router and leaves the builder
    /// without registrations. A router without a default policy is a
    /// configuration error.
    pub fn build(&mut self) -> (logger: Logger<C>)
        requires
            old(self).fallback().is_some(),
        ensures
            logger.index() == old(self).index(),
            Some(logger.fallback()) == old(self).fallback(),
            final(self).index() == Map::<Scope, LogExecute<C>>::empty(),
            final(self).fallback().is_none(),
            final(self).ceiling() == old(self).ceiling(),
    {
        let mut entries: Vec<Registration<C>> = Vec::new();
        core::mem::swap(&mut self.entries, &mut entries);
        let default = self.default.take().unwrap();
        Logger { default, entries }
    }
}

} // verus!
