//! Configuration of the trace events that the logging subsystem reports.

use vstd::prelude::*;

verus! {

/// A category of trace events that can be switched on or off from the
/// command line.
#[derive(Clone, Copy, Debug, PartialEq, Eq, Hash, Structural)]
pub enum TraceEvent {
    /// Parsing and evaluation of arithmetic expressions.
    Arithmetic,
    /// Command execution.
    Commands,
    /// Generation of completions.
    Complete,
    /// Word expansion.
    Expand,
    /// Function calls.
    Functions,
    /// Reading of input.
    Input,
    /// Job management.
    Jobs,
    /// Parsing of tokens into a syntax tree.
    Parse,
    /// Pattern matching.
    Pattern,
    /// Splitting of input text into tokens.
    Tokenize,
    /// Use of functionality that is not implemented.
    Unimplemented,
}

/// What the logging subsystem is told about a category.
#[derive(Clone, Copy, Debug, PartialEq, Eq, Structural)]
pub enum TraceLevel {
    /// Report the events of the category down to debug events.
    Debug,
    /// Report no event of the category.
    Off,
}

/// One instruction for the logging subsystem: a category and what to do
/// with its events.
#[derive(Clone, Copy, Debug, PartialEq, Eq, Structural)]
pub struct TraceDirective {
    /// The category the instruction is about.
    pub event: TraceEvent,
    /// What is reported of the category.
    pub level: TraceLevel,
}

/// The instructions that a configuration stands for, in the order in which
/// the logging subsystem is to take them: one for each category to enable,
/// as they were given, then one for each category to disable, as they were
/// given.
pub open spec fn trace_directives(config: TraceEventConfigView) -> Seq<TraceDirective> {
    Seq::new(
        config.enabled_debug_events.len() + config.disabled_events.len(),
        |i: int|
            if i < config.enabled_debug_events.len() {
                TraceDirective { event: config.enabled_debug_events[i], level: TraceLevel::Debug }
            } else {
                TraceDirective {
                    event: config.disabled_events[i - config.enabled_debug_events.len()],
                    level: TraceLevel::Off,
                }
            },
    )
}

/// The event categories to report and to suppress, as given at startup.
#[derive(Clone, Debug, PartialEq, Eq)]
pub struct TraceEventConfig {
    enabled_debug_events: Vec<TraceEvent>,
    disabled_events: Vec<TraceEvent>,
}

/// Mathematical model of a [`TraceEventConfig`].
#[verifier::ext_equal]
pub struct TraceEventConfigView {
    /// Categories for which debug events are reported, in the order given.
    pub enabled_debug_events: Seq<TraceEvent>,
    /// Categories whose events are suppressed, in the order given.
    pub disabled_events: Seq<TraceEvent>,
}

impl View for TraceEventConfig {
    type V = TraceEventConfigView;

    closed spec fn view(&self) -> TraceEventConfigView {
        TraceEventConfigView {
            enabled_debug_events: self.enabled_debug_events@,
            disabled_events: self.disabled_events@,
        }
    }
}

/// Copies a list of event categories.
fn copy_events(events: &Vec<TraceEvent>) -> (copy: Vec<TraceEvent>)
    ensures
        copy@ == events@,
{
    let mut copy: Vec<TraceEvent> = Vec::new();
    let mut i: usize = 0;
    while i < events.len()
        invariant
            i <= events.len(),
            copy@ == events@.take(i as int),
        decreases events.len() - i,
    {
        copy.push(events[i]);
        assert(copy@ == events@.take(i + 1));
        i += 1;
    }
    copy
}

impl TraceEventConfig {
    /// Builds the configuration from the categories to enable and the
    /// categories to disable. Both lists are kept as given: nothing is
    /// merged, reordered or dropped.
    pub fn init(enabled_debug_events: &Vec<TraceEvent>, disabled_events: &Vec<TraceEvent>) -> (config: Self)
        ensures
            config@.enabled_debug_events == enabled_debug_events@,
            config@.disabled_events == disabled_events@,
    {
        TraceEventConfig {
            enabled_debug_events: copy_events(enabled_debug_events),
            disabled_events: copy_events(disabled_events),
        }
    }

    /// Lists the instructions for the logging subsystem, in the order in
    /// which it is to take them.
    pub fn directives(&self) -> (directives: Vec<TraceDirective>)
        ensures
            directives@ == trace_directives(self@),
    {
        let mut directives: Vec<TraceDirective> = Vec::new();
        let mut i: usize = 0;
        while i < self.enabled_debug_events.len()
            invariant
                i <= self.enabled_debug_events.len(),
                directives@.len() == i,
                forall|j: int|
                    0 <= j < i ==> directives@[j] == (TraceDirective {
                        event: self.enabled_debug_events@[j],
                        level: TraceLevel::Debug,
                    }),
            decreases self.enabled_debug_events.len() - i,
        {
            directives.push(
                TraceDirective { event: self.enabled_debug_events[i], level: TraceLevel::Debug },
            );
            i += 1;
        }
        let ghost enabled = self.enabled_debug_events@.len();
        let mut k: usize = 0;
        while k < self.disabled_events.len()
            invariant
                k <= self.disabled_events.len(),
                enabled == self.enabled_debug_events@.len(),
                directives@.len() == enabled + k,
                forall|j: int|
                    0 <= j < enabled ==> directives@[j] == (TraceDirective {
                        event: self.enabled_debug_events@[j],
                        level: TraceLevel::Debug,
                    }),
                forall|j: int|
                    enabled <= j < enabled + k ==> directives@[j] == (TraceDirective {
                        event: self.disabled_events@[j - enabled],
                        level: TraceLevel::Off,
                    }),
            decreases self.disabled_events.len() - k,
        {
            directives.push(
                TraceDirective { event: self.disabled_events[k], level: TraceLevel::Off },
            );
            k += 1;
        }
        assert(directives@ =~= trace_directives(self@));
        directives
    }

    /// The categories for which debug events are reported.
    pub fn enabled_debug_events(&self) -> (events: &Vec<TraceEvent>)
        ensures
            events@ == self@.enabled_debug_events,
    {
        &self.enabled_debug_events
    }

    /// The categories whose events are suppressed.
    pub fn disabled_events(&self) -> (events: &Vec<TraceEvent>)
        ensures
            events@ == self@.disabled_events,
    {
        &self.disabled_events
    }
}

/// The place in which the trace configuration of the process is kept:
/// empty until the first configuration is stored, and holding the
/// configuration that was stored last from then on.
#[derive(Clone, Debug, PartialEq, Eq)]
pub struct TraceConfigSlot {
    current: Option<TraceEventConfig>,
}

impl View for TraceConfigSlot {
    type V = Option<TraceEventConfigView>;

    closed spec fn view(&self) -> Option<TraceEventConfigView> {
        match self.current {
            Some(config) => Some(config@),
            None => None,
        }
    }
}

impl TraceConfigSlot {
    /// An empty slot.
    pub fn new() -> (slot: Self)
        ensures
            slot@ is None,
    {
        TraceConfigSlot { current: None }
    }

    /// Stores a configuration. What the slot held before is replaced, not
    /// merged with it.
    pub fn store(&mut self, config: TraceEventConfig)
        ensures
            final(self)@ == Some(config@),
    {
        self.current = Some(config);
    }

    /// The configuration that was stored last, if any was.
    pub fn current(&self) -> (config: Option<&TraceEventConfig>)
        ensures
            match config {
                Some(stored) => self@ == Some(stored@),
                None => self@ is None,
            },
    {
        self.current.as_ref()
    }
}

} // verus!
