use vstd::prelude::*;
use crate::level::Level;
use crate::level::LevelFilter;
use crate::level::passes;
use crate::plugin::Plugin;
use crate::plugin::count_of;
use crate::shell::ShellBuilder;

verus! {

/// Identity and configuration produced ahead of time for the application.
/// The bootstrap treats it as opaque and passes it through to the host
/// event loop unchanged.
#[derive(Clone, Debug)]
pub struct AppContext {
    /// The application's identifier.
    pub identifier: String,
}

impl AppContext {
    /// A context carrying the given identifier.
    pub fn new(identifier: String) -> (r: Self)
        ensures
            r.identifier == identifier,
    {
        AppContext { identifier }
    }
}

/// What happened when the host was asked to start the event loop.
#[derive(Clone, Debug)]
pub enum StartOutcome {
    /// The loop is running; control does not come back during normal
    /// operation.
    Started,
    /// The loop could not start; the host's description of the failure.
    Failed { message: String },
}

/// Phases of the shell's life: plugins are registered while unstarted,
/// the assembled shell either runs or, on a failed start, terminates.
#[derive(Clone, Copy, PartialEq, Eq, Structural, Debug)]
pub enum ShellState {
    Unstarted,
    Configured,
    Running,
    Terminated,
}

/// The one fatal condition handled at this layer.
#[derive(Clone, Debug)]
pub enum BootstrapError {
    /// The event loop failed to start; carries the diagnostic shown to
    /// the operator.
    EventLoopFailed { diagnostic: String },
}

impl BootstrapError {
    /// The diagnostic attached to this error.
    pub fn diagnostic(&self) -> (r: &String)
        ensures
            r@ == self->diagnostic@,
    {
        match self {
            BootstrapError::EventLoopFailed { diagnostic } => diagnostic,
        }
    }
}

/// The fixed registration order: the store plugin first, then logging at
/// the informational threshold.
pub open spec fn standard_plugins_spec() -> Seq<Plugin> {
    seq![Plugin::Store, Plugin::Log { min_level: LevelFilter::Info }]
}

/// Words prefixed to the host's failure description in the fatal
/// diagnostic.
pub open spec fn fatal_prefix() -> Seq<char> {
    "error while running the application shell: "@
}

/// The diagnostic attached to a failed start of the event loop.
pub open spec fn fatal_diagnostic(message: Seq<char>) -> Seq<char> {
    fatal_prefix() + message
}

/// The state the shell reaches for each outcome of the start call.
pub open spec fn start_transition(o: StartOutcome) -> ShellState {
    match o {
        StartOutcome::Started => ShellState::Running,
        StartOutcome::Failed { .. } => ShellState::Terminated,
    }
}

/// One step of the shell's life. An unstarted shell is first configured:
/// its plugins are registered before any start is attempted. A configured
/// shell starts, reaching the state the outcome dictates. Running and
/// terminated are final.
pub open spec fn advance(s: ShellState, o: StartOutcome) -> ShellState {
    match s {
        ShellState::Unstarted => ShellState::Configured,
        ShellState::Configured => start_transition(o),
        ShellState::Running => ShellState::Running,
        ShellState::Terminated => ShellState::Terminated,
    }
}

/// The fixed plugin list the bootstrap registers, in order.
pub fn standard_plugins() -> (r: Vec<Plugin>)
    ensures
        r@ == standard_plugins_spec(),
{
    let mut r: Vec<Plugin> = Vec::new();
    r.push(Plugin::Store);
    r.push(Plugin::Log { min_level: LevelFilter::Info });
    proof {
        assert(r@ =~= standard_plugins_spec());
    }
    r
}

/// Assemble the shell: attach the standard plugins, in order, to a fresh
/// builder.
pub fn configure() -> (r: ShellBuilder)
    ensures
        r@ == standard_plugins_spec(),
{
    let plugins = standard_plugins();
    let shell = ShellBuilder::new().register_all(&plugins);
    proof {
        assert(Seq::<Plugin>::empty() + plugins@ =~= plugins@);
    }
    shell
}

/// Everything the host needs to start the event loop: the assembled shell
/// and the context, handed over together.
pub struct LaunchPlan {
    /// The shell with the standard plugins registered.
    pub shell: ShellBuilder,
    /// The context the host receives unchanged.
    pub context: AppContext,
}

/// First half of the bootstrap: register the standard plugins on a fresh
/// shell and pair the result with the context for the host.
pub fn prepare(context: AppContext) -> (r: LaunchPlan)
    ensures
        r.shell@ == standard_plugins_spec(),
        r.context == context,
{
    LaunchPlan { shell: configure(), context }
}

/// Second half of the bootstrap: map the outcome of the start call to the
/// bootstrap's result. A started loop leaves the shell running; a failed
/// start is the one fatal error, with its diagnostic.
pub fn resolve_start(outcome: StartOutcome) -> (r: Result<ShellState, BootstrapError>)
    ensures
        r is Ok <==> outcome is Started,
        r matches Ok(s) ==> s == start_transition(outcome),
        r is Err ==> start_transition(outcome) == ShellState::Terminated,
        outcome matches StartOutcome::Failed { message } ==> (r matches Err(e)
            && e->diagnostic@ == fatal_diagnostic(message@)),
{
    match outcome {
        StartOutcome::Started => Ok(ShellState::Running),
        StartOutcome::Failed { message } => {
            let mut diagnostic = String::from_str("error while running the application shell: ");
            diagnostic.append(message.as_str());
            Err(BootstrapError::EventLoopFailed { diagnostic })
        },
    }
}

/// Before the start call both plugins stand registered exactly once: the
/// store first, then logging at the informational threshold.
pub proof fn lemma_standard_plugins_once_in_order()
    ensures
        standard_plugins_spec().len() == 2,
        standard_plugins_spec()[0] == Plugin::Store,
        standard_plugins_spec()[1] == (Plugin::Log { min_level: LevelFilter::Info }),
        count_of(standard_plugins_spec(), Plugin::Store) == 1,
        count_of(standard_plugins_spec(), Plugin::Log { min_level: LevelFilter::Info }) == 1,
{
    let s = standard_plugins_spec();
    let store = Plugin::Store;
    let logging = Plugin::Log { min_level: LevelFilter::Info };
    assert(s.drop_last() =~= seq![store]);
    assert(seq![store].drop_last() =~= Seq::<Plugin>::empty());
    assert(count_of(Seq::<Plugin>::empty(), store) == 0);
    assert(count_of(Seq::<Plugin>::empty(), logging) == 0);
    assert(count_of(seq![store], store) == 1);
    assert(count_of(seq![store], logging) == 0);
}

/// Under the threshold the bootstrap configures for the logging plugin, a
/// debug message is suppressed while an informational message is emitted.
pub proof fn lemma_bootstrap_log_threshold()
    ensures
        standard_plugins_spec()[1] matches Plugin::Log { min_level } ==> !passes(
            min_level,
            Level::Debug,
        ) && passes(min_level, Level::Info),
{
}

/// A failed start always carries a non-empty diagnostic.
pub proof fn lemma_failure_diagnostic_nonempty(message: Seq<char>)
    ensures
        fatal_diagnostic(message).len() > 0,
{
    reveal_strlit("error while running the application shell: ");
}

/// With a successful start call the shell reaches the running state,
/// whatever the context.
pub proof fn lemma_successful_start_runs(o: StartOutcome)
    requires
        o is Started,
    ensures
        start_transition(o) == ShellState::Running,
{
}

/// From unstarted, one configuration step and one start step reach running
/// exactly when the start succeeded and terminated otherwise; there is no
/// retry and no recovery: both final states absorb every further step.
pub proof fn lemma_shell_lifecycle(o: StartOutcome, later: StartOutcome)
    ensures
        advance(advance(ShellState::Unstarted, o), o) == start_transition(o),
        advance(ShellState::Running, later) == ShellState::Running,
        advance(ShellState::Terminated, later) == ShellState::Terminated,
{
}

} // verus!
