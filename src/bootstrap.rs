use vstd::prelude::*;

use crate::plugin::{plan, planned_at, Plugin, PLUGIN_COUNT};

verus! {

/// Where the startup sequence stands.
#[derive(Clone, Copy, Debug, PartialEq, Eq, Structural)]
pub enum Phase {
    /// Plugins are being attached; the configuration context is live.
    Assembling,
    /// The runtime has been started with the context, which is gone.
    Running,
    /// The runtime returned normally.
    Finished,
    /// The runtime failed to start; the process is to end at once.
    Aborted,
}

/// What the host reports back to the startup sequence.
#[derive(Clone, Copy, Debug, PartialEq, Eq, Structural)]
pub enum Event {
    /// The host is ready for the next step (the previous action, if any, is done).
    Ready,
    /// The runtime returned without error.
    RunSucceeded,
    /// The runtime reported a failure.
    RunFailed,
}

/// What the host is to do next.
#[derive(Clone, Copy, Debug, PartialEq, Eq, Structural)]
pub enum Action {
    /// Call the plugin's initializer and attach the plugin to the builder.
    Attach(Plugin),
    /// Start the runtime, handing over the configuration context for good.
    StartRuntime,
    /// Return normally: startup is over.
    Finish,
    /// Terminate the process at once, with the diagnostic and a non-zero status.
    Abort,
    /// Nothing is left to do for this event.
    Idle,
}

/// The text written when the runtime fails to start.
pub open spec fn diagnostic_text() -> Seq<char> {
    "error while running tauri application"@
}

impl Action {
    /// The diagnostic that the action writes, if it writes one.
    pub open spec fn spec_diagnostic(self) -> Option<Seq<char>> {
        if self is Abort {
            Some(diagnostic_text())
        } else {
            None
        }
    }

    /// Whether the action ends the process with a non-zero status.
    pub open spec fn spec_fails_process(self) -> bool {
        self is Abort
    }

    pub fn diagnostic(&self) -> (r: Option<String>)
        ensures
            r is Some <==> self.spec_diagnostic() is Some,
            r is Some ==> r->0@ == self.spec_diagnostic()->0,
    {
        match self {
            Action::Abort => Some(String::from_str("error while running tauri application")),
            _ => None,
        }
    }

    pub fn fails_process(&self) -> (r: bool)
        ensures
            r == self.spec_fails_process(),
    {
        match self {
            Action::Abort => true,
            _ => false,
        }
    }
}

/// The state of the startup sequence, as a mathematical value.
pub struct BootstrapView {
    /// The plugins attached so far, in the order of attachment.
    pub attached: Seq<Plugin>,
    /// Whether the configuration context may still be read and edited.
    pub context_live: bool,
    pub phase: Phase,
}

impl BootstrapView {
    /// The state before anything is attached.
    pub open spec fn initial() -> BootstrapView {
        BootstrapView { attached: Seq::empty(), context_live: true, phase: Phase::Assembling }
    }

    /// The states that the startup sequence can reach: the plugins attached are a prefix
    /// of the startup order; the context is live exactly while plugins are being
    /// attached; once the runtime has started, every plugin has been attached.
    pub open spec fn wf(self) -> bool {
        &&& self.attached.len() <= PLUGIN_COUNT
        &&& self.attached == plan().take(self.attached.len() as int)
        &&& self.context_live <==> self.phase == Phase::Assembling
        &&& self.phase != Phase::Assembling ==> self.attached.len() == PLUGIN_COUNT
    }

    /// The set of plugins attached so far.
    pub open spec fn attached_set(self) -> Set<Plugin> {
        self.attached.to_set()
    }
}

/// One step of the startup sequence: the next state and what the host is to do.
pub open spec fn transition(v: BootstrapView, e: Event) -> (BootstrapView, Action) {
    match (v.phase, e) {
        (Phase::Assembling, Event::Ready) => if v.attached.len() < PLUGIN_COUNT {
            let p = plan()[v.attached.len() as int];
            (BootstrapView { attached: v.attached.push(p), ..v }, Action::Attach(p))
        } else {
            (
                BootstrapView { context_live: false, phase: Phase::Running, ..v },
                Action::StartRuntime,
            )
        },
        (Phase::Running, Event::RunSucceeded) => (
            BootstrapView { phase: Phase::Finished, ..v },
            Action::Finish,
        ),
        (Phase::Running, Event::RunFailed) => (
            BootstrapView { phase: Phase::Aborted, ..v },
            Action::Abort,
        ),
        _ => (v, Action::Idle),
    }
}

/// The startup sequence of the application shell: it attaches the filesystem, opener,
/// clipboard and theme plugins in that order, then starts the runtime with the
/// configuration context, and ends the process if the runtime fails.
pub struct Bootstrap {
    attached: Vec<Plugin>,
    context_live: bool,
    phase: Phase,
}

impl View for Bootstrap {
    type V = BootstrapView;

    closed spec fn view(&self) -> BootstrapView {
        BootstrapView {
            attached: self.attached@,
            context_live: self.context_live,
            phase: self.phase,
        }
    }
}

impl Bootstrap {
    pub fn new() -> (r: Bootstrap)
        ensures
            r@ == BootstrapView::initial(),
            r@.wf(),
    {
        let r = Bootstrap { attached: Vec::new(), context_live: true, phase: Phase::Assembling };
        assert(r@.attached =~= Seq::<Plugin>::empty());
        proof {
            lemma_initial_wf();
        }
        r
    }

    pub fn phase(&self) -> (r: Phase)
        ensures
            r == self@.phase,
    {
        self.phase
    }

    pub fn context_live(&self) -> (r: bool)
        ensures
            r == self@.context_live,
    {
        self.context_live
    }

    /// Whether the plugin has been attached.
    pub fn is_attached(&self, p: Plugin) -> (r: bool)
        ensures
            r == self@.attached_set().contains(p),
    {
        let mut i: usize = 0;
        while i < self.attached.len()
            invariant
                i <= self.attached@.len(),
                forall|j: int| 0 <= j < i ==> self.attached@[j] != p,
            decreases self.attached@.len() - i,
        {
            if self.attached[i] == p {
                return true;
            }
            i = i + 1;
        }
        false
    }

    /// Takes the host's report and says what it is to do next.
    pub fn step(&mut self, event: Event) -> (a: Action)
        ensures
            (final(self)@, a) == transition(old(self)@, event),
            old(self)@.wf() ==> final(self)@.wf(),
    {
        proof {
            if self@.wf() {
                lemma_step_preserves_wf(self@, event);
            }
        }
        match (self.phase, event) {
            (Phase::Assembling, Event::Ready) => {
                if self.attached.len() < PLUGIN_COUNT {
                    let p = planned_at(self.attached.len());
                    self.attached.push(p);
                    Action::Attach(p)
                } else {
                    self.context_live = false;
                    self.phase = Phase::Running;
                    Action::StartRuntime
                }
            },
            (Phase::Running, Event::RunSucceeded) => {
                self.phase = Phase::Finished;
                Action::Finish
            },
            (Phase::Running, Event::RunFailed) => {
                self.phase = Phase::Aborted;
                Action::Abort
            },
            _ => Action::Idle,
        }
    }
}

/// The startup sequence begins in a reachable state.
pub proof fn lemma_initial_wf()
    ensures
        BootstrapView::initial().wf(),
{
    assert(plan().take(0) =~= Seq::<Plugin>::empty());
}

/// Every step from a reachable state leads to a reachable state, and a plugin is recorded
/// as attached exactly when the step tells the host to attach it.
pub proof fn lemma_step_preserves_wf(v: BootstrapView, e: Event)
    requires
        v.wf(),
    ensures
        transition(v, e).0.wf(),
        transition(v, e).1 matches Action::Attach(p) ==> transition(v, e).0.attached
            == v.attached.push(p),
        !(transition(v, e).1 is Attach) ==> transition(v, e).0.attached == v.attached,
{
    let n = v.attached.len() as int;
    if v.phase == Phase::Assembling && e == Event::Ready && n < PLUGIN_COUNT {
        assert(v.attached.push(plan()[n]) =~= plan().take(n + 1));
    }
}

/// In every reachable state each plugin has been attached at most once, and once the
/// runtime has been started each of the four has been attached exactly once.
pub proof fn lemma_each_plugin_attached_once(v: BootstrapView)
    requires
        v.wf(),
    ensures
        forall|p: Plugin| #[trigger] v.attached.to_multiset().count(p) <= 1,
        v.phase != Phase::Assembling ==> forall|p: Plugin|
            #[trigger] v.attached.to_multiset().count(p) == 1,
{
    let s = plan();
    assert(s.no_duplicates()) by {
        assert forall|i: int, j: int|
            0 <= i < s.len() && 0 <= j < s.len() && i != j implies s[i] != s[j] by {}
    }
    let a = v.attached;
    assert(a.no_duplicates()) by {
        assert forall|i: int, j: int|
            0 <= i < a.len() && 0 <= j < a.len() && i != j implies a[i] != a[j] by {
            assert(a[i] == s[i] && a[j] == s[j]);
        }
    }
    a.lemma_multiset_has_no_duplicates();
    if v.phase != Phase::Assembling {
        assert(a =~= s);
        crate::plugin::lemma_plan_lists_each_plugin_once();
    }
}

/// Five reports of readiness from the start attach the four plugins in the startup
/// order and then start the runtime.
pub proof fn lemma_ready_steps_start_runtime()
    ensures
        ({
            let s1 = transition(BootstrapView::initial(), Event::Ready);
            let s2 = transition(s1.0, Event::Ready);
            let s3 = transition(s2.0, Event::Ready);
            let s4 = transition(s3.0, Event::Ready);
            let s5 = transition(s4.0, Event::Ready);
            &&& s1.1 == Action::Attach(Plugin::Filesystem)
            &&& s2.1 == Action::Attach(Plugin::Opener)
            &&& s3.1 == Action::Attach(Plugin::Clipboard)
            &&& s4.1 == Action::Attach(Plugin::Theme)
            &&& s5.1 == Action::StartRuntime
            &&& s5.0.attached == plan()
            &&& s5.0.phase == Phase::Running
            &&& !s5.0.context_live
        }),
{
    let s1 = transition(BootstrapView::initial(), Event::Ready);
    let s2 = transition(s1.0, Event::Ready);
    let s3 = transition(s2.0, Event::Ready);
    let s4 = transition(s3.0, Event::Ready);
    let s5 = transition(s4.0, Event::Ready);
    assert(s4.0.attached =~= plan());
    assert(s5.0.attached =~= plan());
}

/// The initializer that takes the configuration context runs only while the context is
/// live and leaves it live; starting the runtime consumes the context; once the context
/// is consumed no step reads or edits it again, nor starts the runtime a second time.
pub proof fn lemma_context_discipline(v: BootstrapView, e: Event)
    requires
        v.wf(),
    ensures
        transition(v, e).1 matches Action::Attach(p) && p.spec_takes_context()
            ==> v.context_live && transition(v, e).0.context_live,
        transition(v, e).1 == Action::StartRuntime ==> v.context_live && !transition(
            v,
            e,
        ).0.context_live,
        !v.context_live ==> !transition(v, e).0.context_live && !(transition(v, e).1 is Attach)
            && transition(v, e).1 != Action::StartRuntime,
{
}

/// When the runtime reports a failure, the process is ended with the diagnostic and a
/// non-zero status, and from then on no step does anything further.
pub proof fn lemma_failure_is_fatal(v: BootstrapView, e: Event)
    requires
        v.wf(),
        v.phase == Phase::Running,
    ensures
        transition(v, Event::RunFailed).1 == Action::Abort,
        transition(v, Event::RunFailed).1.spec_fails_process(),
        transition(v, Event::RunFailed).1.spec_diagnostic() == Some(diagnostic_text()),
        transition(transition(v, Event::RunFailed).0, e) == (
            transition(v, Event::RunFailed).0,
            Action::Idle,
        ),
{
}

/// When the runtime returns without error, startup ends normally and no diagnostic is
/// written.
pub proof fn lemma_success_is_silent(v: BootstrapView)
    requires
        v.wf(),
        v.phase == Phase::Running,
    ensures
        transition(v, Event::RunSucceeded).1 == Action::Finish,
        !transition(v, Event::RunSucceeded).1.spec_fails_process(),
        transition(v, Event::RunSucceeded).1.spec_diagnostic() is None,
{
}

} // verus!
