//! Application events and the control loop that consumes them.
//!
//! The loop itself performs nothing. It is told what came back from the
//! outside (the next event of the channel, a look at the page, the end of a
//! remote operation) and says what to do next. Whoever drives it performs
//! that and hands back the reply.

use crate::gadget_selector::{needs_injection, resolution, resolve, FieldProbe, UserSelection};
use vstd::prelude::*;

verus! {

/// A command of the operator, decoded from one hotkey chord.
#[derive(Debug, Clone, Copy, PartialEq, Eq, Structural)]
pub enum AppEvent {
    InitializeGadget,
    GetHelp,
    GetSelected,
    Quit,
}

/// The two states of the control loop as its caller sees them.
#[derive(Debug, Clone, Copy, PartialEq, Eq, Structural)]
pub enum LoopState {
    Running,
    Terminated,
}

/// Why the loop looks at the page.
#[derive(Debug, Clone, Copy, PartialEq, Eq, Structural)]
pub enum Purpose {
    /// To put the selection tool into the page if it is missing.
    Initialize,
    /// To read the selector that the operator chose.
    Select,
}

/// What the loop is waiting for.
#[derive(Debug, Clone, Copy, PartialEq, Eq, Structural)]
pub enum Phase {
    /// The next event of the channel.
    AwaitingEvent,
    /// A look at the tool's field in the page.
    AwaitingProbe(Purpose),
    /// The end of the script that puts the tool into the page.
    AwaitingInjection,
    /// The elements that match the chosen selector.
    AwaitingMatches,
    /// Nothing: the loop is over.
    Terminated,
}

/// What the outside hands to the loop.
#[derive(Debug, PartialEq, Eq)]
pub enum Reply {
    /// The channel delivered an event.
    Event(AppEvent),
    /// The channel is closed: every sender is gone.
    ChannelClosed,
    /// The page was looked at.
    Probe(FieldProbe),
    /// The script that puts the tool into the page has run.
    ScriptDone,
    /// The remote session found this many elements for the selector.
    Matches(usize),
    /// The remote operation that the loop asked for failed.
    Failed,
}

/// What the loop asks its driver to do next.
#[derive(Debug, PartialEq, Eq)]
pub enum Action {
    /// Take the next event from the channel.
    Receive,
    /// Look at the tool's field in the page.
    ProbeField,
    /// Run the script that puts the tool into the page.
    InjectScript,
    /// Find all elements that match this text as a CSS selector.
    FindElements(String),
    /// Leave the loop: it ended in good order.
    Stop,
    /// Leave the loop and pass the failure on.
    Abort,
}

/// What the loop has to tell the operator.
#[derive(Debug, Clone, Copy, PartialEq, Eq, Structural)]
pub enum Notice {
    /// The help text is asked for.
    Help,
    /// The tool is in the page, and no selector is chosen.
    NoSelection,
    /// A selector is chosen; its elements are being looked up.
    SelectorChosen,
    /// The selector matches this many elements.
    MatchCount(usize),
    /// The tool is not in the page; it is being initialized.
    GadgetMissing,
    /// The tool is in the page already.
    AlreadyInitialized,
    /// The tool is being put into the page.
    Injecting,
    /// The tool has been put into the page.
    GadgetReady,
}

/// The answer of the loop to one reply.
#[derive(Debug, PartialEq, Eq)]
pub struct Directive {
    pub notice: Option<Notice>,
    pub action: Action,
}

/// The coarse state that a phase belongs to.
pub open spec fn loop_state(phase: Phase) -> LoopState {
    if phase is Terminated {
        LoopState::Terminated
    } else {
        LoopState::Running
    }
}

/// Whether the loop waits for a remote operation in this phase.
pub open spec fn awaits_remote(phase: Phase) -> bool {
    phase is AwaitingProbe || phase is AwaitingInjection || phase is AwaitingMatches
}

/// What an event of the channel leads to.
pub open spec fn on_event(event: AppEvent) -> (Phase, Directive) {
    match event {
        AppEvent::InitializeGadget => (
            Phase::AwaitingProbe(Purpose::Initialize),
            Directive { notice: None, action: Action::ProbeField },
        ),
        AppEvent::GetSelected => (
            Phase::AwaitingProbe(Purpose::Select),
            Directive { notice: None, action: Action::ProbeField },
        ),
        AppEvent::GetHelp => (
            Phase::AwaitingEvent,
            Directive { notice: Some(Notice::Help), action: Action::Receive },
        ),
        AppEvent::Quit => (Phase::Terminated, Directive { notice: None, action: Action::Stop }),
    }
}

/// What a selection leads to when the page was looked at to initialize the
/// tool: the script is run if and only if the tool is missing.
pub open spec fn on_initialize(selection: UserSelection) -> (Phase, Directive) {
    if selection is MissingGadget {
        (
            Phase::AwaitingInjection,
            Directive { notice: Some(Notice::Injecting), action: Action::InjectScript },
        )
    } else {
        (
            Phase::AwaitingEvent,
            Directive { notice: Some(Notice::AlreadyInitialized), action: Action::Receive },
        )
    }
}

/// What a selection leads to when the page was looked at to read the
/// operator's choice. A chosen selector is looked up as it is. A missing tool
/// is initialized, and the choice is not read again in the same cycle.
pub open spec fn on_select(selection: UserSelection) -> (Phase, Directive) {
    match selection {
        UserSelection::Empty => (
            Phase::AwaitingEvent,
            Directive { notice: Some(Notice::NoSelection), action: Action::Receive },
        ),
        UserSelection::Selection(selector) => (
            Phase::AwaitingMatches,
            Directive {
                notice: Some(Notice::SelectorChosen),
                action: Action::FindElements(selector),
            },
        ),
        UserSelection::MissingGadget => (
            Phase::AwaitingProbe(Purpose::Initialize),
            Directive { notice: Some(Notice::GadgetMissing), action: Action::ProbeField },
        ),
    }
}

/// The transition of the loop: the next phase and the directive, or `None`
/// where the reply does not answer what the loop is waiting for. A failed
/// remote operation ends the loop, whatever it was; nothing is tried again.
pub open spec fn outcome(phase: Phase, reply: Reply) -> Option<(Phase, Directive)> {
    match (phase, reply) {
        (Phase::AwaitingEvent, Reply::Event(event)) => Some(on_event(event)),
        (Phase::AwaitingEvent, Reply::ChannelClosed) => Some(
            (Phase::Terminated, Directive { notice: None, action: Action::Stop }),
        ),
        (Phase::AwaitingProbe(Purpose::Initialize), Reply::Probe(probe)) => Some(
            on_initialize(resolution(probe)),
        ),
        (Phase::AwaitingProbe(Purpose::Select), Reply::Probe(probe)) => Some(
            on_select(resolution(probe)),
        ),
        (Phase::AwaitingInjection, Reply::ScriptDone) => Some(
            (
                Phase::AwaitingEvent,
                Directive { notice: Some(Notice::GadgetReady), action: Action::Receive },
            ),
        ),
        (Phase::AwaitingMatches, Reply::Matches(count)) => Some(
            (
                Phase::AwaitingEvent,
                Directive { notice: Some(Notice::MatchCount(count)), action: Action::Receive },
            ),
        ),
        (_, Reply::Failed) => if awaits_remote(phase) {
            Some((Phase::Terminated, Directive { notice: None, action: Action::Abort }))
        } else {
            None
        },
        _ => None,
    }
}

/// The control loop. A new loop waits for the first event of the channel.
pub struct ControlLoop {
    phase: Phase,
}

impl View for ControlLoop {
    type V = Phase;

    closed spec fn view(&self) -> Phase {
        self.phase
    }
}

impl ControlLoop {
    pub fn new() -> (control: Self)
        ensures
            control@ == Phase::AwaitingEvent,
    {
        Self { phase: Phase::AwaitingEvent }
    }

    pub fn phase(&self) -> (phase: Phase)
        ensures
            phase == self@,
    {
        self.phase
    }

    pub fn state(&self) -> (state: LoopState)
        ensures
            state == loop_state(self@),
    {
        match self.phase {
            Phase::Terminated => LoopState::Terminated,
            _ => LoopState::Running,
        }
    }

    /// Takes one reply. Where it answers what the loop is waiting for, the
    /// loop moves on and says what to do next. Every other reply is left
    /// aside: the loop stays as it is and gives `None`.
    pub fn step(&mut self, reply: Reply) -> (directive: Option<Directive>)
        ensures
            directive is Some <==> outcome(old(self)@, reply) is Some,
            directive matches Some(answer) ==> outcome(old(self)@, reply) == Some(
                (final(self)@, answer),
            ),
            directive is None ==> final(self)@ == old(self)@,
    {
        let (next, answer) = match (self.phase, reply) {
            (Phase::AwaitingEvent, Reply::Event(event)) => dispatch(event),
            (Phase::AwaitingEvent, Reply::ChannelClosed) => (
                Phase::Terminated,
                Directive { notice: None, action: Action::Stop },
            ),
            (Phase::AwaitingProbe(purpose), Reply::Probe(probe)) => follow_up(
                purpose,
                resolve(probe),
            ),
            (Phase::AwaitingInjection, Reply::ScriptDone) => (
                Phase::AwaitingEvent,
                Directive { notice: Some(Notice::GadgetReady), action: Action::Receive },
            ),
            (Phase::AwaitingMatches, Reply::Matches(count)) => (
                Phase::AwaitingEvent,
                Directive { notice: Some(Notice::MatchCount(count)), action: Action::Receive },
            ),
            (Phase::AwaitingProbe(_), Reply::Failed)
            | (Phase::AwaitingInjection, Reply::Failed)
            | (Phase::AwaitingMatches, Reply::Failed) => (
                Phase::Terminated,
                Directive { notice: None, action: Action::Abort },
            ),
            _ => {
                return None;
            },
        };
        self.phase = next;
        Some(answer)
    }
}

/// What the loop does with an event of the channel.
pub fn dispatch(event: AppEvent) -> (step: (Phase, Directive))
    ensures
        step == on_event(event),
{
    match event {
        AppEvent::InitializeGadget => (
            Phase::AwaitingProbe(Purpose::Initialize),
            Directive { notice: None, action: Action::ProbeField },
        ),
        AppEvent::GetSelected => (
            Phase::AwaitingProbe(Purpose::Select),
            Directive { notice: None, action: Action::ProbeField },
        ),
        AppEvent::GetHelp => (
            Phase::AwaitingEvent,
            Directive { notice: Some(Notice::Help), action: Action::Receive },
        ),
        AppEvent::Quit => (Phase::Terminated, Directive { notice: None, action: Action::Stop }),
    }
}

/// What the loop does once the page was looked at for `purpose` and the look
/// was classified as `selection`.
pub fn follow_up(purpose: Purpose, selection: UserSelection) -> (step: (Phase, Directive))
    ensures
        purpose is Initialize ==> step == on_initialize(selection),
        purpose is Select ==> step == on_select(selection),
{
    match purpose {
        Purpose::Initialize => {
            if needs_injection(&selection) {
                (
                    Phase::AwaitingInjection,
                    Directive { notice: Some(Notice::Injecting), action: Action::InjectScript },
                )
            } else {
                (
                    Phase::AwaitingEvent,
                    Directive {
                        notice: Some(Notice::AlreadyInitialized),
                        action: Action::Receive,
                    },
                )
            }
        },
        Purpose::Select => match selection {
            UserSelection::Empty => (
                Phase::AwaitingEvent,
                Directive { notice: Some(Notice::NoSelection), action: Action::Receive },
            ),
            UserSelection::Selection(selector) => (
                Phase::AwaitingMatches,
                Directive {
                    notice: Some(Notice::SelectorChosen),
                    action: Action::FindElements(selector),
                },
            ),
            UserSelection::MissingGadget => (
                Phase::AwaitingProbe(Purpose::Initialize),
                Directive { notice: Some(Notice::GadgetMissing), action: Action::ProbeField },
            ),
        },
    }
}

/// The phase of the loop after a run of replies, each taken in turn.
pub open spec fn phase_after(phase: Phase, replies: Seq<Reply>) -> Phase
    decreases replies.len(),
{
    if replies.len() == 0 {
        phase
    } else {
        let before = phase_after(phase, replies.drop_last());
        match outcome(before, replies.last()) {
            Some((next, _)) => next,
            None => before,
        }
    }
}

/// The directives that the loop gives over a run of replies, in order. A
/// reply that is left aside gives none.
pub open spec fn directives(phase: Phase, replies: Seq<Reply>) -> Seq<Directive>
    decreases replies.len(),
{
    if replies.len() == 0 {
        Seq::empty()
    } else {
        let earlier = directives(phase, replies.drop_last());
        match outcome(phase_after(phase, replies.drop_last()), replies.last()) {
            Some((_, answer)) => earlier.push(answer),
            None => earlier,
        }
    }
}

/// How often a run of directives asks for the script to be run.
pub open spec fn injections(given: Seq<Directive>) -> nat
    decreases given.len(),
{
    if given.len() == 0 {
        0
    } else if given.last().action is InjectScript {
        injections(given.drop_last()) + 1
    } else {
        injections(given.drop_last())
    }
}

/// The replies of one cycle that initializes the tool on a page that shows
/// `probe`: the event, the look at the page and, where the tool is missing,
/// the end of the script.
pub open spec fn initialization_cycle(probe: FieldProbe) -> Seq<Reply> {
    if probe is Absent {
        seq![Reply::Event(AppEvent::InitializeGadget), Reply::Probe(probe), Reply::ScriptDone]
    } else {
        seq![Reply::Event(AppEvent::InitializeGadget), Reply::Probe(probe)]
    }
}

/// A loop that is over takes no reply.
pub proof fn lemma_terminated_is_final(reply: Reply)
    ensures
        outcome(Phase::Terminated, reply) is None,
{
}

/// The loop ends on the quit event, on the closing of the channel and on a
/// failed remote operation, and on nothing else.
pub proof fn lemma_termination_causes(phase: Phase, reply: Reply)
    ensures
        (outcome(phase, reply) matches Some((next, _)) && next is Terminated) <==> ((phase
            is AwaitingEvent && (reply == Reply::Event(AppEvent::Quit) || reply is ChannelClosed))
            || (awaits_remote(phase) && reply is Failed)),
{
}

/// The script is asked for if and only if the page was looked at to
/// initialize the tool and the tool is missing.
pub proof fn lemma_injection_iff_missing(phase: Phase, reply: Reply)
    ensures
        (outcome(phase, reply) matches Some((_, answer)) && answer.action is InjectScript) <==> (
        phase == Phase::AwaitingProbe(Purpose::Initialize) && (reply matches Reply::Probe(probe)
            && resolution(probe) is MissingGadget)),
{
}

/// Elements are looked up if and only if the page was looked at to read the
/// operator's choice and a selector is chosen, and then with the text of the
/// field as it is.
pub proof fn lemma_lookup_iff_selected(phase: Phase, reply: Reply, selector: String)
    ensures
        (outcome(phase, reply) matches Some((_, answer)) && answer.action == Action::FindElements(
            selector,
        )) <==> (phase == Phase::AwaitingProbe(Purpose::Select) && (reply matches Reply::Probe(
            probe,
        ) && resolution(probe) == UserSelection::Selection(selector))),
{
}

/// Taking a run of replies piece by piece gives what taking it whole gives.
pub proof fn lemma_run_composes(phase: Phase, first: Seq<Reply>, second: Seq<Reply>)
    ensures
        phase_after(phase, first + second) == phase_after(phase_after(phase, first), second),
        directives(phase, first + second) == directives(phase, first) + directives(
            phase_after(phase, first),
            second,
        ),
    decreases second.len(),
{
    if second.len() == 0 {
        assert(first + second == first);
    } else {
        lemma_run_composes(phase, first, second.drop_last());
        assert((first + second).drop_last() == first + second.drop_last());
        assert((first + second).last() == second.last());
    }
}

/// The requests for the script in two runs of directives add up.
pub proof fn lemma_injections_add(first: Seq<Directive>, second: Seq<Directive>)
    ensures
        injections(first + second) == injections(first) + injections(second),
    decreases second.len(),
{
    if second.len() == 0 {
        assert(first + second == first);
    } else {
        lemma_injections_add(first, second.drop_last());
        assert((first + second).drop_last() == first + second.drop_last());
        assert((first + second).last() == second.last());
    }
}

/// Once the loop is over, whatever is still handed to it changes nothing and
/// is answered by nothing.
pub proof fn lemma_nothing_after_termination(replies: Seq<Reply>)
    ensures
        phase_after(Phase::Terminated, replies) == Phase::Terminated,
        directives(Phase::Terminated, replies) == Seq::<Directive>::empty(),
    decreases replies.len(),
{
    if replies.len() > 0 {
        lemma_nothing_after_termination(replies.drop_last());
    }
}

/// The quit event ends a waiting loop, and what is queued behind it is
/// ignored: the only directive is the one to stop.
pub proof fn lemma_quit_ends_the_run(rest: Seq<Reply>)
    ensures
        phase_after(Phase::AwaitingEvent, seq![Reply::Event(AppEvent::Quit)] + rest)
            == Phase::Terminated,
        directives(Phase::AwaitingEvent, seq![Reply::Event(AppEvent::Quit)] + rest) == seq![
            Directive { notice: None, action: Action::Stop },
        ],
{
    let quit = seq![Reply::Event(AppEvent::Quit)];
    lemma_run_composes(Phase::AwaitingEvent, quit, rest);
    lemma_nothing_after_termination(rest);
    assert(quit.drop_last() == Seq::<Reply>::empty());
    reveal_with_fuel(phase_after, 2);
    reveal_with_fuel(directives, 2);
}

/// One cycle that initializes the tool, on a waiting loop: it asks for the
/// script once where the tool is missing and not at all where it is there,
/// and leaves the loop waiting for the next event.
pub proof fn lemma_initialization_cycle(probe: FieldProbe)
    ensures
        phase_after(Phase::AwaitingEvent, initialization_cycle(probe)) == Phase::AwaitingEvent,
        injections(directives(Phase::AwaitingEvent, initialization_cycle(probe))) == (if probe
            is Absent {
            1nat
        } else {
            0nat
        }),
{
    let start = Phase::AwaitingEvent;
    let event = Reply::Event(AppEvent::InitializeGadget);
    let one = seq![event];
    let two = seq![event, Reply::Probe(probe)];
    assert(one.drop_last() == Seq::<Reply>::empty());
    assert(two.drop_last() == one);
    reveal_with_fuel(phase_after, 4);
    reveal_with_fuel(directives, 4);
    reveal_with_fuel(injections, 4);
    let asked = directives(start, one);
    assert(asked.drop_last() == Seq::<Directive>::empty());
    if probe is Absent {
        let three = seq![event, Reply::Probe(probe), Reply::ScriptDone];
        assert(three.drop_last() == two);
        let injecting = directives(start, two);
        assert(injecting.drop_last() == asked);
        assert(directives(start, three).drop_last() == injecting);
    } else {
        assert(directives(start, two).drop_last() == asked);
    }
}

/// Initializing is idempotent. Of two cycles in a row, where the page has the
/// tool once the first is through, the second asks for no script: together
/// they ask for it once where the tool was missing at first, and never where
/// it was there.
pub proof fn lemma_initialization_is_idempotent(first: FieldProbe, second: FieldProbe)
    requires
        second is Present,
    ensures
        injections(directives(Phase::AwaitingEvent, initialization_cycle(second))) == 0,
        phase_after(
            Phase::AwaitingEvent,
            initialization_cycle(first) + initialization_cycle(second),
        ) == Phase::AwaitingEvent,
        injections(
            directives(
                Phase::AwaitingEvent,
                initialization_cycle(first) + initialization_cycle(second),
            ),
        ) == (if first is Absent {
            1nat
        } else {
            0nat
        }),
{
    let start = Phase::AwaitingEvent;
    lemma_initialization_cycle(first);
    lemma_initialization_cycle(second);
    lemma_run_composes(start, initialization_cycle(first), initialization_cycle(second));
    lemma_injections_add(
        directives(start, initialization_cycle(first)),
        directives(start, initialization_cycle(second)),
    );
}

} // verus!
