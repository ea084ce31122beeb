//! Explicit connection state machine.
//!
//! Every CableDesk component reasons about connection progress through this
//! single enum instead of scattered boolean flags. The interface renders
//! this state; it does not own networking or streaming logic.
use crate::text::{chars_of, push_str, string_from_chars};
use vstd::prelude::*;

verus! {

/// A single lifecycle state of a CableDesk connection.
#[derive(Debug, Clone, Copy, PartialEq, Eq, Hash, Structural)]
pub enum ConnectionState {
    Unconfigured,
    CheckingCompatibility,
    Unsupported,
    Ready,
    WaitingForCable,
    CableDetected,
    InspectingPower,
    ConfiguringLink,
    DiscoveringPeer,
    PairingRequired,
    Pairing,
    Authenticating,
    PreparingHost,
    StartingSunshine,
    StartingViewer,
    Streaming,
    Suspended,
    Disconnecting,
    Disconnected,
    Recovering,
    Error,
}

/// The states listed as legal successors of `s`. `Error` is reachable from
/// every state and is therefore not listed here.
pub open spec fn allowed_next_spec(s: ConnectionState) -> Seq<ConnectionState> {
    match s {
        ConnectionState::Unconfigured => seq![ConnectionState::CheckingCompatibility],
        ConnectionState::CheckingCompatibility => seq![
            ConnectionState::Unsupported,
            ConnectionState::Ready,
        ],
        ConnectionState::Unsupported => seq![ConnectionState::CheckingCompatibility],
        ConnectionState::Ready => seq![ConnectionState::WaitingForCable],
        ConnectionState::WaitingForCable => seq![ConnectionState::CableDetected],
        ConnectionState::CableDetected => seq![
            ConnectionState::InspectingPower,
            ConnectionState::WaitingForCable,
        ],
        ConnectionState::InspectingPower => seq![ConnectionState::ConfiguringLink],
        ConnectionState::ConfiguringLink => seq![ConnectionState::DiscoveringPeer],
        ConnectionState::DiscoveringPeer => seq![
            ConnectionState::PairingRequired,
            ConnectionState::Authenticating,
            ConnectionState::WaitingForCable,
        ],
        ConnectionState::PairingRequired => seq![ConnectionState::Pairing],
        ConnectionState::Pairing => seq![
            ConnectionState::Authenticating,
            ConnectionState::PairingRequired,
        ],
        ConnectionState::Authenticating => seq![
            ConnectionState::PreparingHost,
            ConnectionState::PairingRequired,
        ],
        ConnectionState::PreparingHost => seq![ConnectionState::StartingSunshine],
        ConnectionState::StartingSunshine => seq![ConnectionState::StartingViewer],
        ConnectionState::StartingViewer => seq![ConnectionState::Streaming],
        ConnectionState::Streaming => seq![
            ConnectionState::Suspended,
            ConnectionState::Disconnecting,
            ConnectionState::WaitingForCable,
        ],
        ConnectionState::Suspended => seq![
            ConnectionState::Streaming,
            ConnectionState::Disconnecting,
        ],
        ConnectionState::Disconnecting => seq![ConnectionState::Disconnected],
        ConnectionState::Disconnected => seq![
            ConnectionState::WaitingForCable,
            ConnectionState::Ready,
        ],
        ConnectionState::Recovering => seq![
            ConnectionState::WaitingForCable,
            ConnectionState::DiscoveringPeer,
            ConnectionState::Disconnected,
        ],
        ConnectionState::Error => seq![
            ConnectionState::Recovering,
            ConnectionState::WaitingForCable,
            ConnectionState::Ready,
        ],
    }
}

/// Whether `from -> to` is a legal transition: `Error` is always legal,
/// anything else must be listed in [`allowed_next_spec`].
pub open spec fn can_transition(from: ConnectionState, to: ConnectionState) -> bool {
    to == ConnectionState::Error || allowed_next_spec(from).contains(to)
}

/// The name of `s`, as its `Debug`/`Display` form prints it.
pub open spec fn state_name(s: ConnectionState) -> Seq<char> {
    match s {
        ConnectionState::Unconfigured => "Unconfigured"@,
        ConnectionState::CheckingCompatibility => "CheckingCompatibility"@,
        ConnectionState::Unsupported => "Unsupported"@,
        ConnectionState::Ready => "Ready"@,
        ConnectionState::WaitingForCable => "WaitingForCable"@,
        ConnectionState::CableDetected => "CableDetected"@,
        ConnectionState::InspectingPower => "InspectingPower"@,
        ConnectionState::ConfiguringLink => "ConfiguringLink"@,
        ConnectionState::DiscoveringPeer => "DiscoveringPeer"@,
        ConnectionState::PairingRequired => "PairingRequired"@,
        ConnectionState::Pairing => "Pairing"@,
        ConnectionState::Authenticating => "Authenticating"@,
        ConnectionState::PreparingHost => "PreparingHost"@,
        ConnectionState::StartingSunshine => "StartingSunshine"@,
        ConnectionState::StartingViewer => "StartingViewer"@,
        ConnectionState::Streaming => "Streaming"@,
        ConnectionState::Suspended => "Suspended"@,
        ConnectionState::Disconnecting => "Disconnecting"@,
        ConnectionState::Disconnected => "Disconnected"@,
        ConnectionState::Recovering => "Recovering"@,
        ConnectionState::Error => "Error"@,
    }
}

impl ConnectionState {
    /// The allowed next states from this state.
    ///
    /// `Error` is reachable from every state (any transition can fail) and is
    /// therefore not listed explicitly in each arm.
    pub fn allowed_next(self) -> (r: Vec<ConnectionState>)
        ensures
            r@ == allowed_next_spec(self),
    {
        let r = match self {
            ConnectionState::Unconfigured => vec![ConnectionState::CheckingCompatibility],
            ConnectionState::CheckingCompatibility => vec![
                ConnectionState::Unsupported,
                ConnectionState::Ready,
            ],
            ConnectionState::Unsupported => vec![ConnectionState::CheckingCompatibility],
            ConnectionState::Ready => vec![ConnectionState::WaitingForCable],
            ConnectionState::WaitingForCable => vec![ConnectionState::CableDetected],
            ConnectionState::CableDetected => vec![
                ConnectionState::InspectingPower,
                ConnectionState::WaitingForCable,
            ],
            ConnectionState::InspectingPower => vec![ConnectionState::ConfiguringLink],
            ConnectionState::ConfiguringLink => vec![ConnectionState::DiscoveringPeer],
            ConnectionState::DiscoveringPeer => vec![
                ConnectionState::PairingRequired,
                ConnectionState::Authenticating,
                ConnectionState::WaitingForCable,
            ],
            ConnectionState::PairingRequired => vec![ConnectionState::Pairing],
            ConnectionState::Pairing => vec![
                ConnectionState::Authenticating,
                ConnectionState::PairingRequired,
            ],
            ConnectionState::Authenticating => vec![
                ConnectionState::PreparingHost,
                ConnectionState::PairingRequired,
            ],
            ConnectionState::PreparingHost => vec![ConnectionState::StartingSunshine],
            ConnectionState::StartingSunshine => vec![ConnectionState::StartingViewer],
            ConnectionState::StartingViewer => vec![ConnectionState::Streaming],
            ConnectionState::Streaming => vec![
                ConnectionState::Suspended,
                ConnectionState::Disconnecting,
                ConnectionState::WaitingForCable,
            ],
            ConnectionState::Suspended => vec![
                ConnectionState::Streaming,
                ConnectionState::Disconnecting,
            ],
            ConnectionState::Disconnecting => vec![ConnectionState::Disconnected],
            ConnectionState::Disconnected => vec![
                ConnectionState::WaitingForCable,
                ConnectionState::Ready,
            ],
            ConnectionState::Recovering => vec![
                ConnectionState::WaitingForCable,
                ConnectionState::DiscoveringPeer,
                ConnectionState::Disconnected,
            ],
            ConnectionState::Error => vec![
                ConnectionState::Recovering,
                ConnectionState::WaitingForCable,
                ConnectionState::Ready,
            ],
        };
        assert(r@ =~= allowed_next_spec(self));
        r
    }

    /// Whether `self -> next` is a legal transition.
    ///
    /// Any state may transition to `Error`, and `Error` may only be left via
    /// `Recovering`, `WaitingForCable` or `Ready` (see [`Self::allowed_next`]).
    pub fn can_transition_to(self, next: ConnectionState) -> (r: bool)
        ensures
            r == can_transition(self, next),
    {
        if next == ConnectionState::Error {
            return true;
        }
        let allowed = self.allowed_next();
        let mut i: usize = 0;
        while i < allowed.len()
            invariant
                allowed@ == allowed_next_spec(self),
                i <= allowed@.len(),
                forall|j: int| 0 <= j < i ==> allowed@[j] != next,
            decreases allowed@.len() - i,
        {
            if allowed[i] == next {
                assert(allowed@[i as int] == next);
                return true;
            }
            i = i + 1;
        }
        false
    }

    /// The state's name, as its `Display` form prints it.
    pub fn name(self) -> (r: &'static str)
        ensures
            r@ == state_name(self),
    {
        match self {
            ConnectionState::Unconfigured => "Unconfigured",
            ConnectionState::CheckingCompatibility => "CheckingCompatibility",
            ConnectionState::Unsupported => "Unsupported",
            ConnectionState::Ready => "Ready",
            ConnectionState::WaitingForCable => "WaitingForCable",
            ConnectionState::CableDetected => "CableDetected",
            ConnectionState::InspectingPower => "InspectingPower",
            ConnectionState::ConfiguringLink => "ConfiguringLink",
            ConnectionState::DiscoveringPeer => "DiscoveringPeer",
            ConnectionState::PairingRequired => "PairingRequired",
            ConnectionState::Pairing => "Pairing",
            ConnectionState::Authenticating => "Authenticating",
            ConnectionState::PreparingHost => "PreparingHost",
            ConnectionState::StartingSunshine => "StartingSunshine",
            ConnectionState::StartingViewer => "StartingViewer",
            ConnectionState::Streaming => "Streaming",
            ConnectionState::Suspended => "Suspended",
            ConnectionState::Disconnecting => "Disconnecting",
            ConnectionState::Disconnected => "Disconnected",
            ConnectionState::Recovering => "Recovering",
            ConnectionState::Error => "Error",
        }
    }

    /// The state's `Display` text: its name.
    pub fn to_string(self) -> (r: String)
        ensures
            r@ == state_name(self),
    {
        self.name().to_owned()
    }
}

/// An illegal transition that [`StateMachine::transition`] refused.
#[derive(Debug, Clone, Copy, PartialEq, Eq, Structural)]
pub struct TransitionError {
    pub from: ConnectionState,
    pub to: ConnectionState,
}

/// The text of a refused transition: `cannot transition from <from> to <to>`.
pub open spec fn transition_error_text(e: TransitionError) -> Seq<char> {
    "cannot transition from "@ + state_name(e.from) + " to "@ + state_name(e.to)
}

impl TransitionError {
    /// The error's `Display` text.
    pub fn to_string(&self) -> (r: String)
        ensures
            r@ == transition_error_text(*self),
    {
        let mut v = chars_of("cannot transition from ");
        push_str(&mut v, self.from.name());
        push_str(&mut v, " to ");
        push_str(&mut v, self.to.name());
        string_from_chars(&v)
    }
}

/// What a [`StateMachine`] holds: its current state and every state it
/// left, oldest first.
pub struct StateMachineView {
    pub current: ConnectionState,
    pub history: Seq<ConnectionState>,
}

/// The walk `history` followed by `current` takes only legal steps.
pub open spec fn legal_walk(m: StateMachineView) -> bool {
    &&& forall|i: int|
        0 <= i < m.history.len() - 1 ==> can_transition(
            #[trigger] m.history[i],
            m.history[i + 1],
        )
    &&& m.history.len() > 0 ==> can_transition(m.history.last(), m.current)
}

/// A validating wrapper around [`ConnectionState`] that rejects illegal
/// transitions instead of silently accepting them.
#[derive(Debug)]
pub struct StateMachine {
    current: ConnectionState,
    history: Vec<ConnectionState>,
}

impl View for StateMachine {
    type V = StateMachineView;

    closed spec fn view(&self) -> StateMachineView {
        StateMachineView { current: self.current, history: self.history@ }
    }
}

impl Clone for StateMachine {
    fn clone(&self) -> (r: Self)
        ensures
            r@ == self@,
    {
        let mut history: Vec<ConnectionState> = Vec::new();
        let mut i: usize = 0;
        while i < self.history.len()
            invariant
                i <= self.history@.len(),
                history@ == self.history@.take(i as int),
            decreases self.history@.len() - i,
        {
            history.push(self.history[i]);
            i = i + 1;
            assert(history@ =~= self.history@.take(i as int));
        }
        assert(self.history@.take(i as int) =~= self.history@);
        StateMachine { current: self.current, history }
    }
}

impl Default for StateMachine {
    fn default() -> (r: Self)
        ensures
            r@.current == ConnectionState::Unconfigured,
            r@.history == Seq::<ConnectionState>::empty(),
    {
        Self::new()
    }
}

impl StateMachine {
    /// A machine at `Unconfigured` with no history.
    pub fn new() -> (r: Self)
        ensures
            r@.current == ConnectionState::Unconfigured,
            r@.history == Seq::<ConnectionState>::empty(),
            legal_walk(r@),
    {
        Self { current: ConnectionState::Unconfigured, history: Vec::new() }
    }

    /// The current state.
    pub fn current(&self) -> (r: ConnectionState)
        ensures
            r == self@.current,
    {
        self.current
    }

    /// Every state this machine has left, oldest first.
    pub fn history(&self) -> (r: &[ConnectionState])
        ensures
            r@ == self@.history,
    {
        self.history.as_slice()
    }

    /// Attempt to move to `next`. On success, `current` is updated and the
    /// prior state is pushed onto `history`. On failure, state is unchanged.
    pub fn transition(&mut self, next: ConnectionState) -> (r: Result<
        ConnectionState,
        TransitionError,
    >)
        ensures
            can_transition(old(self)@.current, next) ==> {
                &&& r == Ok::<ConnectionState, TransitionError>(next)
                &&& final(self)@.current == next
                &&& final(self)@.history == old(self)@.history.push(old(self)@.current)
            },
            !can_transition(old(self)@.current, next) ==> {
                &&& r == Err::<ConnectionState, TransitionError>(
                    TransitionError { from: old(self)@.current, to: next },
                )
                &&& final(self)@ == old(self)@
            },
            final(self)@ == try_step(old(self)@, next),
            legal_walk(old(self)@) ==> legal_walk(final(self)@),
    {
        if !self.current.can_transition_to(next) {
            return Err(TransitionError { from: self.current, to: next });
        }
        let ghost before = self@;
        self.history.push(self.current);
        self.current = next;
        proof {
            let after = self@;
            if legal_walk(before) {
                assert forall|i: int|
                    0 <= i < after.history.len() - 1 implies can_transition(
                    #[trigger] after.history[i],
                    after.history[i + 1],
                ) by {
                    if i < before.history.len() - 1 {
                        assert(after.history[i] == before.history[i]);
                        assert(after.history[i + 1] == before.history[i + 1]);
                    } else {
                        assert(after.history[i + 1] == before.current);
                        assert(after.history[i] == before.history.last());
                    }
                }
            }
        }
        Ok(self.current)
    }

    /// Restore a machine at `current` without history (simulation / tests).
    pub fn restored(current: ConnectionState) -> (r: Self)
        ensures
            r@.current == current,
            r@.history == Seq::<ConnectionState>::empty(),
            legal_walk(r@),
    {
        Self { current, history: Vec::new() }
    }
}

/// Attempts `sm -> next`, leaving `sm` unchanged when the step is illegal.
pub fn try_transition(sm: &mut StateMachine, next: ConnectionState)
    ensures
        can_transition(old(sm)@.current, next) ==> {
            &&& final(sm)@.current == next
            &&& final(sm)@.history == old(sm)@.history.push(old(sm)@.current)
        },
        !can_transition(old(sm)@.current, next) ==> final(sm)@ == old(sm)@,
        final(sm)@ == try_step(old(sm)@, next),
        legal_walk(old(sm)@) ==> legal_walk(final(sm)@),
{
    let _ = sm.transition(next);
}

/// The machine brought to `WaitingForCable` after the cable was lost:
/// unchanged when already waiting, directly when that step is legal,
/// otherwise through `Error`.
pub open spec fn forced_waiting(m: StateMachineView) -> StateMachineView {
    if m.current == ConnectionState::WaitingForCable {
        m
    } else if can_transition(m.current, ConnectionState::WaitingForCable) {
        try_step(m, ConnectionState::WaitingForCable)
    } else {
        try_step(try_step(m, ConnectionState::Error), ConnectionState::WaitingForCable)
    }
}

/// Brings `sm` to `WaitingForCable` after the direct cable was lost: directly
/// when that step is legal, otherwise through `Error`.
pub fn force_waiting_for_cable(sm: &mut StateMachine)
    ensures
        final(sm)@.current == ConnectionState::WaitingForCable,
        old(sm)@.current == ConnectionState::WaitingForCable ==> final(sm)@ == old(sm)@,
        old(sm)@.current != ConnectionState::WaitingForCable && can_transition(
            old(sm)@.current,
            ConnectionState::WaitingForCable,
        ) ==> final(sm)@.history == old(sm)@.history.push(old(sm)@.current),
        old(sm)@.current != ConnectionState::WaitingForCable && !can_transition(
            old(sm)@.current,
            ConnectionState::WaitingForCable,
        ) ==> final(sm)@.history == old(sm)@.history.push(old(sm)@.current).push(
            ConnectionState::Error,
        ),
        final(sm)@ == forced_waiting(old(sm)@),
        legal_walk(old(sm)@) ==> legal_walk(final(sm)@),
{
    let current = sm.current();
    if current == ConnectionState::WaitingForCable {
        return;
    }
    if current.can_transition_to(ConnectionState::WaitingForCable) {
        let _ = sm.transition(ConnectionState::WaitingForCable);
        return;
    }
    let _ = sm.transition(ConnectionState::Error);
    proof {
        assert(allowed_next_spec(ConnectionState::Error)[1] == ConnectionState::WaitingForCable);
    }
    let _ = sm.transition(ConnectionState::WaitingForCable);
}

/// The machine after one attempted transition to `next`: taken when legal,
/// otherwise nothing changes.
pub open spec fn try_step(m: StateMachineView, next: ConnectionState) -> StateMachineView {
    if can_transition(m.current, next) {
        StateMachineView { current: next, history: m.history.push(m.current) }
    } else {
        m
    }
}

/// Taking the transitions `targets` in order from `m`: the machine after
/// the last accepted one, and the first refusal, if any (nothing is tried
/// after it).
pub open spec fn steps(m: StateMachineView, targets: Seq<ConnectionState>) -> (
    StateMachineView,
    Option<TransitionError>,
)
    decreases targets.len(),
{
    if targets.len() == 0 {
        (m, None)
    } else if can_transition(m.current, targets[0]) {
        steps(
            StateMachineView { current: targets[0], history: m.history.push(m.current) },
            targets.drop_first(),
        )
    } else {
        (m, Some(TransitionError { from: m.current, to: targets[0] }))
    }
}

/// One legal step keeps a legal walk legal.
proof fn lemma_step_keeps_legal_walk(m: StateMachineView, next: ConnectionState)
    requires
        legal_walk(m),
        can_transition(m.current, next),
    ensures
        legal_walk(StateMachineView { current: next, history: m.history.push(m.current) }),
{
    let after = StateMachineView { current: next, history: m.history.push(m.current) };
    assert forall|i: int| 0 <= i < after.history.len() - 1 implies can_transition(
        #[trigger] after.history[i],
        after.history[i + 1],
    ) by {
        if i < m.history.len() - 1 {
            assert(after.history[i] == m.history[i]);
            assert(after.history[i + 1] == m.history[i + 1]);
        } else {
            assert(after.history[i + 1] == m.current);
            assert(after.history[i] == m.history.last());
        }
    }
}

/// Taking transitions in order only takes legal steps: a legal walk stays
/// legal whatever the targets.
pub proof fn lemma_steps_keep_legal_walk(m: StateMachineView, targets: Seq<ConnectionState>)
    requires
        legal_walk(m),
    ensures
        legal_walk(steps(m, targets).0),
    decreases targets.len(),
{
    if targets.len() > 0 && can_transition(m.current, targets[0]) {
        lemma_step_keeps_legal_walk(m, targets[0]);
        lemma_steps_keep_legal_walk(
            StateMachineView { current: targets[0], history: m.history.push(m.current) },
            targets.drop_first(),
        );
    }
}

/// Takes the transitions `targets` in order, stopping at the first refusal.
pub fn transition_path(sm: &mut StateMachine, targets: &Vec<ConnectionState>) -> (r: Result<
    (),
    TransitionError,
>)
    ensures
        final(sm)@ == steps(old(sm)@, targets@).0,
        match steps(old(sm)@, targets@).1 {
            Some(e) => r == Err::<(), TransitionError>(e),
            None => r is Ok,
        },
        legal_walk(old(sm)@) ==> legal_walk(final(sm)@),
{
    let mut i: usize = 0;
    assert(targets@.skip(0) =~= targets@);
    while i < targets.len()
        invariant
            i <= targets@.len(),
            steps(old(sm)@, targets@) == steps(sm@, targets@.skip(i as int)),
            legal_walk(old(sm)@) ==> legal_walk(sm@),
        decreases targets@.len() - i,
    {
        let ghost before = sm@;
        let ghost rest = targets@.skip(i as int);
        assert(rest[0] == targets@[i as int]);
        assert(rest.drop_first() =~= targets@.skip(i + 1));
        match sm.transition(targets[i]) {
            Ok(_) => {},
            Err(e) => {
                return Err(e);
            },
        }
        assert(sm@ == StateMachineView { current: rest[0], history: before.history.push(before.current) });
        i = i + 1;
    }
    assert(targets@.skip(i as int) =~= Seq::<ConnectionState>::empty());
    Ok(())
}

/// Every state may fail into `Error`.
pub proof fn lemma_any_state_can_error(s: ConnectionState)
    ensures
        can_transition(s, ConnectionState::Error),
{
}

/// `Error` is left only through `Recovering`, `WaitingForCable` or `Ready`
/// (or stays in `Error`).
pub proof fn lemma_error_exits(next: ConnectionState)
    ensures
        can_transition(ConnectionState::Error, next) <==> (next == ConnectionState::Recovering
            || next == ConnectionState::WaitingForCable || next == ConnectionState::Ready || next
            == ConnectionState::Error),
{
    let a = allowed_next_spec(ConnectionState::Error);
    if a.contains(next) {
        let k = choose|k: int| 0 <= k < a.len() && a[k] == next;
        assert(k == 0 || k == 1 || k == 2);
    }
    if next == ConnectionState::Recovering {
        assert(a[0] == next);
    }
    if next == ConnectionState::WaitingForCable {
        assert(a[1] == next);
    }
    if next == ConnectionState::Ready {
        assert(a[2] == next);
    }
}

/// From any state `WaitingForCable` is reachable in at most two legal steps,
/// the second one (if needed) through `Error`.
pub proof fn lemma_waiting_for_cable_always_reachable(s: ConnectionState)
    ensures
        can_transition(s, ConnectionState::WaitingForCable) || (can_transition(
            s,
            ConnectionState::Error,
        ) && can_transition(ConnectionState::Error, ConnectionState::WaitingForCable)),
{
    lemma_error_exits(ConnectionState::WaitingForCable);
}


/// The machine after attempting each of `targets` in turn, each step taken
/// when legal and skipped otherwise: what a sequence of
/// [`StateMachine::transition`] calls leaves (each call's contract is one
/// [`try_step`]).
pub open spec fn try_steps(m: StateMachineView, targets: Seq<ConnectionState>) -> StateMachineView
    decreases targets.len(),
{
    if targets.len() == 0 {
        m
    } else {
        try_steps(try_step(m, targets[0]), targets.drop_first())
    }
}

/// How many of `targets` are accepted when attempted in turn from `m`: the
/// number of those calls that return `Ok`.
pub open spec fn accepted_count(m: StateMachineView, targets: Seq<ConnectionState>) -> nat
    decreases targets.len(),
{
    if targets.len() == 0 {
        0
    } else {
        (if can_transition(m.current, targets[0]) {
            1nat
        } else {
            0nat
        }) + accepted_count(try_step(m, targets[0]), targets.drop_first())
    }
}

proof fn lemma_try_steps_grow(m: StateMachineView, targets: Seq<ConnectionState>)
    requires
        legal_walk(m),
    ensures
        try_steps(m, targets).history.len() == m.history.len() + accepted_count(m, targets),
        try_steps(m, targets).history.subrange(0, m.history.len() as int) == m.history,
        accepted_count(m, targets) > 0 ==> try_steps(m, targets).history[m.history.len() as int]
            == m.current,
        accepted_count(m, targets) == 0 ==> try_steps(m, targets) == m,
        legal_walk(try_steps(m, targets)),
    decreases targets.len(),
{
    if targets.len() > 0 {
        let n = try_step(m, targets[0]);
        if can_transition(m.current, targets[0]) {
            lemma_step_keeps_legal_walk(m, targets[0]);
        }
        lemma_try_steps_grow(n, targets.drop_first());
        let r = try_steps(m, targets);
        assert(r == try_steps(n, targets.drop_first()));
        if can_transition(m.current, targets[0]) {
            assert(n.history == m.history.push(m.current));
            assert(r.history.subrange(0, n.history.len() as int) == n.history);
            assert(r.history[m.history.len() as int] == n.history[m.history.len() as int]);
            assert(r.history.subrange(0, m.history.len() as int) =~= n.history.subrange(
                0,
                m.history.len() as int,
            ));
            assert(n.history.subrange(0, m.history.len() as int) =~= m.history);
        } else {
            assert(n == m);
        }
    } else {
        assert(m.history.subrange(0, m.history.len() as int) =~= m.history);
    }
}

/// The history records exactly the accepted steps: starting from a fresh
/// machine at `s0` (as `new` or `restored` gives it) and attempting the
/// transitions `targets` in turn, the history holds one entry per accepted
/// step, starts at `s0`, and is a legal walk ending in a legal step to the
/// current state; when no step is accepted the machine is still at `s0`.
pub proof fn lemma_history_counts_accepted_steps(s0: ConnectionState, targets: Seq<ConnectionState>)
    ensures
        ({
            let start = StateMachineView { current: s0, history: Seq::empty() };
            let r = try_steps(start, targets);
            let k = accepted_count(start, targets);
            &&& r.history.len() == k
            &&& forall|i: int| 0 <= i < k - 1 ==> can_transition(#[trigger] r.history[i], r.history[i + 1])
            &&& k > 0 ==> r.history[0] == s0 && can_transition(r.history[k - 1], r.current)
            &&& k == 0 ==> r.current == s0
        }),
{
    let start = StateMachineView { current: s0, history: Seq::empty() };
    lemma_try_steps_grow(start, targets);
}


proof fn lemma_in1(a: ConnectionState, x: ConnectionState)
    ensures
        seq![a].contains(x) <==> x == a,
{
    if x == a {
        assert(seq![a][0] == a);
    }
}

proof fn lemma_in2(a: ConnectionState, b: ConnectionState, x: ConnectionState)
    ensures
        seq![a, b].contains(x) <==> (x == a || x == b),
{
    let s = seq![a, b];
    if x == a {
        assert(s[0] == a);
    }
    if x == b {
        assert(s[1] == b);
    }
}

proof fn lemma_in3(a: ConnectionState, b: ConnectionState, c: ConnectionState, x: ConnectionState)
    ensures
        seq![a, b, c].contains(x) <==> (x == a || x == b || x == c),
{
    let s = seq![a, b, c];
    if x == a {
        assert(s[0] == a);
    }
    if x == b {
        assert(s[1] == b);
    }
    if x == c {
        assert(s[2] == c);
    }
}

/// The transition table: `Error` may be entered from every state, and
/// otherwise each state may move only to the states listed here.
pub proof fn lemma_transition_table(from: ConnectionState, to: ConnectionState)
    ensures
        can_transition(from, to) <==> (to == ConnectionState::Error || match from {
            ConnectionState::Unconfigured => to == ConnectionState::CheckingCompatibility,
            ConnectionState::CheckingCompatibility => to == ConnectionState::Unsupported || to
                == ConnectionState::Ready,
            ConnectionState::Unsupported => to == ConnectionState::CheckingCompatibility,
            ConnectionState::Ready => to == ConnectionState::WaitingForCable,
            ConnectionState::WaitingForCable => to == ConnectionState::CableDetected,
            ConnectionState::CableDetected => to == ConnectionState::InspectingPower || to
                == ConnectionState::WaitingForCable,
            ConnectionState::InspectingPower => to == ConnectionState::ConfiguringLink,
            ConnectionState::ConfiguringLink => to == ConnectionState::DiscoveringPeer,
            ConnectionState::DiscoveringPeer => to == ConnectionState::PairingRequired || to
                == ConnectionState::Authenticating || to == ConnectionState::WaitingForCable,
            ConnectionState::PairingRequired => to == ConnectionState::Pairing,
            ConnectionState::Pairing => to == ConnectionState::Authenticating || to
                == ConnectionState::PairingRequired,
            ConnectionState::Authenticating => to == ConnectionState::PreparingHost || to
                == ConnectionState::PairingRequired,
            ConnectionState::PreparingHost => to == ConnectionState::StartingSunshine,
            ConnectionState::StartingSunshine => to == ConnectionState::StartingViewer,
            ConnectionState::StartingViewer => to == ConnectionState::Streaming,
            ConnectionState::Streaming => to == ConnectionState::Suspended || to
                == ConnectionState::Disconnecting || to == ConnectionState::WaitingForCable,
            ConnectionState::Suspended => to == ConnectionState::Streaming || to
                == ConnectionState::Disconnecting,
            ConnectionState::Disconnecting => to == ConnectionState::Disconnected,
            ConnectionState::Disconnected => to == ConnectionState::WaitingForCable || to
                == ConnectionState::Ready,
            ConnectionState::Recovering => to == ConnectionState::WaitingForCable || to
                == ConnectionState::DiscoveringPeer || to == ConnectionState::Disconnected,
            ConnectionState::Error => to == ConnectionState::Recovering || to
                == ConnectionState::WaitingForCable || to == ConnectionState::Ready,
        }),
{
    match from {
        ConnectionState::Unconfigured => lemma_in1(ConnectionState::CheckingCompatibility, to),
        ConnectionState::CheckingCompatibility => lemma_in2(ConnectionState::Unsupported, ConnectionState::Ready, to),
        ConnectionState::Unsupported => lemma_in1(ConnectionState::CheckingCompatibility, to),
        ConnectionState::Ready => lemma_in1(ConnectionState::WaitingForCable, to),
        ConnectionState::WaitingForCable => lemma_in1(ConnectionState::CableDetected, to),
        ConnectionState::CableDetected => lemma_in2(ConnectionState::InspectingPower, ConnectionState::WaitingForCable, to),
        ConnectionState::InspectingPower => lemma_in1(ConnectionState::ConfiguringLink, to),
        ConnectionState::ConfiguringLink => lemma_in1(ConnectionState::DiscoveringPeer, to),
        ConnectionState::DiscoveringPeer => lemma_in3(ConnectionState::PairingRequired, ConnectionState::Authenticating, ConnectionState::WaitingForCable, to),
        ConnectionState::PairingRequired => lemma_in1(ConnectionState::Pairing, to),
        ConnectionState::Pairing => lemma_in2(ConnectionState::Authenticating, ConnectionState::PairingRequired, to),
        ConnectionState::Authenticating => lemma_in2(ConnectionState::PreparingHost, ConnectionState::PairingRequired, to),
        ConnectionState::PreparingHost => lemma_in1(ConnectionState::StartingSunshine, to),
        ConnectionState::StartingSunshine => lemma_in1(ConnectionState::StartingViewer, to),
        ConnectionState::StartingViewer => lemma_in1(ConnectionState::Streaming, to),
        ConnectionState::Streaming => lemma_in3(ConnectionState::Suspended, ConnectionState::Disconnecting, ConnectionState::WaitingForCable, to),
        ConnectionState::Suspended => lemma_in2(ConnectionState::Streaming, ConnectionState::Disconnecting, to),
        ConnectionState::Disconnecting => lemma_in1(ConnectionState::Disconnected, to),
        ConnectionState::Disconnected => lemma_in2(ConnectionState::WaitingForCable, ConnectionState::Ready, to),
        ConnectionState::Recovering => lemma_in3(ConnectionState::WaitingForCable, ConnectionState::DiscoveringPeer, ConnectionState::Disconnected, to),
        ConnectionState::Error => lemma_in3(ConnectionState::Recovering, ConnectionState::WaitingForCable, ConnectionState::Ready, to),
    }
}


/// Taking transitions in order ends at the last target when none was
/// refused.
pub proof fn lemma_steps_end_at_last(m: StateMachineView, targets: Seq<ConnectionState>)
    requires
        targets.len() > 0,
        steps(m, targets).1 is None,
    ensures
        steps(m, targets).0.current == targets.last(),
    decreases targets.len(),
{
    let n = StateMachineView { current: targets[0], history: m.history.push(m.current) };
    if targets.len() == 1 {
        assert(targets.drop_first() =~= Seq::<ConnectionState>::empty());
    } else {
        lemma_steps_end_at_last(n, targets.drop_first());
    }
}

/// A chain of legal steps is taken whole.
pub proof fn lemma_steps_chain(m: StateMachineView, targets: Seq<ConnectionState>)
    requires
        targets.len() > 0,
        can_transition(m.current, targets[0]),
        forall|i: int| 0 <= i < targets.len() - 1 ==> can_transition(#[trigger] targets[i], targets[i + 1]),
    ensures
        steps(m, targets).1 is None,
        steps(m, targets).0.current == targets.last(),
    decreases targets.len(),
{
    let n = StateMachineView { current: targets[0], history: m.history.push(m.current) };
    let rest = targets.drop_first();
    if targets.len() == 1 {
        assert(rest =~= Seq::<ConnectionState>::empty());
    } else {
        assert(rest[0] == targets[1]);
        assert forall|i: int| 0 <= i < rest.len() - 1 implies can_transition(#[trigger] rest[i], rest[i + 1]) by {
            assert(rest[i] == targets[i + 1]);
            assert(rest[i + 1] == targets[i + 2]);
        }
        lemma_steps_chain(n, rest);
    }
}

} // verus!
