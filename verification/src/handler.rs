use crate::config::{SshHostKeyVerificationMode, TargetSSHOptions};
use crate::known_hosts::{
    address_of, key_text, validation_of, HostAddress, HostKey, KeyText, KnownHostValidationResult, KnownHosts,
    ValidationModel,
};
use vstd::prelude::*;

verus! {

/// Why an outbound connection was given up.
#[derive(Debug, PartialEq, Eq)]
pub enum ConnectionError {
    HostKeyMismatch {
        received_key_type: String,
        received_key_base64: String,
        known_key_type: String,
        known_key_base64: String,
    },
    Internal,
}

#[derive(Debug, PartialEq, Eq)]
pub enum ClientHandlerError {
    ConnectionError(ConnectionError),
    Internal,
}

/// What the handler tells its one consumer. With `HostKeyUnknown` the caller
/// sends along a single-use channel for the operator's answer.
#[derive(Debug, PartialEq, Eq)]
pub enum ClientHandlerEvent {
    HostKeyReceived(HostKey),
    HostKeyUnknown(HostKey),
    Disconnect,
}

/// Where one connection attempt stands in the host-key decision.
#[derive(Debug, PartialEq, Eq)]
pub enum BridgePhase {
    Idle,
    Received(HostKey),
    AwaitingReply(HostKey),
    Accepted,
    Rejected,
}

/// What happened outside since the handler's last action.
#[derive(Debug, PartialEq, Eq)]
pub enum BridgeInput {
    /// The connection library handed over the server's key.
    KeyReceived(HostKey),
    /// The last notification reached the consumer.
    Delivered,
    /// The consumer of notifications is gone.
    Undeliverable,
    /// The operator answered the prompt.
    Reply(bool),
    /// The reply channel was dropped without an answer.
    ReplyDropped,
}

/// What the caller has to do next.
#[derive(Debug, PartialEq, Eq)]
pub enum BridgeAction {
    /// Send the event, then report `Delivered` or `Undeliverable`; after
    /// `HostKeyUnknown` was delivered, await the answer and report it.
    Notify(ClientHandlerEvent),
    /// Hand the verdict back to the connection library.
    Finish(Result<bool, ClientHandlerError>),
}

pub ghost enum PhaseModel {
    Idle,
    Received(KeyText),
    AwaitingReply(KeyText),
    Accepted,
    Rejected,
}

pub ghost enum InputModel {
    KeyReceived(KeyText),
    Delivered,
    Undeliverable,
    Reply(bool),
    ReplyDropped,
}

pub ghost enum VerdictModel {
    Accepted,
    Rejected,
    Mismatch { received: KeyText, known: KeyText },
    ConnectionInternal,
    Internal,
}

pub ghost enum ActionModel {
    Announce(KeyText),
    Prompt(KeyText),
    Disconnect,
    Finish(VerdictModel),
}

pub ghost struct StepModel {
    pub phase: PhaseModel,
    pub known: Map<HostAddress, KeyText>,
    pub action: ActionModel,
}

impl BridgePhase {
    pub open spec fn view(self) -> PhaseModel {
        match self {
            BridgePhase::Idle => PhaseModel::Idle,
            BridgePhase::Received(k) => PhaseModel::Received(key_text(k)),
            BridgePhase::AwaitingReply(k) => PhaseModel::AwaitingReply(key_text(k)),
            BridgePhase::Accepted => PhaseModel::Accepted,
            BridgePhase::Rejected => PhaseModel::Rejected,
        }
    }
}

impl BridgeInput {
    pub open spec fn view(self) -> InputModel {
        match self {
            BridgeInput::KeyReceived(k) => InputModel::KeyReceived(key_text(k)),
            BridgeInput::Delivered => InputModel::Delivered,
            BridgeInput::Undeliverable => InputModel::Undeliverable,
            BridgeInput::Reply(b) => InputModel::Reply(b),
            BridgeInput::ReplyDropped => InputModel::ReplyDropped,
        }
    }
}

/// The verdict that a finished attempt hands back, over plain values.
pub open spec fn verdict_of(r: Result<bool, ClientHandlerError>) -> VerdictModel {
    match r {
        Ok(true) => VerdictModel::Accepted,
        Ok(false) => VerdictModel::Rejected,
        Err(ClientHandlerError::Internal) => VerdictModel::Internal,
        Err(ClientHandlerError::ConnectionError(ConnectionError::Internal)) => VerdictModel::ConnectionInternal,
        Err(
            ClientHandlerError::ConnectionError(
                ConnectionError::HostKeyMismatch {
                    received_key_type,
                    received_key_base64,
                    known_key_type,
                    known_key_base64,
                },
            ),
        ) => VerdictModel::Mismatch {
            received: (received_key_type@, received_key_base64@),
            known: (known_key_type@, known_key_base64@),
        },
    }
}

impl BridgeAction {
    pub open spec fn view(self) -> ActionModel {
        match self {
            BridgeAction::Notify(ClientHandlerEvent::HostKeyReceived(k)) => ActionModel::Announce(key_text(k)),
            BridgeAction::Notify(ClientHandlerEvent::HostKeyUnknown(k)) => ActionModel::Prompt(key_text(k)),
            BridgeAction::Notify(ClientHandlerEvent::Disconnect) => ActionModel::Disconnect,
            BridgeAction::Finish(r) => ActionModel::Finish(verdict_of(r)),
        }
    }
}

/// How many inputs an attempt may still take before it is decided.
pub open spec fn steps_left(phase: PhaseModel) -> nat {
    match phase {
        PhaseModel::Idle => 3,
        PhaseModel::Received(_) => 2,
        PhaseModel::AwaitingReply(_) => 1,
        PhaseModel::Accepted => 0,
        PhaseModel::Rejected => 0,
    }
}

/// Whether the attempt has been decided.
pub open spec fn is_terminal(phase: PhaseModel) -> bool {
    phase is Accepted || phase is Rejected
}

/// What becomes of a key that is not on file, by verification mode.
pub open spec fn unknown_key_step(
    mode: SshHostKeyVerificationMode,
    at: HostAddress,
    known: Map<HostAddress, KeyText>,
    key: KeyText,
) -> StepModel {
    match mode {
        SshHostKeyVerificationMode::AutoAccept => StepModel {
            phase: PhaseModel::Accepted,
            known: known.insert(at, key),
            action: ActionModel::Finish(VerdictModel::Accepted),
        },
        SshHostKeyVerificationMode::AutoReject => StepModel {
            phase: PhaseModel::Rejected,
            known,
            action: ActionModel::Finish(VerdictModel::Rejected),
        },
        SshHostKeyVerificationMode::Prompt => StepModel {
            phase: PhaseModel::AwaitingReply(key),
            known,
            action: ActionModel::Prompt(key),
        },
    }
}

/// What follows once the announcement of a received key was delivered.
pub open spec fn validated_step(
    mode: SshHostKeyVerificationMode,
    at: HostAddress,
    known: Map<HostAddress, KeyText>,
    key: KeyText,
) -> StepModel {
    match validation_of(known, at, key) {
        ValidationModel::Valid => StepModel {
            phase: PhaseModel::Accepted,
            known,
            action: ActionModel::Finish(VerdictModel::Accepted),
        },
        ValidationModel::Invalid(on_file) => StepModel {
            phase: PhaseModel::Rejected,
            known,
            action: ActionModel::Finish(VerdictModel::Mismatch { received: key, known: on_file }),
        },
        ValidationModel::Unknown => unknown_key_step(mode, at, known, key),
    }
}

/// Whether the step puts the received key on file for the target: an
/// unknown key under auto-accept, or a key that the operator said yes to.
pub open spec fn step_trusts(
    phase: PhaseModel,
    mode: SshHostKeyVerificationMode,
    at: HostAddress,
    known: Map<HostAddress, KeyText>,
    input: InputModel,
) -> bool {
    match (phase, input) {
        (PhaseModel::Received(k), InputModel::Delivered) => validation_of(known, at, k) is Unknown && mode
            == SshHostKeyVerificationMode::AutoAccept,
        (PhaseModel::AwaitingReply(_), InputModel::Reply(true)) => true,
        _ => false,
    }
}

/// The decision flow of one connection attempt: from the phase, the trust
/// store and what happened outside, to the next phase, the store and the
/// action owed. An input out of turn fails the attempt and changes nothing on
/// file; a decided attempt stays decided.
pub open spec fn step_spec(
    phase: PhaseModel,
    mode: SshHostKeyVerificationMode,
    at: HostAddress,
    known: Map<HostAddress, KeyText>,
    input: InputModel,
) -> StepModel {
    match (phase, input) {
        (PhaseModel::Idle, InputModel::KeyReceived(k)) => StepModel {
            phase: PhaseModel::Received(k),
            known,
            action: ActionModel::Announce(k),
        },
        (PhaseModel::Received(k), InputModel::Delivered) => validated_step(mode, at, known, k),
        (PhaseModel::Received(_), InputModel::Undeliverable) => StepModel {
            phase: PhaseModel::Rejected,
            known,
            action: ActionModel::Finish(VerdictModel::ConnectionInternal),
        },
        (PhaseModel::AwaitingReply(k), InputModel::Reply(true)) => StepModel {
            phase: PhaseModel::Accepted,
            known: known.insert(at, k),
            action: ActionModel::Finish(VerdictModel::Accepted),
        },
        (PhaseModel::AwaitingReply(_), InputModel::Reply(false)) => StepModel {
            phase: PhaseModel::Rejected,
            known,
            action: ActionModel::Finish(VerdictModel::Rejected),
        },
        _ => StepModel {
            phase: if is_terminal(phase) {
                phase
            } else {
                PhaseModel::Rejected
            },
            known,
            action: ActionModel::Finish(VerdictModel::Internal),
        },
    }
}

/// The handler of one outbound connection attempt.
pub struct ClientHandler {
    ssh_options: TargetSSHOptions,
    host_key_verification: SshHostKeyVerificationMode,
    session_tag: String,
    phase: BridgePhase,
    disconnected: bool,
}

impl ClientHandler {
    pub closed spec fn phase(self) -> PhaseModel {
        self.phase@
    }

    pub closed spec fn mode(self) -> SshHostKeyVerificationMode {
        self.host_key_verification
    }

    /// The host and port that the attempt connects to.
    pub closed spec fn target(self) -> HostAddress {
        (self.ssh_options.host@, self.ssh_options.port)
    }

    pub closed spec fn tag(self) -> Seq<char> {
        self.session_tag@
    }

    /// Whether the teardown notice has been handed out.
    pub closed spec fn disconnected(self) -> bool {
        self.disconnected
    }

    pub fn new(ssh_options: TargetSSHOptions, mode: SshHostKeyVerificationMode, session_tag: String) -> (r: Self)
        ensures
            r.phase() == PhaseModel::Idle,
            r.mode() == mode,
            r.target() == (ssh_options.host@, ssh_options.port),
            r.tag() == session_tag@,
            !r.disconnected(),
    {
        ClientHandler {
            ssh_options,
            host_key_verification: mode,
            session_tag,
            phase: BridgePhase::Idle,
            disconnected: false,
        }
    }

    pub fn session_tag(&self) -> (r: &String)
        ensures
            r@ == self.tag(),
    {
        &self.session_tag
    }

    /// The verdict, once the attempt is decided.
    pub fn decided(&self) -> (r: Option<bool>)
        ensures
            r == match self.phase() {
                PhaseModel::Accepted => Some(true),
                PhaseModel::Rejected => Some(false),
                _ => None::<bool>,
            },
    {
        match &self.phase {
            BridgePhase::Accepted => Some(true),
            BridgePhase::Rejected => Some(false),
            _ => None,
        }
    }

    /// Hands the verdict back unchanged, as the connection library asks when
    /// a check is done.
    pub fn finished_bool(&self, b: bool) -> (r: Result<bool, ClientHandlerError>)
        ensures
            r == Ok::<bool, ClientHandlerError>(b),
    {
        Ok(b)
    }

    /// Takes what happened outside and says what to do next: the decision
    /// flow for the server's key, see `step_spec`. Where the step trusts the
    /// key, the target's entry carries the time `now` and every other entry
    /// is as it was; any other step leaves the entries as they were.
    pub fn check_server_key(&mut self, known_hosts: &mut KnownHosts, input: BridgeInput, now: i64) -> (r:
        BridgeAction)
        requires
            old(known_hosts).wf(),
        ensures
            final(known_hosts).wf(),
            final(self).mode() == old(self).mode(),
            final(self).target() == old(self).target(),
            final(self).tag() == old(self).tag(),
            final(self).disconnected() == old(self).disconnected(),
            (StepModel { phase: final(self).phase(), known: final(known_hosts)@, action: r@ }) == step_spec(
                old(self).phase(),
                old(self).mode(),
                old(self).target(),
                old(known_hosts)@,
                input@,
            ),
            step_trusts(old(self).phase(), old(self).mode(), old(self).target(), old(known_hosts)@, input@) ==> {
                &&& final(known_hosts).has(old(self).target())
                &&& final(known_hosts).entries()[final(known_hosts).index_of(old(self).target())].trusted_at
                    == now
                &&& forall|i: int|
                    0 <= i < old(known_hosts).entries().len() && address_of(#[trigger] old(known_hosts).entries()[i])
                        != old(self).target() ==> final(known_hosts).entries()[i] == old(known_hosts).entries()[i]
            },
            !step_trusts(old(self).phase(), old(self).mode(), old(self).target(), old(known_hosts)@, input@)
                ==> final(known_hosts).entries() == old(known_hosts).entries(),
    {
        match (&self.phase, input) {
            (BridgePhase::Idle, BridgeInput::KeyReceived(key)) => {
                let announced = key.clone();
                self.phase = BridgePhase::Received(key);
                BridgeAction::Notify(ClientHandlerEvent::HostKeyReceived(announced))
            },
            (BridgePhase::Received(k), BridgeInput::Delivered) => {
                let key = k.clone();
                match known_hosts.validate(&self.ssh_options.host, self.ssh_options.port, &key) {
                    KnownHostValidationResult::Valid => {
                        self.phase = BridgePhase::Accepted;
                        BridgeAction::Finish(Ok(true))
                    },
                    KnownHostValidationResult::Invalid { key_type, key_base64 } => {
                        self.phase = BridgePhase::Rejected;
                        BridgeAction::Finish(
                            Err(
                                ClientHandlerError::ConnectionError(
                                    ConnectionError::HostKeyMismatch {
                                        received_key_type: key.key_type,
                                        received_key_base64: key.key_base64,
                                        known_key_type: key_type,
                                        known_key_base64: key_base64,
                                    },
                                ),
                            ),
                        )
                    },
                    KnownHostValidationResult::Unknown => {
                        match self.host_key_verification {
                            SshHostKeyVerificationMode::AutoAccept => {
                                known_hosts.trust(&self.ssh_options.host, self.ssh_options.port, &key, now);
                                self.phase = BridgePhase::Accepted;
                                BridgeAction::Finish(Ok(true))
                            },
                            SshHostKeyVerificationMode::AutoReject => {
                                self.phase = BridgePhase::Rejected;
                                BridgeAction::Finish(Ok(false))
                            },
                            SshHostKeyVerificationMode::Prompt => {
                                let shown = key.clone();
                                self.phase = BridgePhase::AwaitingReply(key);
                                BridgeAction::Notify(ClientHandlerEvent::HostKeyUnknown(shown))
                            },
                        }
                    },
                }
            },
            (BridgePhase::Received(_), BridgeInput::Undeliverable) => {
                self.phase = BridgePhase::Rejected;
                BridgeAction::Finish(Err(ClientHandlerError::ConnectionError(ConnectionError::Internal)))
            },
            (BridgePhase::AwaitingReply(k), BridgeInput::Reply(accepted)) => {
                if accepted {
                    let key = k.clone();
                    known_hosts.trust(&self.ssh_options.host, self.ssh_options.port, &key, now);
                    self.phase = BridgePhase::Accepted;
                    BridgeAction::Finish(Ok(true))
                } else {
                    self.phase = BridgePhase::Rejected;
                    BridgeAction::Finish(Ok(false))
                }
            },
            (BridgePhase::Accepted, _) => BridgeAction::Finish(Err(ClientHandlerError::Internal)),
            (BridgePhase::Rejected, _) => BridgeAction::Finish(Err(ClientHandlerError::Internal)),
            _ => {
                self.phase = BridgePhase::Rejected;
                BridgeAction::Finish(Err(ClientHandlerError::Internal))
            },
        }
    }

    /// Teardown: the notice that the connection is gone, handed out on the
    /// first call and never again.
    pub fn disconnect(&mut self) -> (r: Option<ClientHandlerEvent>)
        ensures
            final(self).disconnected(),
            final(self).phase() == old(self).phase(),
            final(self).mode() == old(self).mode(),
            final(self).target() == old(self).target(),
            final(self).tag() == old(self).tag(),
            old(self).disconnected() ==> r.is_none(),
            !old(self).disconnected() ==> r == Some(ClientHandlerEvent::Disconnect),
    {
        if self.disconnected {
            None
        } else {
            self.disconnected = true;
            Some(ClientHandlerEvent::Disconnect)
        }
    }
}

/// In prompt mode a key that is not on file is shown to the operator. A yes
/// accepts the connection and puts the key on file, so that the next
/// validation finds it valid; a no, or a reply channel dropped without an
/// answer, rejects the connection and leaves the store as it was.
pub proof fn law_prompt_decides(known: Map<HostAddress, KeyText>, at: HostAddress, key: KeyText)
    requires
        !known.contains_key(at),
    ensures
        step_spec(
            PhaseModel::Received(key),
            SshHostKeyVerificationMode::Prompt,
            at,
            known,
            InputModel::Delivered,
        ) == (StepModel { phase: PhaseModel::AwaitingReply(key), known, action: ActionModel::Prompt(key) }),
        step_spec(
            PhaseModel::AwaitingReply(key),
            SshHostKeyVerificationMode::Prompt,
            at,
            known,
            InputModel::Reply(true),
        ) == (StepModel {
            phase: PhaseModel::Accepted,
            known: known.insert(at, key),
            action: ActionModel::Finish(VerdictModel::Accepted),
        }),
        validation_of(known.insert(at, key), at, key) == ValidationModel::Valid,
        step_spec(
            PhaseModel::AwaitingReply(key),
            SshHostKeyVerificationMode::Prompt,
            at,
            known,
            InputModel::Reply(false),
        ) == (StepModel {
            phase: PhaseModel::Rejected,
            known,
            action: ActionModel::Finish(VerdictModel::Rejected),
        }),
        step_spec(
            PhaseModel::AwaitingReply(key),
            SshHostKeyVerificationMode::Prompt,
            at,
            known,
            InputModel::ReplyDropped,
        ) == (StepModel {
            phase: PhaseModel::Rejected,
            known,
            action: ActionModel::Finish(VerdictModel::Internal),
        }),
{
}

/// A key that differs from the one on file is never resolved by itself:
/// whatever the mode, the attempt is rejected with both keys and the store
/// stays as it was.
pub proof fn law_mismatch_rejects(
    known: Map<HostAddress, KeyText>,
    mode: SshHostKeyVerificationMode,
    at: HostAddress,
    key: KeyText,
)
    requires
        known.contains_key(at),
        known[at] != key,
    ensures
        step_spec(PhaseModel::Received(key), mode, at, known, InputModel::Delivered) == (StepModel {
            phase: PhaseModel::Rejected,
            known,
            action: ActionModel::Finish(VerdictModel::Mismatch { received: key, known: known[at] }),
        }),
{
}

/// No step writes to the store but to put the received key on file for the
/// target while accepting; and a decided attempt stays decided.
pub proof fn law_store_changes_only_on_accept(
    phase: PhaseModel,
    mode: SshHostKeyVerificationMode,
    at: HostAddress,
    known: Map<HostAddress, KeyText>,
    input: InputModel,
)
    ensures
        ({
            let next = step_spec(phase, mode, at, known, input);
            &&& next.known == known || (next.phase is Accepted && exists|key: KeyText|
                next.known == known.insert(at, key) && (phase == PhaseModel::Received(key) || phase
                    == PhaseModel::AwaitingReply(key)))
            &&& is_terminal(phase) ==> next.phase == phase && next.known == known
            &&& next.action is Finish <==> is_terminal(next.phase)
        }),
{
    let next = step_spec(phase, mode, at, known, input);
    match phase {
        PhaseModel::Received(key) => {
            if next.known != known {
                assert(next.known == known.insert(at, key));
            }
        },
        PhaseModel::AwaitingReply(key) => {
            if next.known != known {
                assert(next.known == known.insert(at, key));
            }
        },
        _ => {},
    }
}

/// Every input brings an undecided attempt nearer to its decision, so that
/// none stays open: after the key, the report on its announcement and the
/// operator's reply, or whatever came in their place, the attempt is decided.
pub proof fn law_every_step_advances(
    phase: PhaseModel,
    mode: SshHostKeyVerificationMode,
    at: HostAddress,
    known: Map<HostAddress, KeyText>,
    input: InputModel,
)
    requires
        !is_terminal(phase),
    ensures
        steps_left(step_spec(phase, mode, at, known, input).phase) < steps_left(phase),
        steps_left(phase) <= 3,
{
}

} // verus!
