//! The socket-configuration state machine of the activation pipeline.
//!
//! Switching a socket to kernel TLS takes three kernel operations in a
//! strict order: enable the TLS upper-level protocol, install the transmit
//! crypto parameters, install the receive crypto parameters.  The machine
//! decides, from the outcome of each operation, which operation comes next
//! or which error the attempt ends in; the caller performs the operations
//! themselves (they are socket I/O) and feeds every outcome back.  No
//! operation is ever retried, and after a failure no further configuration
//! of the socket is ever requested.

use vstd::prelude::*;

use crate::error::Error;
use crate::info::CryptoInfo;
use crate::suites::Direction;

verus! {

/// Where a configuration attempt stands: which operation's outcome it is
/// waiting for, or how it ended.
#[derive(Clone, Copy, Debug, PartialEq, Eq, Structural)]
pub enum ConfigPhase {
    /// Waiting for the outcome of enabling the TLS upper-level protocol.
    UlpPending,
    /// Waiting for the outcome of installing the transmit parameters.
    TxPending,
    /// Waiting for the outcome of installing the receive parameters.
    RxPending,
    /// Both directions are installed; the kernel owns the record layer.
    Done,
    /// An operation failed; the socket must not be configured further.
    Failed(Error),
}

/// What the machine asks its driver to do next.
#[derive(Clone, Debug, PartialEq, Eq)]
pub enum ConfigAction {
    /// Install the given direction's crypto parameters on the socket.
    SetCryptoInfo(Direction, CryptoInfo),
    /// Configuration is complete: hand the socket to its stream.
    Finish,
    /// Configuration failed with this error: stop touching the socket.
    Abort(Error),
}

/// The configuration state machine.  Created with both directions' crypto
/// parameters; the driver first enables the TLS upper-level protocol, then
/// feeds each operation's outcome to [`Configurator::step`] and performs
/// the action it returns.
#[derive(Debug)]
pub struct Configurator {
    pub phase: ConfigPhase,
    pub tx: Option<CryptoInfo>,
    pub rx: Option<CryptoInfo>,
}

impl Configurator {
    /// A direction's parameters are still held while the machine has not
    /// asked for them to be installed.
    pub open spec fn wf(self) -> bool {
        &&& self.phase is UlpPending ==> self.tx is Some && self.rx is Some
        &&& self.phase is TxPending ==> self.rx is Some
    }

    /// Starts a configuration attempt.  The driver's first operation is
    /// enabling the TLS upper-level protocol; its outcome goes to `step`.
    pub fn new(tx: CryptoInfo, rx: CryptoInfo) -> (m: Configurator)
        ensures
            m.wf(),
            m.phase == ConfigPhase::UlpPending,
            m.tx == Some(tx),
            m.rx == Some(rx),
    {
        Configurator { phase: ConfigPhase::UlpPending, tx: Some(tx), rx: Some(rx) }
    }

    /// The machine after one outcome, and the action it requests.
    pub open spec fn spec_step(m: Configurator, outcome: Result<(), i32>) -> (
        Configurator,
        ConfigAction,
    ) {
        match m.phase {
            ConfigPhase::UlpPending => match outcome {
                Ok(_) => (
                    Configurator { phase: ConfigPhase::TxPending, tx: None, rx: m.rx },
                    ConfigAction::SetCryptoInfo(Direction::Tx, m.tx->0),
                ),
                Err(code) => (
                    Configurator { phase: ConfigPhase::Failed(Error::UlpError(code)), ..m },
                    ConfigAction::Abort(Error::UlpError(code)),
                ),
            },
            ConfigPhase::TxPending => match outcome {
                Ok(_) => (
                    Configurator { phase: ConfigPhase::RxPending, tx: m.tx, rx: None },
                    ConfigAction::SetCryptoInfo(Direction::Rx, m.rx->0),
                ),
                Err(code) => (
                    Configurator {
                        phase: ConfigPhase::Failed(Error::TlsCryptoInfoError(code)),
                        ..m
                    },
                    ConfigAction::Abort(Error::TlsCryptoInfoError(code)),
                ),
            },
            ConfigPhase::RxPending => match outcome {
                Ok(_) => (
                    Configurator { phase: ConfigPhase::Done, ..m },
                    ConfigAction::Finish,
                ),
                Err(code) => (
                    Configurator {
                        phase: ConfigPhase::Failed(Error::TlsCryptoInfoError(code)),
                        ..m
                    },
                    ConfigAction::Abort(Error::TlsCryptoInfoError(code)),
                ),
            },
            ConfigPhase::Done => (m, ConfigAction::Finish),
            ConfigPhase::Failed(e) => (m, ConfigAction::Abort(e)),
        }
    }

    /// Feeds the outcome of the last kernel operation to the machine and
    /// returns what to do next.  `outcome` is `Err(code)` when the
    /// operation failed with that operating-system error code.
    pub fn step(&mut self, outcome: Result<(), i32>) -> (a: ConfigAction)
        requires
            old(self).wf(),
        ensures
            final(self).wf(),
            (*final(self), a) == Self::spec_step(*old(self), outcome),
    {
        match self.phase {
            ConfigPhase::UlpPending => match outcome {
                Ok(_) => {
                    self.phase = ConfigPhase::TxPending;
                    let info = self.tx.take();
                    ConfigAction::SetCryptoInfo(Direction::Tx, info.unwrap())
                },
                Err(code) => {
                    self.phase = ConfigPhase::Failed(Error::UlpError(code));
                    ConfigAction::Abort(Error::UlpError(code))
                },
            },
            ConfigPhase::TxPending => match outcome {
                Ok(_) => {
                    self.phase = ConfigPhase::RxPending;
                    let info = self.rx.take();
                    ConfigAction::SetCryptoInfo(Direction::Rx, info.unwrap())
                },
                Err(code) => {
                    self.phase = ConfigPhase::Failed(Error::TlsCryptoInfoError(code));
                    ConfigAction::Abort(Error::TlsCryptoInfoError(code))
                },
            },
            ConfigPhase::RxPending => match outcome {
                Ok(_) => {
                    self.phase = ConfigPhase::Done;
                    ConfigAction::Finish
                },
                Err(code) => {
                    self.phase = ConfigPhase::Failed(Error::TlsCryptoInfoError(code));
                    ConfigAction::Abort(Error::TlsCryptoInfoError(code))
                },
            },
            ConfigPhase::Done => ConfigAction::Finish,
            ConfigPhase::Failed(e) => ConfigAction::Abort(e),
        }
    }
}

/// The configuration steps form a strict sequence, none skippable and none
/// reordered: while every operation succeeds, the machine asks for the
/// transmit parameters only after the upper-level protocol is enabled, for
/// the receive parameters only after the transmit installation, and to
/// finish only after the receive installation.
pub proof fn lemma_strict_configuration_order(m0: Configurator)
    requires
        m0.phase is UlpPending,
        m0.tx is Some,
        m0.rx is Some,
    ensures
        ({
            let (m1, a1) = Configurator::spec_step(m0, Ok::<(), i32>(()));
            let (m2, a2) = Configurator::spec_step(m1, Ok::<(), i32>(()));
            let (m3, a3) = Configurator::spec_step(m2, Ok::<(), i32>(()));
            &&& a1 == ConfigAction::SetCryptoInfo(Direction::Tx, m0.tx->0)
            &&& a2 == ConfigAction::SetCryptoInfo(Direction::Rx, m0.rx->0)
            &&& a3 == ConfigAction::Finish
            &&& m3.phase is Done
        }),
{
}

/// A failure to enable the TLS upper-level protocol prevents any crypto
/// configuration of the socket: the step aborts with the ULP error, the
/// machine is failed, and from a failed machine every later step aborts
/// again without ever requesting a crypto-parameter installation.
pub proof fn lemma_ulp_failure_blocks_crypto_config(m: Configurator, code: i32)
    requires
        m.phase is UlpPending,
    ensures
        ({
            let (m2, a) = Configurator::spec_step(m, Err(code));
            &&& a == ConfigAction::Abort(Error::UlpError(code))
            &&& m2.phase is Failed
        }),
        forall|f: Configurator, outcome: Result<(), i32>|
            f.phase is Failed ==> {
                let (f2, a) = #[trigger] Configurator::spec_step(f, outcome);
                &&& !(a is SetCryptoInfo)
                &&& f2 == f
            },
{
}

} // verus!
